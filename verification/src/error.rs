//! The errors the program reports.
use vstd::prelude::*;

verus! {

/// The runtime errors the program returns.
#[derive(Debug, Clone, Copy, PartialEq, Eq, Structural)]
pub enum ProgramError {
    InvalidArgument,
    InvalidInstructionData,
    InvalidAccountData,
    InvalidAccountOwner,
    IllegalOwner,
    InvalidRealloc,
    InvalidSeeds,
    BorshIoError,
}

/// The program's own catch-all error.
#[derive(Debug, Clone, Copy, PartialEq, Eq, Structural)]
pub enum GeneralError {
    GeneralError,
}

/// The bloom filter's error.
#[derive(Debug, Clone, Copy, PartialEq, Eq, Structural)]
pub enum BloomError {
    UserAlreadyInBloom,
}

} // verus!
