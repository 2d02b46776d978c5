//! Lamport transfers, account closing, signature checks and the clock.
use crate::bytes::zeros;
use crate::error::{GeneralError, ProgramError};
use crate::external::{ed25519_verifies, ed25519_verify};
use crate::types::AccountInfo;
use vstd::prelude::*;

verus! {

/// Checks that `signature` is an ed25519 signature of `message` by
/// `pubkey_bytes`; a signature that does not verify is a `GeneralError`.
pub fn verify_signature(message: &[u8], signature: &[u8; 64], pubkey_bytes: &[u8; 32]) -> (r: Result<
    (),
    GeneralError,
>)
    ensures
        r is Ok <==> ed25519_verifies(pubkey_bytes@, signature@, message@),
        r is Err ==> r == Err::<(), GeneralError>(GeneralError::GeneralError),
{
    if ed25519_verify(pubkey_bytes, signature, message) {
        Ok(())
    } else {
        Err(GeneralError::GeneralError)
    }
}

/// Moves `amount` lamports from `from_info` to `to_info`; the total is kept.
pub fn pay_to_user(from_info: &mut AccountInfo, to_info: &mut AccountInfo, amount: u64) -> (r: Result<
    (),
    ProgramError,
>)
    requires
        amount <= old(from_info).lamports,
        old(to_info).lamports + amount <= u64::MAX,
    ensures
        r == Ok::<(), ProgramError>(()),
        final(from_info).lamports == old(from_info).lamports - amount,
        final(to_info).lamports == old(to_info).lamports + amount,
        final(from_info).lamports + final(to_info).lamports == old(from_info).lamports + old(to_info).lamports,
        final(from_info).key == old(from_info).key,
        final(from_info).data == old(from_info).data,
        final(to_info).key == old(to_info).key,
        final(to_info).data == old(to_info).data,
{
    let to_lamports_initial = to_info.lamports;
    let from_lamports_initial = from_info.lamports;
    let final_from_amount = from_lamports_initial - amount;
    to_info.lamports = to_lamports_initial + amount;
    from_info.lamports = final_from_amount;
    Ok(())
}

/// Closes `source_account`: all its lamports go to `receiver_account` and its
/// data is zeroed.  When the receiver's balance would overflow the result
/// is `InvalidArgument`; the source's balance has then already been set to
/// zero, while the receiver and the source's data are left as they were.
pub fn close_account(source_account: &mut AccountInfo, receiver_account: &mut AccountInfo) -> (r:
    Result<(), ProgramError>)
    ensures
        r is Ok <==> old(receiver_account).lamports + old(source_account).lamports <= u64::MAX,
        r is Err ==> r == Err::<(), ProgramError>(ProgramError::InvalidArgument),
        r is Err ==> final(source_account).lamports == 0,
        r is Err ==> final(source_account).key == old(source_account).key,
        r is Err ==> final(source_account).data == old(source_account).data,
        r is Err ==> final(receiver_account).lamports == old(receiver_account).lamports,
        r is Err ==> final(receiver_account).data == old(receiver_account).data,
        r is Ok ==> {
            &&& final(source_account).lamports == 0
            &&& final(receiver_account).lamports == old(receiver_account).lamports + old(source_account).lamports
            &&& final(source_account).data@ == zeros(old(source_account).data@.len())
            &&& final(source_account).key == old(source_account).key
            &&& final(receiver_account).key == old(receiver_account).key
            &&& final(receiver_account).data == old(receiver_account).data
        },
{
    let current_lamports = source_account.lamports;
    let receiver_lamports = receiver_account.lamports;
    source_account.lamports = 0;
    match receiver_lamports.checked_add(current_lamports) {
        None => Err(ProgramError::InvalidArgument),
        Some(total) => {
            receiver_account.lamports = total;
            let n = source_account.data.len();
            let ghost key0 = source_account.key;
            let mut i: usize = 0;
            while i < n
                invariant
                    i <= n,
                    source_account.lamports == 0,
                    source_account.key == key0,
                    n == source_account.data@.len(),
                    forall|j: int| 0 <= j < i ==> source_account.data@[j] == 0,
                decreases n - i,
            {
                source_account.data.set(i, 0);
                i = i + 1;
            }
            assert(source_account.data@ =~= zeros(n as nat));
            Ok(())
        },
    }
}

/// The clock's Unix timestamp clamped into `0 ..= u32::MAX`.
pub open spec fn spec_clock32(unix_timestamp: i64) -> u32 {
    if unix_timestamp < 0 {
        0
    } else if unix_timestamp > u32::MAX {
        u32::MAX
    } else {
        unix_timestamp as u32
    }
}

/// The clock's Unix timestamp clamped into `0 ..= u32::MAX`, as the program
/// stamps payloads and views.
pub fn clock32(unix_timestamp: i64) -> (r: u32)
    ensures
        r == spec_clock32(unix_timestamp),
{
    if unix_timestamp < 0 {
        0
    } else if unix_timestamp > u32::MAX as i64 {
        u32::MAX
    } else {
        unix_timestamp as u32
    }
}

} // verus!
