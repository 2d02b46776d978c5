//! Verified core of an on-chain advertising marketplace: account layouts,
//! bid bookkeeping, bloom-filter view tracking and the encodings the program
//! writes into metadata.
pub mod bytes;
pub mod hashes;
pub mod external;
pub mod ascii;
pub mod error;
pub mod types;
pub mod codec;
pub mod layout;
pub mod bloom;
pub mod utils;
pub mod bids;
pub mod metadata;
pub mod pda;
pub mod bid_open;
pub mod bid_close;
pub mod bid_grow;
pub mod ads;
pub mod cnft;
pub mod base;

