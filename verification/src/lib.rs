//! Ledger state and block acceptance for a minimal UTXO chain.
//!
//! A [`chain::Blockchain`] holds the accepted blocks in order and the
//! outputs that they leave unspent. Its one mutating operation holds a
//! candidate block against the last accepted block and takes it in or turns
//! it away with a reason; a block that is turned away changes nothing.
//!
//! Hashing, the merkle commitment and the verification of transactions are
//! not part of this crate. The ledger is handed a function for each and
//! decides on what they return.

pub mod chain;
pub mod crypto;
pub mod digest;
pub mod error;
pub mod laws;
pub mod time;
pub mod types;
pub mod uint;
pub mod utxo;
