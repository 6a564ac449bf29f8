//! The entities of the ledger.

pub mod balance;
pub mod client;
