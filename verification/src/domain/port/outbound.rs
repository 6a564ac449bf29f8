//! What the domain needs from the world: a store and an exporter.

pub mod balance_exporter;
pub mod client_balance_repository;
pub mod ledger;
