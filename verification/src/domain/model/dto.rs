//! The validated inputs of the use cases.

pub mod create_client;
pub mod credit_transaction;
pub mod debit_transaction;
pub mod get_balance;
