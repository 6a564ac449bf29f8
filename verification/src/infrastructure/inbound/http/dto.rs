//! The bodies and paths of the HTTP API.

pub mod create_client;
pub mod get_client_balance;
pub mod new_credit_transaction;
pub mod new_debit_transaction;
pub mod store_balances;
