//! What the domain offers: the use cases.

pub mod client_balance_service;
