//! The application layer: the use cases, composed from the ports.

pub mod client_balance_service;
