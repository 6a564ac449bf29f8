//! Per-client monetary balances: validated value objects, the ledger ports,
//! the use-case service with its close-out workflow, and the adapters whose
//! rules can be stated without touching a transport or a disk.

pub mod application;
pub mod domain;
pub mod infrastructure;
