//! The adapters: what reaches the domain from outside, and what the domain
//! reaches.

pub mod inbound;
pub mod outbound;
