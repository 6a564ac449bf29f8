//! The ports of the domain: what it offers, and what it needs.

pub mod inbound;
pub mod outbound;
