//! What the HTTP transport needs from the domain: the shape of its
//! requests and answers, and the status of each error.

pub mod dto;
pub mod error;
pub mod logs;
