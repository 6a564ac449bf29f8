//! The adapters behind the outbound ports.

pub mod file_exporter;
pub mod in_memory;
