//! The adapters in front of the inbound port.

pub mod http;
