//! Values, entities, requests and the error taxonomy.

pub mod dto;
pub mod entity;
pub mod error;
pub mod value;
