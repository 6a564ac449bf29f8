//! Self-validating value objects.

use vstd::prelude::*;

pub mod amount;
pub mod birth_date;
pub mod client_id;
pub mod client_name;
pub mod country;
pub mod document;
pub mod text;

verus! {

/// Longest accepted client name, in bytes of UTF-8.
pub const MAX_LENGTH_NAME: usize = 128;

/// Longest accepted document, in bytes of UTF-8.
pub const MAX_LENGTH_DOCUMENT: usize = 64;

/// Longest accepted country, in bytes of UTF-8.
pub const MAX_LENGTH_COUNTRY: usize = 32;

} // verus!
