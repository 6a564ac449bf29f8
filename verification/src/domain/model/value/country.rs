//! The country of a client.

use vstd::prelude::*;
use vstd::std_specs::cmp::PartialEqSpecImpl;

use crate::domain::model::error::ClientError;
use crate::domain::model::value::text::trim;
use crate::domain::model::value::MAX_LENGTH_COUNTRY;

verus! {

/// A valid country: trimmed, not empty, at most `MAX_LENGTH_COUNTRY` bytes.
#[derive(Debug, Eq, PartialOrd, Ord, Hash)]
pub struct Country(String);

impl View for Country {
    type V = Seq<char>;

    closed spec fn view(&self) -> Seq<char> {
        self.0@
    }
}

impl Clone for Country {
    fn clone(&self) -> (r: Self)
        ensures
            r@ == self@,
    {
        proof {
            use_type_invariant(self);
        }
        Country(self.0.clone())
    }
}

impl PartialEq for Country {
    fn eq(&self, other: &Self) -> (r: bool) {
        self.0 == other.0
    }
}

impl PartialEqSpecImpl for Country {
    open spec fn obeys_eq_spec() -> bool {
        true
    }

    open spec fn eq_spec(&self, other: &Self) -> bool {
        self@ == other@
    }
}

impl Country {
    #[verifier::type_invariant]
    closed spec fn well_formed(self) -> bool {
        crate::domain::model::value::text::accepted_field(self.0@, MAX_LENGTH_COUNTRY)
    }

    /// Trims the text and accepts it unless it is empty (`FieldEmpty`) or
    /// longer than `MAX_LENGTH_COUNTRY` bytes (`FieldMaxLength`).
    pub fn new(name: &str) -> (r: Result<Self, ClientError>)
        ensures
            crate::domain::model::value::text::field_outcome(
                name@,
                "country"@,
                MAX_LENGTH_COUNTRY,
                match r {
                    Ok(country) => Ok(country@),
                    Err(e) => Err(e@),
                },
            ),
    {
        proof {
            crate::domain::model::value::text::lemma_trimmed_idempotent(name@);
        }
        let name = trim(name);
        if name.is_empty() {
            Err(ClientError::FieldEmpty { field_name: "country".to_string() })
        } else if name.as_bytes().len() > MAX_LENGTH_COUNTRY {
            Err(
                ClientError::FieldMaxLength {
                    field_name: "country".to_string(),
                    max_length: MAX_LENGTH_COUNTRY,
                },
            )
        } else {
            Ok(Country(name.to_string()))
        }
    }

    /// The country as text: trimmed, not empty and within the limit.
    pub fn as_str(&self) -> (r: &str)
        ensures
            r@ == self@,
            crate::domain::model::value::text::accepted_field(self@, MAX_LENGTH_COUNTRY),
    {
        proof {
            use_type_invariant(self);
        }
        self.0.as_str()
    }

    /// The country as an owned text.
    pub fn to_string(&self) -> (r: String)
        ensures
            r@ == self@,
    {
        self.0.clone()
    }
}

} // verus!
