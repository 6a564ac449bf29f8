//! The name of a client.

use vstd::prelude::*;
use vstd::std_specs::cmp::PartialEqSpecImpl;

use crate::domain::model::error::ClientError;
use crate::domain::model::value::text::trim;
use crate::domain::model::value::MAX_LENGTH_NAME;

verus! {

/// A valid client name: trimmed, not empty, at most `MAX_LENGTH_NAME` bytes.
#[derive(Debug, Eq, PartialOrd, Ord, Hash)]
pub struct ClientName(String);

impl View for ClientName {
    type V = Seq<char>;

    closed spec fn view(&self) -> Seq<char> {
        self.0@
    }
}

impl Clone for ClientName {
    fn clone(&self) -> (r: Self)
        ensures
            r@ == self@,
    {
        proof {
            use_type_invariant(self);
        }
        ClientName(self.0.clone())
    }
}

impl PartialEq for ClientName {
    fn eq(&self, other: &Self) -> (r: bool) {
        self.0 == other.0
    }
}

impl PartialEqSpecImpl for ClientName {
    open spec fn obeys_eq_spec() -> bool {
        true
    }

    open spec fn eq_spec(&self, other: &Self) -> bool {
        self@ == other@
    }
}

impl ClientName {
    #[verifier::type_invariant]
    closed spec fn well_formed(self) -> bool {
        crate::domain::model::value::text::accepted_field(self.0@, MAX_LENGTH_NAME)
    }

    /// Trims the text and accepts it unless it is empty (`FieldEmpty`) or
    /// longer than `MAX_LENGTH_NAME` bytes (`FieldMaxLength`).
    pub fn new(name: &str) -> (r: Result<Self, ClientError>)
        ensures
            crate::domain::model::value::text::field_outcome(
                name@,
                "name"@,
                MAX_LENGTH_NAME,
                match r {
                    Ok(client_name) => Ok(client_name@),
                    Err(e) => Err(e@),
                },
            ),
    {
        proof {
            crate::domain::model::value::text::lemma_trimmed_idempotent(name@);
        }
        let name = trim(name);
        if name.is_empty() {
            Err(ClientError::FieldEmpty { field_name: "name".to_string() })
        } else if name.as_bytes().len() > MAX_LENGTH_NAME {
            Err(
                ClientError::FieldMaxLength {
                    field_name: "name".to_string(),
                    max_length: MAX_LENGTH_NAME,
                },
            )
        } else {
            Ok(ClientName(name.to_string()))
        }
    }

    /// The name as text: trimmed, not empty and within the limit.
    pub fn as_str(&self) -> (r: &str)
        ensures
            r@ == self@,
            crate::domain::model::value::text::accepted_field(self@, MAX_LENGTH_NAME),
    {
        proof {
            use_type_invariant(self);
        }
        self.0.as_str()
    }

    /// The name as an owned text.
    pub fn to_string(&self) -> (r: String)
        ensures
            r@ == self@,
    {
        self.0.clone()
    }
}

} // verus!
