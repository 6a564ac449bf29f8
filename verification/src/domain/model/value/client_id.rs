//! The identity of a client.

use vstd::prelude::*;

use crate::domain::model::error::ClientError;
use crate::domain::model::value::text::{parse_usize, trim, usize_to_string};

verus! {

/// A valid client id: an opaque number, assigned once and never changed.
#[derive(Clone, Copy, Debug, PartialEq, Eq, PartialOrd, Ord, Hash, Structural)]
pub struct ClientId(usize);

impl View for ClientId {
    type V = usize;

    closed spec fn view(&self) -> usize {
        self.0
    }
}

/// What `ClientId::new` makes of a text: the number that the trimmed text
/// denotes, if it denotes one.
pub open spec fn client_id_of(text: Seq<char>) -> Option<usize> {
    crate::domain::model::value::text::parsed_usize(
        crate::domain::model::value::text::trimmed(text),
    )
}

/// The rule of the id field: `FieldEmpty` when nothing is left after
/// trimming, the number that the trimmed text denotes, and `FieldInvalid`
/// with the text as it was given when it denotes none.
pub open spec fn checked_client_id(text: Seq<char>) -> Result<
    usize,
    crate::domain::model::error::ClientErrorView,
> {
    if crate::domain::model::value::text::trimmed(text).len() == 0 {
        Err(crate::domain::model::error::ClientErrorView::FieldEmpty { field_name: "client_id"@ })
    } else {
        match client_id_of(text) {
            Some(number) => Ok(number),
            None => Err(
                crate::domain::model::error::ClientErrorView::FieldInvalid {
                    field_name: "client_id"@,
                    value: text,
                },
            ),
        }
    }
}

impl ClientId {
    /// Reads an id from its decimal notation, ignoring surrounding
    /// whitespace. A text with nothing but whitespace is `FieldEmpty`;
    /// any other text that is no number is `FieldInvalid`, with the text as
    /// given.
    pub fn new(id: &str) -> (r: Result<Self, ClientError>)
        ensures
            match r {
                Ok(client_id) => checked_client_id(id@) == Ok::<
                    usize,
                    crate::domain::model::error::ClientErrorView,
                >(client_id@),
                Err(e) => checked_client_id(id@) == Err::<
                    usize,
                    crate::domain::model::error::ClientErrorView,
                >(e@),
            },
    {
        let id_trimmed = trim(id);
        if id_trimmed.is_empty() {
            return Err(ClientError::FieldEmpty { field_name: "client_id".to_string() });
        }
        match parse_usize(id_trimmed) {
            Some(number) => Ok(ClientId(number)),
            None => Err(
                ClientError::FieldInvalid {
                    field_name: "client_id".to_string(),
                    value: id.to_string(),
                },
            ),
        }
    }

    /// The id with the given number.
    pub fn from_number(number: usize) -> (r: Self)
        ensures
            r@ == number,
    {
        ClientId(number)
    }

    /// The number behind the id.
    pub fn number(&self) -> (r: usize)
        ensures
            r == self@,
    {
        self.0
    }

    /// The id in decimal notation.
    pub fn to_string(&self) -> (r: String)
        ensures
            r@ == crate::domain::model::value::text::decimal_text(self@ as nat),
    {
        usize_to_string(self.0)
    }

    /// Same as [`ClientId::new`], for an owned text.
    pub fn try_from(value: String) -> (r: Result<Self, ClientError>)
        ensures
            match r {
                Ok(client_id) => checked_client_id(value@) == Ok::<
                    usize,
                    crate::domain::model::error::ClientErrorView,
                >(client_id@),
                Err(e) => checked_client_id(value@) == Err::<
                    usize,
                    crate::domain::model::error::ClientErrorView,
                >(e@),
            },
    {
        ClientId::new(value.as_str())
    }

    /// Ids are equal exactly when their numbers are.
    pub proof fn lemma_equal_by_number(self, other: Self)
        ensures
            (self == other) <==> (self@ == other@),
    {
    }
}

} // verus!
