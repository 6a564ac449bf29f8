//! The error taxonomy of the client domain.

use vstd::prelude::*;
use vstd::std_specs::cmp::PartialEqSpecImpl;

use crate::domain::model::value::client_id::ClientId;
use crate::domain::model::value::document::Document;
use crate::domain::model::value::text::{to_uppercase, usize_to_string};

verus! {

/// Everything that a use case can report instead of its result.
#[derive(Debug)]
#[allow(inconsistent_fields)]
pub enum ClientError {
    /// A client with this document exists already.
    Duplicate { document: String },
    /// No client has this id.
    NotFoundById { id_document: ClientId },
    /// No client has this document.
    NotFoundByDocument { document: Document },
    /// A field was empty after trimming.
    FieldEmpty { field_name: String },
    /// A field did not have the required shape.
    FieldInvalid { field_name: String, value: String },
    /// A field was longer than its limit.
    FieldMaxLength { field_name: String, max_length: usize },
    /// A credit must not be negative.
    NegativeAmount,
    /// A debit must not be positive.
    PositiveAmount,
    /// A transaction must move something.
    ZeroAmount,
    /// There is no balance to close out.
    BalancesEmpty,
    /// A failure of an adapter, with its cause for diagnostics.
    Unknown(String),
}

/// The mathematical content of a [`ClientError`].
#[allow(inconsistent_fields)]
pub enum ClientErrorView {
    Duplicate { document: Seq<char> },
    NotFoundById { id_document: usize },
    NotFoundByDocument { document: Seq<char> },
    FieldEmpty { field_name: Seq<char> },
    FieldInvalid { field_name: Seq<char>, value: Seq<char> },
    FieldMaxLength { field_name: Seq<char>, max_length: usize },
    NegativeAmount,
    PositiveAmount,
    ZeroAmount,
    BalancesEmpty,
    Unknown { cause: Seq<char> },
}

impl View for ClientError {
    type V = ClientErrorView;

    open spec fn view(&self) -> ClientErrorView {
        match self {
            ClientError::Duplicate { document } => ClientErrorView::Duplicate {
                document: document@,
            },
            ClientError::NotFoundById { id_document } => ClientErrorView::NotFoundById {
                id_document: id_document@,
            },
            ClientError::NotFoundByDocument { document } => ClientErrorView::NotFoundByDocument {
                document: document@,
            },
            ClientError::FieldEmpty { field_name } => ClientErrorView::FieldEmpty {
                field_name: field_name@,
            },
            ClientError::FieldInvalid { field_name, value } => ClientErrorView::FieldInvalid {
                field_name: field_name@,
                value: value@,
            },
            ClientError::FieldMaxLength { field_name, max_length } => {
                ClientErrorView::FieldMaxLength { field_name: field_name@, max_length: *max_length }
            },
            ClientError::NegativeAmount => ClientErrorView::NegativeAmount,
            ClientError::PositiveAmount => ClientErrorView::PositiveAmount,
            ClientError::ZeroAmount => ClientErrorView::ZeroAmount,
            ClientError::BalancesEmpty => ClientErrorView::BalancesEmpty,
            ClientError::Unknown(cause) => ClientErrorView::Unknown { cause: cause@ },
        }
    }
}

impl ClientErrorView {
    /// Equality of errors: variant and fields, except that any two unknown
    /// failures count as equal, whatever their causes.
    pub open spec fn same_as(self, other: ClientErrorView) -> bool {
        if self is Unknown {
            other is Unknown
        } else {
            self == other
        }
    }

    /// The stable code of the error, for clients of the API.
    pub open spec fn code(self) -> Seq<char> {
        match self {
            ClientErrorView::Duplicate { .. } => "CLIENT_DUPLICATE"@,
            ClientErrorView::NotFoundById { .. } => "CLIENT_NOT_FOUND_BY_ID"@,
            ClientErrorView::NotFoundByDocument { .. } => "CLIENT_NOT_FOUND_BY_DOCUMENT"@,
            ClientErrorView::FieldEmpty { field_name } => "CLIENT_"@
                + crate::domain::model::value::text::upper_case(field_name) + "_EMPTY"@,
            ClientErrorView::FieldInvalid { field_name, .. } => "CLIENT_"@
                + crate::domain::model::value::text::upper_case(field_name) + "_INVALID"@,
            ClientErrorView::FieldMaxLength { field_name, .. } => "CLIENT_"@
                + crate::domain::model::value::text::upper_case(field_name) + "_MAX_LENGTH"@,
            ClientErrorView::NegativeAmount => "CLIENT_NEGATIVE_BALANCE"@,
            ClientErrorView::PositiveAmount => "CLIENT_POSITIVE_BALANCE"@,
            ClientErrorView::ZeroAmount => "CLIENT_ZERO_BALANCE"@,
            ClientErrorView::BalancesEmpty => "CLIENT_BALANCES_EMPTY"@,
            ClientErrorView::Unknown { .. } => "CLIENT_UNKNOWN_ERROR"@,
        }
    }

    /// The message of the error, for people.
    pub open spec fn message(self) -> Seq<char> {
        match self {
            ClientErrorView::Duplicate { document } => "client with document "@ + document
                + " already exists"@,
            ClientErrorView::NotFoundById { id_document } => "client not found by id "@
                + crate::domain::model::value::text::decimal_text(id_document as nat),
            ClientErrorView::NotFoundByDocument { document } => "client not found by document "@
                + document,
            ClientErrorView::FieldEmpty { field_name } => "client "@ + field_name
                + " cannot be empty"@,
            ClientErrorView::FieldInvalid { field_name, value } => "client "@ + field_name
                + " is invalid: "@ + value,
            ClientErrorView::FieldMaxLength { field_name, max_length } => "client "@ + field_name
                + " is too long. Max length is "@
                + crate::domain::model::value::text::decimal_text(max_length as nat),
            ClientErrorView::NegativeAmount => "client amount cannot be negative"@,
            ClientErrorView::PositiveAmount => "client amount cannot be positive"@,
            ClientErrorView::ZeroAmount => "client amount cannot be zero"@,
            ClientErrorView::BalancesEmpty => "balances are empty"@,
            ClientErrorView::Unknown { cause } => cause,
        }
    }
}

impl PartialEq for ClientError {
    fn eq(&self, other: &Self) -> (r: bool) {
        match self {
            ClientError::Duplicate { document: d1 } => match other {
                ClientError::Duplicate { document: d2 } => *d1 == *d2,
                _ => false,
            },
            ClientError::NotFoundById { id_document: id1 } => match other {
                ClientError::NotFoundById { id_document: id2 } => id1.number() == id2.number(),
                _ => false,
            },
            ClientError::NotFoundByDocument { document: d1 } => match other {
                ClientError::NotFoundByDocument { document: d2 } => *d1 == *d2,
                _ => false,
            },
            ClientError::FieldEmpty { field_name: f1 } => match other {
                ClientError::FieldEmpty { field_name: f2 } => *f1 == *f2,
                _ => false,
            },
            ClientError::FieldInvalid { field_name: f1, value: v1 } => match other {
                ClientError::FieldInvalid { field_name: f2, value: v2 } => *f1 == *f2 && *v1 == *v2,
                _ => false,
            },
            ClientError::FieldMaxLength { field_name: f1, max_length: m1 } => match other {
                ClientError::FieldMaxLength { field_name: f2, max_length: m2 } => *f1 == *f2
                    && *m1 == *m2,
                _ => false,
            },
            ClientError::NegativeAmount => match other {
                ClientError::NegativeAmount => true,
                _ => false,
            },
            ClientError::PositiveAmount => match other {
                ClientError::PositiveAmount => true,
                _ => false,
            },
            ClientError::ZeroAmount => match other {
                ClientError::ZeroAmount => true,
                _ => false,
            },
            ClientError::BalancesEmpty => match other {
                ClientError::BalancesEmpty => true,
                _ => false,
            },
            ClientError::Unknown(_) => match other {
                ClientError::Unknown(_) => true,
                _ => false,
            },
        }
    }
}

impl PartialEqSpecImpl for ClientError {
    open spec fn obeys_eq_spec() -> bool {
        true
    }

    open spec fn eq_spec(&self, other: &Self) -> bool {
        self@.same_as(other@)
    }
}

impl ClientError {
    /// The stable code of the error.
    pub fn code(&self) -> (r: String)
        ensures
            r@ == self@.code(),
    {
        match self {
            ClientError::Duplicate { .. } => "CLIENT_DUPLICATE".to_string(),
            ClientError::NotFoundById { .. } => "CLIENT_NOT_FOUND_BY_ID".to_string(),
            ClientError::NotFoundByDocument { .. } => "CLIENT_NOT_FOUND_BY_DOCUMENT".to_string(),
            ClientError::FieldEmpty { field_name } => field_code(field_name.as_str(), "_EMPTY"),
            ClientError::FieldInvalid { field_name, value: _ } => field_code(
                field_name.as_str(),
                "_INVALID",
            ),
            ClientError::FieldMaxLength { field_name, max_length: _ } => field_code(
                field_name.as_str(),
                "_MAX_LENGTH",
            ),
            ClientError::NegativeAmount => "CLIENT_NEGATIVE_BALANCE".to_string(),
            ClientError::PositiveAmount => "CLIENT_POSITIVE_BALANCE".to_string(),
            ClientError::ZeroAmount => "CLIENT_ZERO_BALANCE".to_string(),
            ClientError::BalancesEmpty => "CLIENT_BALANCES_EMPTY".to_string(),
            ClientError::Unknown(_) => "CLIENT_UNKNOWN_ERROR".to_string(),
        }
    }

    /// The message of the error.
    pub fn to_string(&self) -> (r: String)
        ensures
            r@ == self@.message(),
    {
        match self {
            ClientError::Duplicate { document } => {
                let mut text = "client with document ".to_string();
                text.append(document.as_str());
                text.append(" already exists");
                text
            },
            ClientError::NotFoundById { id_document } => {
                let mut text = "client not found by id ".to_string();
                let id = id_document.to_string();
                text.append(id.as_str());
                text
            },
            ClientError::NotFoundByDocument { document } => {
                let mut text = "client not found by document ".to_string();
                text.append(document.as_str());
                text
            },
            ClientError::FieldEmpty { field_name } => {
                let mut text = "client ".to_string();
                text.append(field_name.as_str());
                text.append(" cannot be empty");
                text
            },
            ClientError::FieldInvalid { field_name, value } => {
                let mut text = "client ".to_string();
                text.append(field_name.as_str());
                text.append(" is invalid: ");
                text.append(value.as_str());
                text
            },
            ClientError::FieldMaxLength { field_name, max_length } => {
                let mut text = "client ".to_string();
                let limit = usize_to_string(*max_length);
                text.append(field_name.as_str());
                text.append(" is too long. Max length is ");
                text.append(limit.as_str());
                text
            },
            ClientError::NegativeAmount => "client amount cannot be negative".to_string(),
            ClientError::PositiveAmount => "client amount cannot be positive".to_string(),
            ClientError::ZeroAmount => "client amount cannot be zero".to_string(),
            ClientError::BalancesEmpty => "balances are empty".to_string(),
            ClientError::Unknown(cause) => cause.clone(),
        }
    }
}

/// `CLIENT_`, the field's name in upper case, and the given ending.
fn field_code(field_name: &str, ending: &str) -> (r: String)
    ensures
        r@ == "CLIENT_"@ + crate::domain::model::value::text::upper_case(field_name@) + ending@,
{
    let upper = to_uppercase(field_name);
    code_of_field(upper.as_str(), ending)
}

/// The code of an error about a field, from the field's name as it stands
/// in codes and the ending that tells what was wrong: `CLIENT_`, the
/// name, the ending.
pub fn code_of_field(field_name: &str, ending: &str) -> (r: String)
    ensures
        r@ == "CLIENT_"@ + field_name@ + ending@,
{
    let mut code = "CLIENT_".to_string();
    code.append(field_name);
    code.append(ending);
    code
}

} // verus!
