//! The errors of the HTTP API.

use vstd::prelude::*;

use crate::domain::model::error::{ClientError, ClientErrorView};

verus! {

/// 400 Bad Request.
pub const BAD_REQUEST: u16 = 400;

/// 404 Not Found.
pub const NOT_FOUND: u16 = 404;

/// 409 Conflict.
pub const CONFLICT: u16 = 409;

/// 500 Internal Server Error.
pub const INTERNAL_SERVER_ERROR: u16 = 500;

/// The HTTP status that answers an error of the domain: a conflict for a
/// duplicate, not found for what is missing, a bad request for what was
/// malformed, and a server error for a failure of an adapter.
pub open spec fn status_of(error: ClientErrorView) -> u16 {
    match error {
        ClientErrorView::Duplicate { .. } => CONFLICT,
        ClientErrorView::NotFoundById { .. } => NOT_FOUND,
        ClientErrorView::NotFoundByDocument { .. } => NOT_FOUND,
        ClientErrorView::BalancesEmpty => NOT_FOUND,
        ClientErrorView::Unknown { .. } => INTERNAL_SERVER_ERROR,
        _ => BAD_REQUEST,
    }
}

/// The mathematical content of an [`ApiError`].
pub struct ApiErrorView {
    pub status_code: u16,
    pub error_code: Seq<char>,
    pub error_message: Seq<char>,
}

/// The answer of the API to an error of the domain.
pub open spec fn api_error_of(error: ClientErrorView) -> ApiErrorView {
    ApiErrorView {
        status_code: status_of(error),
        error_code: error.code(),
        error_message: error.message(),
    }
}

/// An error as the API reports it.
#[derive(Debug)]
pub struct ApiError {
    status_code: u16,
    error_code: String,
    error_message: String,
}

impl View for ApiError {
    type V = ApiErrorView;

    closed spec fn view(&self) -> ApiErrorView {
        ApiErrorView {
            status_code: self.status_code,
            error_code: self.error_code@,
            error_message: self.error_message@,
        }
    }
}

impl ApiError {
    /// The error with this status, code and message.
    pub fn new(status_code: u16, error_code: String, error_message: String) -> (r: Self)
        ensures
            r@ == (ApiErrorView {
                status_code,
                error_code: error_code@,
                error_message: error_message@,
            }),
    {
        Self { status_code, error_code, error_message }
    }

    /// The answer to an error of the domain: its status, code and message.
    pub fn from(error: ClientError) -> (r: Self)
        ensures
            r@ == api_error_of(error@),
    {
        Self::new(error.status_code(), error.code(), error.to_string())
    }

    /// The HTTP status of the error.
    pub fn status_code(&self) -> (r: u16)
        ensures
            r == self@.status_code,
    {
        self.status_code
    }

    /// The stable code of the error.
    pub fn error_code(&self) -> (r: &str)
        ensures
            r@ == self@.error_code,
    {
        self.error_code.as_str()
    }

    /// The message of the error.
    pub fn error_message(&self) -> (r: &str)
        ensures
            r@ == self@.error_message,
    {
        self.error_message.as_str()
    }

    /// The error as text: its message.
    pub fn to_string(&self) -> (r: String)
        ensures
            r@ == self@.error_message,
    {
        self.error_message.clone()
    }
}

impl ClientError {
    /// The HTTP status that answers the error.
    pub fn status_code(&self) -> (r: u16)
        ensures
            r == status_of(self@),
    {
        match self {
            ClientError::Duplicate { .. } => CONFLICT,
            ClientError::NotFoundById { .. } => NOT_FOUND,
            ClientError::NegativeAmount => BAD_REQUEST,
            ClientError::ZeroAmount => BAD_REQUEST,
            ClientError::NotFoundByDocument { .. } => NOT_FOUND,
            ClientError::FieldEmpty { .. } => BAD_REQUEST,
            ClientError::FieldInvalid { .. } => BAD_REQUEST,
            ClientError::FieldMaxLength { .. } => BAD_REQUEST,
            ClientError::PositiveAmount => BAD_REQUEST,
            ClientError::BalancesEmpty => NOT_FOUND,
            ClientError::Unknown(_) => INTERNAL_SERVER_ERROR,
        }
    }
}

} // verus!
