//! The creation of a client.

use vstd::prelude::*;

use crate::domain::model::dto::create_client::{CreateClientRequest, CreateClientRequestView};
use crate::domain::model::entity::client::Client;
use crate::domain::model::value::birth_date::BirthDate;
use crate::domain::model::value::client_name::ClientName;
use crate::domain::model::value::country::Country;
use crate::domain::model::value::document::Document;
use crate::domain::model::value::{MAX_LENGTH_COUNTRY, MAX_LENGTH_DOCUMENT, MAX_LENGTH_NAME};
use crate::infrastructure::inbound::http::error::{ApiError, ApiErrorView};

verus! {

/// The body of a creation: the four fields of the profile, as text.
#[derive(Debug)]
pub struct CreateClientHttpRequestBody {
    name: String,
    birth_date: String,
    document: String,
    country: String,
}

/// The mathematical content of a [`CreateClientHttpRequestBody`].
pub struct CreateClientBodyView {
    pub name: Seq<char>,
    pub birth_date: Seq<char>,
    pub document: Seq<char>,
    pub country: Seq<char>,
}

impl View for CreateClientHttpRequestBody {
    type V = CreateClientBodyView;

    closed spec fn view(&self) -> CreateClientBodyView {
        CreateClientBodyView {
            name: self.name@,
            birth_date: self.birth_date@,
            document: self.document@,
            country: self.country@,
        }
    }
}

/// What the body asks of the domain, given the date that the parser read
/// from the trimmed birth date: the fields are checked in the order name,
/// document, country, birth date, and the first that fails decides.
pub open spec fn creation_of(body: CreateClientBodyView, parsed: Option<(i32, u32, u32)>) -> Result<
    CreateClientRequestView,
    ApiErrorView,
> {
    match crate::domain::model::value::text::checked_field(body.name, "name"@, MAX_LENGTH_NAME) {
        Err(e) => Err(crate::infrastructure::inbound::http::error::api_error_of(e)),
        Ok(name) => match crate::domain::model::value::text::checked_field(
            body.document,
            "document"@,
            MAX_LENGTH_DOCUMENT,
        ) {
            Err(e) => Err(crate::infrastructure::inbound::http::error::api_error_of(e)),
            Ok(document) => match crate::domain::model::value::text::checked_field(
                body.country,
                "country"@,
                MAX_LENGTH_COUNTRY,
            ) {
                Err(e) => Err(crate::infrastructure::inbound::http::error::api_error_of(e)),
                Ok(country) => match crate::domain::model::value::birth_date::checked_birth_date(
                    body.birth_date,
                    parsed,
                ) {
                    Err(e) => Err(crate::infrastructure::inbound::http::error::api_error_of(e)),
                    Ok(birth_date) => Ok(
                        CreateClientRequestView { name, birth_date, document, country },
                    ),
                },
            },
        },
    }
}

impl CreateClientHttpRequestBody {
    /// The body with these fields.
    pub fn new(name: String, birth_date: String, document: String, country: String) -> (r: Self)
        ensures
            r@ == (CreateClientBodyView {
                name: name@,
                birth_date: birth_date@,
                document: document@,
                country: country@,
            }),
    {
        Self { name, birth_date, document, country }
    }

    /// Converts the body into a request of the domain.
    pub fn try_into_domain(self) -> (r: Result<CreateClientRequest, ApiError>)
        ensures
            match r {
                Ok(request) => creation_of(
                    self@,
                    crate::domain::model::value::birth_date::parsed_date(
                        crate::domain::model::value::text::trimmed(self@.birth_date),
                    ),
                ) == Ok::<CreateClientRequestView, ApiErrorView>(request@),
                Err(e) => creation_of(
                    self@,
                    crate::domain::model::value::birth_date::parsed_date(
                        crate::domain::model::value::text::trimmed(self@.birth_date),
                    ),
                ) == Err::<CreateClientRequestView, ApiErrorView>(e@),
            },
    {
        let name = match ClientName::new(self.name.as_str()) {
            Ok(name) => name,
            Err(e) => {
                return Err(ApiError::from(e));
            },
        };
        let document = match Document::new(self.document.as_str()) {
            Ok(document) => document,
            Err(e) => {
                return Err(ApiError::from(e));
            },
        };
        let country = match Country::new(self.country.as_str()) {
            Ok(country) => country,
            Err(e) => {
                return Err(ApiError::from(e));
            },
        };
        let birth_date = match BirthDate::new(self.birth_date.as_str()) {
            Ok(birth_date) => birth_date,
            Err(e) => {
                return Err(ApiError::from(e));
            },
        };
        Ok(CreateClientRequest::new(name, birth_date, document, country))
    }
}

/// The body that answers a creation: the id of the new client, as text.
#[derive(Debug)]
pub struct CreateClientHttpResponseBody {
    id: String,
}

impl View for CreateClientHttpResponseBody {
    type V = Seq<char>;

    closed spec fn view(&self) -> Seq<char> {
        self.id@
    }
}

impl CreateClientHttpResponseBody {
    /// The answer for the new client.
    pub fn from(client: Client) -> (r: Self)
        ensures
            r@ == crate::domain::model::value::text::decimal_text(client@.id as nat),
    {
        Self { id: client.id().to_string() }
    }

    /// The id of the new client.
    pub fn id(&self) -> (r: &str)
        ensures
            r@ == self@,
    {
        self.id.as_str()
    }
}

} // verus!
