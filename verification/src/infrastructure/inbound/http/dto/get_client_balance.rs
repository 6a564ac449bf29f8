//! The lookup of a client with its balance.

use vstd::prelude::*;

use crate::domain::model::dto::get_balance::GetClientRequest;
use crate::domain::model::entity::balance::{Balance, BalanceView};
use crate::domain::model::entity::client::{Client, ClientView};
use crate::domain::model::value::client_id::ClientId;
use crate::infrastructure::inbound::http::error::{ApiError, ApiErrorView};

verus! {

/// The path of the lookup: the id of the client, as text.
#[derive(Debug)]
pub struct GetClientBalanceHttpRequestPath {
    user_id: String,
}

impl View for GetClientBalanceHttpRequestPath {
    type V = Seq<char>;

    closed spec fn view(&self) -> Seq<char> {
        self.user_id@
    }
}

/// What the path asks of the domain: the lookup of the client whose id it
/// holds, or the answer to an id that is none.
pub open spec fn lookup_of(user_id: Seq<char>) -> Result<usize, ApiErrorView> {
    match crate::domain::model::value::client_id::checked_client_id(user_id) {
        Ok(id) => Ok(id),
        Err(e) => Err(crate::infrastructure::inbound::http::error::api_error_of(e)),
    }
}

impl GetClientBalanceHttpRequestPath {
    /// The path with this id.
    pub fn new(user_id: String) -> (r: Self)
        ensures
            r@ == user_id@,
    {
        Self { user_id }
    }

    /// Converts the path into a request of the domain.
    pub fn try_into_domain(self) -> (r: Result<GetClientRequest, ApiError>)
        ensures
            match r {
                Ok(request) => lookup_of(self@) == Ok::<usize, ApiErrorView>(request@),
                Err(e) => lookup_of(self@) == Err::<usize, ApiErrorView>(e@),
            },
    {
        match ClientId::try_from(self.user_id) {
            Ok(client_id) => Ok(GetClientRequest::new(client_id)),
            Err(e) => Err(ApiError::from(e)),
        }
    }
}

/// The body that answers the lookup: the profile and the balance, as text.
#[derive(Debug)]
pub struct GetClientBalanceHttpResponseBody {
    id: String,
    name: String,
    birth_date: String,
    document: String,
    country: String,
    balance: String,
}

/// The mathematical content of a [`GetClientBalanceHttpResponseBody`].
pub struct ClientBalanceBodyView {
    pub id: Seq<char>,
    pub name: Seq<char>,
    pub birth_date: Seq<char>,
    pub document: Seq<char>,
    pub country: Seq<char>,
    pub balance: Seq<char>,
}

impl View for GetClientBalanceHttpResponseBody {
    type V = ClientBalanceBodyView;

    closed spec fn view(&self) -> ClientBalanceBodyView {
        ClientBalanceBodyView {
            id: self.id@,
            name: self.name@,
            birth_date: self.birth_date@,
            document: self.document@,
            country: self.country@,
            balance: self.balance@,
        }
    }
}

/// The body for a client and a balance. The id is that of the balance.
pub open spec fn client_balance_body(
    client: ClientView,
    balance: BalanceView,
) -> ClientBalanceBodyView {
    ClientBalanceBodyView {
        id: crate::domain::model::value::text::decimal_text(balance.client_id as nat),
        name: client.name,
        birth_date: crate::domain::model::value::birth_date::formatted_date(
            client.birth_date.year as i32,
            client.birth_date.month as u32,
            client.birth_date.day as u32,
        ),
        document: client.document,
        country: client.country,
        balance: crate::domain::model::value::amount::decimal_notation(
            balance.amount.mantissa as i128,
            balance.amount.scale as u32,
        ),
    }
}

impl GetClientBalanceHttpResponseBody {
    /// The body for a client and its balance.
    pub fn from(pair: (Client, Balance)) -> (r: Self)
        ensures
            r@ == client_balance_body(pair.0@, pair.1@),
    {
        let (client, client_balance) = pair;
        Self {
            id: client_balance.client_id().to_string(),
            name: client.name().to_string(),
            birth_date: client.birth_date().to_string(),
            document: client.document().to_string(),
            country: client.country().to_string(),
            balance: client_balance.balance().to_string(),
        }
    }

    /// The id of the client.
    pub fn id(&self) -> (r: &str)
        ensures
            r@ == self@.id,
    {
        self.id.as_str()
    }

    /// The name of the client.
    pub fn name(&self) -> (r: &str)
        ensures
            r@ == self@.name,
    {
        self.name.as_str()
    }

    /// The birth date of the client.
    pub fn birth_date(&self) -> (r: &str)
        ensures
            r@ == self@.birth_date,
    {
        self.birth_date.as_str()
    }

    /// The document of the client.
    pub fn document(&self) -> (r: &str)
        ensures
            r@ == self@.document,
    {
        self.document.as_str()
    }

    /// The country of the client.
    pub fn country(&self) -> (r: &str)
        ensures
            r@ == self@.country,
    {
        self.country.as_str()
    }

    /// The balance of the client.
    pub fn balance(&self) -> (r: &str)
        ensures
            r@ == self@.balance,
    {
        self.balance.as_str()
    }
}

} // verus!
