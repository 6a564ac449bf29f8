//! The profile of a client.

use vstd::prelude::*;

use crate::domain::model::value::birth_date::{BirthDate, DateView};
use crate::domain::model::value::client_id::ClientId;
use crate::domain::model::value::client_name::ClientName;
use crate::domain::model::value::country::Country;
use crate::domain::model::value::document::Document;

verus! {

/// A client: created once, never changed.
#[derive(Debug, PartialEq, Eq, PartialOrd, Ord, Hash)]
pub struct Client {
    id: ClientId,
    name: ClientName,
    birth_date: BirthDate,
    document: Document,
    country: Country,
}

/// The mathematical content of a [`Client`].
pub struct ClientView {
    pub id: usize,
    pub name: Seq<char>,
    pub birth_date: DateView,
    pub document: Seq<char>,
    pub country: Seq<char>,
}

impl View for Client {
    type V = ClientView;

    closed spec fn view(&self) -> ClientView {
        ClientView {
            id: self.id@,
            name: self.name@,
            birth_date: self.birth_date@,
            document: self.document@,
            country: self.country@,
        }
    }
}

impl Clone for Client {
    fn clone(&self) -> (r: Self)
        ensures
            r@ == self@,
    {
        Client {
            id: self.id,
            name: self.name.clone(),
            birth_date: self.birth_date,
            document: self.document.clone(),
            country: self.country.clone(),
        }
    }
}

impl Client {
    /// The client with the given identity and profile.
    pub fn new(
        id: ClientId,
        name: ClientName,
        birth_date: BirthDate,
        document: Document,
        country: Country,
    ) -> (r: Self)
        ensures
            r@ == (ClientView {
                id: id@,
                name: name@,
                birth_date: birth_date@,
                document: document@,
                country: country@,
            }),
    {
        Self { id, name, birth_date, document, country }
    }

    /// The identity of the client.
    pub fn id(&self) -> (r: &ClientId)
        ensures
            r@ == self@.id,
    {
        &self.id
    }

    /// The name of the client.
    pub fn name(&self) -> (r: &ClientName)
        ensures
            r@ == self@.name,
    {
        &self.name
    }

    /// The birth date of the client.
    pub fn birth_date(&self) -> (r: &BirthDate)
        ensures
            r@ == self@.birth_date,
    {
        &self.birth_date
    }

    /// The document of the client.
    pub fn document(&self) -> (r: &Document)
        ensures
            r@ == self@.document,
    {
        &self.document
    }

    /// The country of the client.
    pub fn country(&self) -> (r: &Country)
        ensures
            r@ == self@.country,
    {
        &self.country
    }
}

} // verus!
