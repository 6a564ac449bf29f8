//! The input of client creation.

use vstd::prelude::*;

use crate::domain::model::value::birth_date::{BirthDate, DateView};
use crate::domain::model::value::client_name::ClientName;
use crate::domain::model::value::country::Country;
use crate::domain::model::value::document::Document;

verus! {

/// The fields that the domain needs to create a client.
#[derive(Debug, PartialEq, Eq, PartialOrd, Ord, Hash)]
pub struct CreateClientRequest {
    name: ClientName,
    birth_date: BirthDate,
    document: Document,
    country: Country,
}

/// The mathematical content of a [`CreateClientRequest`].
pub struct CreateClientRequestView {
    pub name: Seq<char>,
    pub birth_date: DateView,
    pub document: Seq<char>,
    pub country: Seq<char>,
}

impl View for CreateClientRequest {
    type V = CreateClientRequestView;

    closed spec fn view(&self) -> CreateClientRequestView {
        CreateClientRequestView {
            name: self.name@,
            birth_date: self.birth_date@,
            document: self.document@,
            country: self.country@,
        }
    }
}

impl Clone for CreateClientRequest {
    fn clone(&self) -> (r: Self)
        ensures
            r@ == self@,
    {
        CreateClientRequest {
            name: self.name.clone(),
            birth_date: self.birth_date,
            document: self.document.clone(),
            country: self.country.clone(),
        }
    }
}

impl CreateClientRequest {
    /// The request to create a client with this profile.
    pub fn new(
        name: ClientName,
        birth_date: BirthDate,
        document: Document,
        country: Country,
    ) -> (r: Self)
        ensures
            r@ == (CreateClientRequestView {
                name: name@,
                birth_date: birth_date@,
                document: document@,
                country: country@,
            }),
    {
        Self { name, birth_date, document, country }
    }

    /// The name of the client to be.
    pub fn name(&self) -> (r: &ClientName)
        ensures
            r@ == self@.name,
    {
        &self.name
    }

    /// The birth date of the client to be.
    pub fn birth_date(&self) -> (r: &BirthDate)
        ensures
            r@ == self@.birth_date,
    {
        &self.birth_date
    }

    /// The document of the client to be.
    pub fn document(&self) -> (r: &Document)
        ensures
            r@ == self@.document,
    {
        &self.document
    }

    /// The country of the client to be.
    pub fn country(&self) -> (r: &Country)
        ensures
            r@ == self@.country,
    {
        &self.country
    }
}

} // verus!
