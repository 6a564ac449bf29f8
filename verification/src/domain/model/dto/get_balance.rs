//! The input of the lookups by id.

use vstd::prelude::*;

use crate::domain::model::value::client_id::ClientId;

verus! {

/// The fields that the domain needs to look a client up.
#[derive(Clone, Copy, Debug, PartialEq, Eq, PartialOrd, Ord, Hash, Structural)]
pub struct GetClientRequest {
    client_id: ClientId,
}

impl View for GetClientRequest {
    type V = usize;

    closed spec fn view(&self) -> usize {
        self.client_id@
    }
}

impl GetClientRequest {
    /// The request to look up the client `client_id`.
    pub fn new(client_id: ClientId) -> (r: Self)
        ensures
            r@ == client_id@,
    {
        Self { client_id }
    }

    /// The client to look up.
    pub fn client_id(&self) -> (r: &ClientId)
        ensures
            r@ == self@,
    {
        &self.client_id
    }
}

} // verus!
