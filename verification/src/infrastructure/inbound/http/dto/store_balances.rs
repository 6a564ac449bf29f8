//! The answer to a close-out.

use vstd::prelude::*;

verus! {

/// The body that answers a close-out.
#[derive(Debug)]
pub struct StoreBalancesHttpResponseBody {
    message: String,
}

impl View for StoreBalancesHttpResponseBody {
    type V = Seq<char>;

    closed spec fn view(&self) -> Seq<char> {
        self.message@
    }
}

impl StoreBalancesHttpResponseBody {
    /// The body with this message.
    pub fn new(message: &str) -> (r: Self)
        ensures
            r@ == message@,
    {
        Self { message: message.to_string() }
    }

    /// The body that reports success.
    pub fn success_store() -> (r: Self)
        ensures
            r@ == "Successfully stored balances"@,
    {
        Self::new("Successfully stored balances")
    }

    /// The message of the body.
    pub fn message(&self) -> (r: &str)
        ensures
            r@ == self@,
    {
        self.message.as_str()
    }
}

} // verus!
