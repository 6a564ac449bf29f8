//! The ledger entry of a client.

use vstd::prelude::*;

use crate::domain::model::value::amount::{AmountView, MonetaryAmount};
use crate::domain::model::value::client_id::ClientId;

verus! {

/// The balance of one client.
#[derive(Clone, Copy, Debug, PartialEq, Eq, Hash, Structural)]
pub struct Balance {
    id: ClientId,
    balance: MonetaryAmount,
}

/// The mathematical content of a [`Balance`].
pub struct BalanceView {
    pub client_id: usize,
    pub amount: AmountView,
}

impl View for Balance {
    type V = BalanceView;

    closed spec fn view(&self) -> BalanceView {
        BalanceView { client_id: self.id@, amount: self.balance@ }
    }
}

impl Balance {
    /// The balance of the client `id`, standing at `balance`.
    pub fn new(id: ClientId, balance: MonetaryAmount) -> (r: Self)
        ensures
            r@ == (BalanceView { client_id: id@, amount: balance@ }),
    {
        Self { id, balance }
    }

    /// The client that the balance belongs to.
    pub fn client_id(&self) -> (r: &ClientId)
        ensures
            r@ == self@.client_id,
    {
        &self.id
    }

    /// The amount at which the balance stands.
    pub fn balance(&self) -> (r: &MonetaryAmount)
        ensures
            r@ == self@.amount,
    {
        &self.balance
    }

    /// Sets the amount and returns the one it replaces. The client stays.
    pub fn set_balance(&mut self, balance: MonetaryAmount) -> (r: MonetaryAmount)
        ensures
            r@ == old(self)@.amount,
            final(self)@ == (BalanceView { client_id: old(self)@.client_id, amount: balance@ }),
    {
        let old_balance = self.balance;
        self.balance = balance;
        old_balance
    }
}

} // verus!
