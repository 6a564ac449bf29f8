//! The input of a debit.

use vstd::prelude::*;

use crate::domain::model::dto::credit_transaction::TransactionView;
use crate::domain::model::error::ClientError;
use crate::domain::model::value::amount::MonetaryAmount;
use crate::domain::model::value::client_id::ClientId;

verus! {

/// The fields that the domain needs to debit a balance. The amount is
/// always below zero: the delta to apply.
#[derive(Clone, Copy, Debug, PartialEq, Eq, Hash, Structural)]
pub struct DebitTransactionRequest {
    client_id: ClientId,
    amount: MonetaryAmount,
}

impl View for DebitTransactionRequest {
    type V = TransactionView;

    closed spec fn view(&self) -> TransactionView {
        TransactionView { client_id: self.client_id@, amount: self.amount@ }
    }
}

impl DebitTransactionRequest {
    #[verifier::type_invariant]
    closed spec fn well_formed(self) -> bool {
        self.amount@.mantissa < 0
    }

    /// A debit of `amount`, a negative delta: `ZeroAmount` for zero,
    /// `PositiveAmount` above zero.
    pub fn new(client_id: ClientId, amount: MonetaryAmount) -> (r: Result<Self, ClientError>)
        ensures
            match r {
                Ok(request) => amount@.mantissa < 0 && request@ == (TransactionView {
                    client_id: client_id@,
                    amount: amount@,
                }),
                Err(e) => if amount@.mantissa == 0 {
                    e@ == crate::domain::model::error::ClientErrorView::ZeroAmount
                } else {
                    amount@.mantissa > 0
                        && e@ == crate::domain::model::error::ClientErrorView::PositiveAmount
                },
            },
    {
        if amount.is_positive() {
            return Err(ClientError::PositiveAmount);
        }
        if amount.is_zero() {
            return Err(ClientError::ZeroAmount);
        }
        Ok(Self { client_id, amount })
    }

    /// The client to debit.
    pub fn client_id(&self) -> (r: &ClientId)
        ensures
            r@ == self@.client_id,
    {
        &self.client_id
    }

    /// The amount to add to the balance: below zero.
    pub fn amount(&self) -> (r: &MonetaryAmount)
        ensures
            r@ == self@.amount,
            self@.amount.mantissa < 0,
    {
        proof {
            use_type_invariant(self);
        }
        &self.amount
    }
}

} // verus!
