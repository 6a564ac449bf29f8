//! The input of a credit.

use vstd::prelude::*;

use crate::domain::model::error::ClientError;
use crate::domain::model::value::amount::{AmountView, MonetaryAmount};
use crate::domain::model::value::client_id::ClientId;

verus! {

/// The fields that the domain needs to credit a balance. The amount is
/// always above zero.
#[derive(Clone, Copy, Debug, PartialEq, Eq, Hash, Structural)]
pub struct CreditTransactionRequest {
    client_id: ClientId,
    amount: MonetaryAmount,
}

/// The mathematical content of a transaction request.
pub struct TransactionView {
    pub client_id: usize,
    pub amount: AmountView,
}

impl View for CreditTransactionRequest {
    type V = TransactionView;

    closed spec fn view(&self) -> TransactionView {
        TransactionView { client_id: self.client_id@, amount: self.amount@ }
    }
}

impl CreditTransactionRequest {
    #[verifier::type_invariant]
    closed spec fn well_formed(self) -> bool {
        self.amount@.mantissa > 0
    }

    /// A credit of `amount` to the client: `ZeroAmount` for zero,
    /// `NegativeAmount` below zero.
    pub fn new(client_id: ClientId, amount: MonetaryAmount) -> (r: Result<Self, ClientError>)
        ensures
            match r {
                Ok(request) => amount@.mantissa > 0 && request@ == (TransactionView {
                    client_id: client_id@,
                    amount: amount@,
                }),
                Err(e) => if amount@.mantissa == 0 {
                    e@ == crate::domain::model::error::ClientErrorView::ZeroAmount
                } else {
                    amount@.mantissa < 0
                        && e@ == crate::domain::model::error::ClientErrorView::NegativeAmount
                },
            },
    {
        if amount.is_negative() {
            return Err(ClientError::NegativeAmount);
        }
        if amount.is_zero() {
            return Err(ClientError::ZeroAmount);
        }
        Ok(Self { client_id, amount })
    }

    /// The client to credit.
    pub fn client_id(&self) -> (r: &ClientId)
        ensures
            r@ == self@.client_id,
    {
        &self.client_id
    }

    /// The amount to add to the balance: above zero.
    pub fn amount(&self) -> (r: &MonetaryAmount)
        ensures
            r@ == self@.amount,
            self@.amount.mantissa > 0,
    {
        proof {
            use_type_invariant(self);
        }
        &self.amount
    }
}

} // verus!
