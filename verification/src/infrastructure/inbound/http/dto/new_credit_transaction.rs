//! The credit of a balance.

use vstd::prelude::*;

use crate::domain::model::dto::credit_transaction::{CreditTransactionRequest, TransactionView};
use crate::domain::model::entity::balance::{Balance, BalanceView};
use crate::domain::model::error::ClientErrorView;
use crate::domain::model::value::amount::{AmountView, MonetaryAmount};
use crate::domain::model::value::client_id::ClientId;
use crate::infrastructure::inbound::http::error::{ApiError, ApiErrorView};

verus! {

/// The body of a credit: the id of the client as text, and the amount.
#[derive(Debug)]
pub struct NewCreditTransactionHttpRequestBody {
    client_id: String,
    amount: MonetaryAmount,
}

/// The mathematical content of the body of a transaction.
pub struct TransactionBodyView {
    pub client_id: Seq<char>,
    pub amount: AmountView,
}

impl View for NewCreditTransactionHttpRequestBody {
    type V = TransactionBodyView;

    closed spec fn view(&self) -> TransactionBodyView {
        TransactionBodyView { client_id: self.client_id@, amount: self.amount@ }
    }
}

/// What the body asks of the domain: the id is checked first, then the
/// amount, which has to be above zero.
pub open spec fn credit_of(body: TransactionBodyView) -> Result<TransactionView, ApiErrorView> {
    match crate::domain::model::value::client_id::checked_client_id(body.client_id) {
        Err(e) => Err(crate::infrastructure::inbound::http::error::api_error_of(e)),
        Ok(id) => if body.amount.mantissa < 0 {
            Err(
                crate::infrastructure::inbound::http::error::api_error_of(
                    ClientErrorView::NegativeAmount,
                ),
            )
        } else if body.amount.mantissa == 0 {
            Err(
                crate::infrastructure::inbound::http::error::api_error_of(
                    ClientErrorView::ZeroAmount,
                ),
            )
        } else {
            Ok(TransactionView { client_id: id, amount: body.amount })
        },
    }
}

impl NewCreditTransactionHttpRequestBody {
    /// The body with this id and amount.
    pub fn new(client_id: String, amount: MonetaryAmount) -> (r: Self)
        ensures
            r@ == (TransactionBodyView { client_id: client_id@, amount: amount@ }),
    {
        Self { client_id, amount }
    }

    /// Converts the body into a request of the domain.
    pub fn try_into_domain(self) -> (r: Result<CreditTransactionRequest, ApiError>)
        ensures
            match r {
                Ok(request) => credit_of(self@) == Ok::<TransactionView, ApiErrorView>(request@),
                Err(e) => credit_of(self@) == Err::<TransactionView, ApiErrorView>(e@),
            },
    {
        let client_id = match ClientId::try_from(self.client_id) {
            Ok(client_id) => client_id,
            Err(e) => {
                return Err(ApiError::from(e));
            },
        };
        match CreditTransactionRequest::new(client_id, self.amount) {
            Ok(request) => Ok(request),
            Err(e) => Err(ApiError::from(e)),
        }
    }
}

/// The body that answers a transaction: the id and the new balance, as text.
#[derive(Debug)]
pub struct NewCreditTransactionHttpResponseBody {
    id: String,
    balance: String,
}

/// The mathematical content of the answer to a transaction.
pub struct BalanceBodyView {
    pub id: Seq<char>,
    pub balance: Seq<char>,
}

/// The answer for a balance.
pub open spec fn balance_body(balance: BalanceView) -> BalanceBodyView {
    BalanceBodyView {
        id: crate::domain::model::value::text::decimal_text(balance.client_id as nat),
        balance: crate::domain::model::value::amount::decimal_notation(
            balance.amount.mantissa as i128,
            balance.amount.scale as u32,
        ),
    }
}

impl View for NewCreditTransactionHttpResponseBody {
    type V = BalanceBodyView;

    closed spec fn view(&self) -> BalanceBodyView {
        BalanceBodyView { id: self.id@, balance: self.balance@ }
    }
}

impl NewCreditTransactionHttpResponseBody {
    /// The answer for the new balance.
    pub fn from(client_balance: Balance) -> (r: Self)
        ensures
            r@ == balance_body(client_balance@),
    {
        Self {
            id: client_balance.client_id().to_string(),
            balance: client_balance.balance().to_string(),
        }
    }

    /// The id of the client.
    pub fn id(&self) -> (r: &str)
        ensures
            r@ == self@.id,
    {
        self.id.as_str()
    }

    /// The new balance.
    pub fn balance(&self) -> (r: &str)
        ensures
            r@ == self@.balance,
    {
        self.balance.as_str()
    }
}

} // verus!
