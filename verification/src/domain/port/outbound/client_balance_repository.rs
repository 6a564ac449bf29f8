//! The port to the store of clients and balances.

use vstd::prelude::*;

use crate::domain::model::dto::create_client::CreateClientRequest;
use crate::domain::model::dto::credit_transaction::CreditTransactionRequest;
use crate::domain::model::dto::debit_transaction::DebitTransactionRequest;
use crate::domain::model::dto::get_balance::GetClientRequest;
use crate::domain::model::entity::balance::{Balance, BalanceView};
use crate::domain::model::entity::client::{Client, ClientView};
use crate::domain::model::error::{ClientError, ClientErrorView};
use crate::domain::model::value::amount::AmountView;
use crate::domain::model::value::client_id::ClientId;
use crate::domain::model::value::document::Document;
use crate::domain::port::outbound::ledger::Ledger;

verus! {

/// A call that may change the store, with what was asked and what the
/// store answered.
#[allow(inconsistent_fields)]
pub enum StoreCall {
    CreateClient {
        request: crate::domain::model::dto::create_client::CreateClientRequestView,
        answer: Result<ClientView, ClientErrorView>,
    },
    InitClientBalance { client_id: usize, answer: Result<BalanceView, ClientErrorView> },
    DeleteClient { client_id: usize, answer: Result<(), ClientErrorView> },
    CreditBalance {
        client_id: usize,
        amount: AmountView,
        answer: Result<BalanceView, ClientErrorView>,
    },
    DebitBalance {
        client_id: usize,
        amount: AmountView,
        answer: Result<BalanceView, ClientErrorView>,
    },
    ResetAllBalancesToZero { answer: Result<Seq<BalanceView>, ClientErrorView> },
    MergeOldBalances { old_balances: Seq<BalanceView>, answer: Result<(), ClientErrorView> },
}

/// The calls that may have changed a store so far, oldest first. The
/// questions that change nothing are not kept.
pub struct Journal {
    pub calls: Seq<StoreCall>,
}

/// An answer with a client, as the journal keeps it.
pub open spec fn client_answer(answer: Result<Client, ClientError>) -> Result<
    ClientView,
    ClientErrorView,
> {
    match answer {
        Ok(client) => Ok(client@),
        Err(e) => Err(e@),
    }
}

/// An answer with a balance, as the journal keeps it.
pub open spec fn balance_answer(answer: Result<Balance, ClientError>) -> Result<
    BalanceView,
    ClientErrorView,
> {
    match answer {
        Ok(balance) => Ok(balance@),
        Err(e) => Err(e@),
    }
}

/// An answer with nothing, as the journal keeps it.
pub open spec fn plain_answer(answer: Result<(), ClientError>) -> Result<(), ClientErrorView> {
    match answer {
        Ok(()) => Ok(()),
        Err(e) => Err(e@),
    }
}

/// An answer with a snapshot, as the journal keeps it.
pub open spec fn snapshot_answer(answer: Result<Vec<Balance>, ClientError>) -> Result<
    Seq<BalanceView>,
    ClientErrorView,
> {
    match answer {
        Ok(snapshot) => Ok(crate::domain::port::outbound::ledger::balance_views(snapshot@)),
        Err(e) => Err(e@),
    }
}

/// The error is `Unknown`, and a dependable store has a reason for it.
pub open spec fn is_outage(error: ClientErrorView, dependable: bool, reason: bool) -> bool {
    error is Unknown && (!dependable || reason)
}

/// The outcome of persisting a client: the client under the next id with
/// the profile of the request, or `Duplicate` when the document is taken.
pub open spec fn client_created(
    before: Ledger,
    request: crate::domain::model::dto::create_client::CreateClientRequestView,
    outcome: Result<Client, ClientError>,
    after: Ledger,
    dependable: bool,
) -> bool {
    match outcome {
        Ok(client) => {
            &&& !before.has_document(request.document)
            &&& before.next_id == Some(client@.id)
            &&& client@ == (ClientView {
                id: client@.id,
                name: request.name,
                birth_date: request.birth_date,
                document: request.document,
                country: request.country,
            })
            &&& after.clients == before.clients.insert(client@.id, client@)
            &&& after.balances == before.balances
        },
        Err(e) => {
            &&& after == before
            &&& if e@ is Duplicate {
                before.has_document(request.document) && e@ == (ClientErrorView::Duplicate {
                    document: request.document,
                })
            } else {
                is_outage(
                    e@,
                    dependable,
                    !before.has_document(request.document) && before.next_id is None,
                )
            }
        },
    }
}

/// The outcome of opening the balance of a client: a balance of zero, or
/// `NotFoundById` when there is no such client.
pub open spec fn balance_opened(
    before: Ledger,
    id: usize,
    outcome: Result<Balance, ClientError>,
    after: Ledger,
    dependable: bool,
) -> bool {
    match outcome {
        Ok(balance) => {
            &&& before.clients.contains_key(id)
            &&& balance@ == (BalanceView { client_id: id, amount: AmountView::zero() })
            &&& after == before.with_balances(before.balances.insert(id, AmountView::zero()))
        },
        Err(e) => {
            &&& after == before
            &&& if e@ is NotFoundById {
                !before.clients.contains_key(id) && e@ == (ClientErrorView::NotFoundById {
                    id_document: id,
                })
            } else {
                is_outage(e@, dependable, false)
            }
        },
    }
}

/// The outcome of deleting a client: it is gone, whether it was there or
/// not.
pub open spec fn client_deleted(
    before: Ledger,
    id: usize,
    outcome: Result<(), ClientError>,
    after: Ledger,
    dependable: bool,
) -> bool {
    match outcome {
        Ok(()) => after == (Ledger {
            clients: before.clients.remove(id),
            balances: before.balances,
            next_id: before.next_id,
        }),
        Err(e) => after == before && is_outage(e@, dependable, false),
    }
}

/// The outcome of asking whether a client exists.
pub open spec fn existence_checked(
    ledger: Ledger,
    id: usize,
    outcome: Result<bool, ClientError>,
    dependable: bool,
) -> bool {
    match outcome {
        Ok(exists) => exists == ledger.clients.contains_key(id),
        Err(e) => is_outage(e@, dependable, false),
    }
}

/// The outcome of looking a client up by document: the client with that
/// document, or `NotFoundByDocument`.
pub open spec fn found_by_document(
    ledger: Ledger,
    document: Seq<char>,
    outcome: Result<Client, ClientError>,
    dependable: bool,
) -> bool {
    match outcome {
        Ok(client) => ledger.clients.contains_key(client@.id) && ledger.clients[client@.id]
            == client@ && client@.document == document,
        Err(e) => if e@ is NotFoundByDocument {
            !ledger.has_document(document) && e@ == (ClientErrorView::NotFoundByDocument {
                document,
            })
        } else {
            is_outage(e@, dependable, false)
        },
    }
}

/// The outcome of adding an amount to the balance of a client: the new
/// balance, `NotFoundById` when the client has none, and a failure when
/// the sum cannot be represented.
pub open spec fn balance_moved(
    before: Ledger,
    id: usize,
    amount: AmountView,
    outcome: Result<Balance, ClientError>,
    after: Ledger,
    dependable: bool,
) -> bool {
    match outcome {
        Ok(balance) => {
            &&& before.balances.contains_key(id)
            &&& before.balances[id].plus(amount) == Some(balance@.amount)
            &&& balance@.client_id == id
            &&& after == before.with_balances(before.balances.insert(id, balance@.amount))
        },
        Err(e) => {
            &&& after == before
            &&& if e@ is NotFoundById {
                !before.balances.contains_key(id) && e@ == (ClientErrorView::NotFoundById {
                    id_document: id,
                })
            } else {
                is_outage(
                    e@,
                    dependable,
                    before.balances.contains_key(id) && before.balances[id].plus(amount) is None,
                )
            }
        },
    }
}

/// The outcome of reading the balance of a client.
pub open spec fn balance_read(
    ledger: Ledger,
    id: usize,
    outcome: Result<Balance, ClientError>,
    dependable: bool,
) -> bool {
    match outcome {
        Ok(balance) => ledger.balances.contains_key(id) && balance@ == (BalanceView {
            client_id: id,
            amount: ledger.balances[id],
        }),
        Err(e) => if e@ is NotFoundById {
            !ledger.balances.contains_key(id) && e@ == (ClientErrorView::NotFoundById {
                id_document: id,
            })
        } else {
            is_outage(e@, dependable, false)
        },
    }
}

/// The outcome of reading a client.
pub open spec fn client_read(
    ledger: Ledger,
    id: usize,
    outcome: Result<Client, ClientError>,
    dependable: bool,
) -> bool {
    match outcome {
        Ok(client) => ledger.clients.contains_key(id) && client@ == ledger.clients[id],
        Err(e) => if e@ is NotFoundById {
            !ledger.clients.contains_key(id) && e@ == (ClientErrorView::NotFoundById {
                id_document: id,
            })
        } else {
            is_outage(e@, dependable, false)
        },
    }
}

/// The outcome of asking whether there are no balances.
pub open spec fn emptiness_checked(
    ledger: Ledger,
    outcome: Result<bool, ClientError>,
    dependable: bool,
) -> bool {
    match outcome {
        Ok(empty) => empty == ledger.no_balances(),
        Err(e) => is_outage(e@, dependable, false),
    }
}

/// The outcome of the reset: every balance at zero, and the snapshot of
/// what they were, all in one step.
pub open spec fn balances_reset(
    before: Ledger,
    outcome: Result<Vec<Balance>, ClientError>,
    after: Ledger,
    dependable: bool,
) -> bool {
    match outcome {
        Ok(snapshot) => {
            &&& crate::domain::port::outbound::ledger::is_snapshot_of(
                crate::domain::port::outbound::ledger::balance_views(snapshot@),
                before.balances,
            )
            &&& after == before.with_balances(
                crate::domain::port::outbound::ledger::zeroed(before.balances),
            )
        },
        Err(e) => after == before && is_outage(e@, dependable, false),
    }
}

/// The outcome of the merge: every old balance added to the current one
/// of its client, or nothing changed at all.
pub open spec fn balances_merged(
    before: Ledger,
    old_balances: Seq<BalanceView>,
    outcome: Result<(), ClientError>,
    after: Ledger,
    dependable: bool,
) -> bool {
    let sums = crate::domain::port::outbound::ledger::merged(before.balances, old_balances);
    match outcome {
        Ok(()) => sums == Some(after.balances) && after == before.with_balances(after.balances),
        Err(e) => after == before && is_outage(e@, dependable, sums is None),
    }
}

/// A store of all clients and their balances.
///
/// Every operation either succeeds as its outcome describes or fails and
/// changes nothing. A store may fail with `Unknown` for reasons of its own;
/// a dependable one does not. Each call that may change the store is one
/// more entry of its journal, with its answer.
pub trait ClientBalanceRepository {
    /// The calls that may have changed the store so far.
    spec fn journal(&self) -> Journal;

    /// The state of the store.
    spec fn ledger(&self) -> Ledger;

    /// Whether the store never fails for reasons of its own.
    spec fn dependable(&self) -> bool;

    /// What the implementation keeps true of itself.
    spec fn well_formed(&self) -> bool;

    /// Persists a new client under the next id.
    fn create_client(&mut self, req: &CreateClientRequest) -> (r: Result<Client, ClientError>)
        requires
            old(self).well_formed(),
            old(self).ledger().well_formed(),
        ensures
            final(self).well_formed(),
            final(self).ledger().well_formed(),
            final(self).dependable() == old(self).dependable(),
            client_created(
                old(self).ledger(),
                req@,
                r,
                final(self).ledger(),
                old(self).dependable(),
            ),
            final(self).journal().calls == old(self).journal().calls.push(
                StoreCall::CreateClient { request: req@, answer: client_answer(r) },
            ),
    ;

    /// Opens the balance of a client, at zero.
    fn init_client_balance(&mut self, client_id: &ClientId) -> (r: Result<Balance, ClientError>)
        requires
            old(self).well_formed(),
            old(self).ledger().well_formed(),
        ensures
            final(self).well_formed(),
            final(self).ledger().well_formed(),
            final(self).dependable() == old(self).dependable(),
            balance_opened(
                old(self).ledger(),
                client_id@,
                r,
                final(self).ledger(),
                old(self).dependable(),
            ),
            final(self).journal().calls == old(self).journal().calls.push(
                StoreCall::InitClientBalance { client_id: client_id@, answer: balance_answer(r) },
            ),
    ;

    /// Deletes a client.
    fn delete_client(&mut self, client_id: &ClientId) -> (r: Result<(), ClientError>)
        requires
            old(self).well_formed(),
            old(self).ledger().well_formed(),
        ensures
            final(self).well_formed(),
            final(self).ledger().well_formed(),
            final(self).dependable() == old(self).dependable(),
            client_deleted(
                old(self).ledger(),
                client_id@,
                r,
                final(self).ledger(),
                old(self).dependable(),
            ),
            final(self).journal().calls == old(self).journal().calls.push(
                StoreCall::DeleteClient { client_id: client_id@, answer: plain_answer(r) },
            ),
    ;

    /// Whether a client with this id exists.
    fn client_id_exists(&self, client_id: &ClientId) -> (r: Result<bool, ClientError>)
        requires
            self.well_formed(),
            self.ledger().well_formed(),
        ensures
            existence_checked(self.ledger(), client_id@, r, self.dependable()),
    ;

    /// The client with this document.
    fn get_client_by_document(&self, document: &Document) -> (r: Result<Client, ClientError>)
        requires
            self.well_formed(),
            self.ledger().well_formed(),
        ensures
            found_by_document(self.ledger(), document@, r, self.dependable()),
    ;

    /// Adds the amount of the request, which is above zero, to the balance.
    fn credit_balance(&mut self, req: &CreditTransactionRequest) -> (r: Result<
        Balance,
        ClientError,
    >)
        requires
            old(self).well_formed(),
            old(self).ledger().well_formed(),
        ensures
            final(self).well_formed(),
            final(self).ledger().well_formed(),
            final(self).dependable() == old(self).dependable(),
            balance_moved(
                old(self).ledger(),
                req@.client_id,
                req@.amount,
                r,
                final(self).ledger(),
                old(self).dependable(),
            ),
            final(self).journal().calls == old(self).journal().calls.push(
                StoreCall::CreditBalance {
                    client_id: req@.client_id,
                    amount: req@.amount,
                    answer: balance_answer(r),
                },
            ),
    ;

    /// Adds the amount of the request, which is below zero, to the balance.
    fn debit_balance(&mut self, req: &DebitTransactionRequest) -> (r: Result<Balance, ClientError>)
        requires
            old(self).well_formed(),
            old(self).ledger().well_formed(),
        ensures
            final(self).well_formed(),
            final(self).ledger().well_formed(),
            final(self).dependable() == old(self).dependable(),
            balance_moved(
                old(self).ledger(),
                req@.client_id,
                req@.amount,
                r,
                final(self).ledger(),
                old(self).dependable(),
            ),
            final(self).journal().calls == old(self).journal().calls.push(
                StoreCall::DebitBalance {
                    client_id: req@.client_id,
                    amount: req@.amount,
                    answer: balance_answer(r),
                },
            ),
    ;

    /// The balance of a client.
    fn get_balance_by_client_id(&self, req: &GetClientRequest) -> (r: Result<Balance, ClientError>)
        requires
            self.well_formed(),
            self.ledger().well_formed(),
        ensures
            balance_read(self.ledger(), req@, r, self.dependable()),
    ;

    /// The client with this id.
    fn get_client(&self, req: &GetClientRequest) -> (r: Result<Client, ClientError>)
        requires
            self.well_formed(),
            self.ledger().well_formed(),
        ensures
            client_read(self.ledger(), req@, r, self.dependable()),
    ;

    /// Whether there is no balance at all.
    fn are_balances_empty(&self) -> (r: Result<bool, ClientError>)
        requires
            self.well_formed(),
            self.ledger().well_formed(),
        ensures
            emptiness_checked(self.ledger(), r, self.dependable()),
    ;

    /// Sets every balance to zero and returns what they were, in one step.
    fn reset_all_balances_to_zero(&mut self) -> (r: Result<Vec<Balance>, ClientError>)
        requires
            old(self).well_formed(),
            old(self).ledger().well_formed(),
        ensures
            final(self).well_formed(),
            final(self).ledger().well_formed(),
            final(self).dependable() == old(self).dependable(),
            balances_reset(old(self).ledger(), r, final(self).ledger(), old(self).dependable()),
            final(self).journal().calls == old(self).journal().calls.push(
                StoreCall::ResetAllBalancesToZero { answer: snapshot_answer(r) },
            ),
    ;

    /// Adds old balances to the current ones, passing over the clients
    /// that have no balance any more.
    fn merge_old_balances(&mut self, old_balances: Vec<Balance>) -> (r: Result<(), ClientError>)
        requires
            old(self).well_formed(),
            old(self).ledger().well_formed(),
        ensures
            final(self).well_formed(),
            final(self).ledger().well_formed(),
            final(self).dependable() == old(self).dependable(),
            balances_merged(
                old(self).ledger(),
                crate::domain::port::outbound::ledger::balance_views(old_balances@),
                r,
                final(self).ledger(),
                old(self).dependable(),
            ),
            final(self).journal().calls == old(self).journal().calls.push(
                StoreCall::MergeOldBalances {
                    old_balances: crate::domain::port::outbound::ledger::balance_views(
                        old_balances@,
                    ),
                    answer: plain_answer(r),
                },
            ),
    ;
}

} // verus!
