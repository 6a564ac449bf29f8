//! The use cases of the client balance domain, and what each one owes.

use vstd::prelude::*;

use crate::domain::model::dto::create_client::{CreateClientRequest, CreateClientRequestView};
use crate::domain::model::dto::credit_transaction::CreditTransactionRequest;
use crate::domain::model::dto::debit_transaction::DebitTransactionRequest;
use crate::domain::model::dto::get_balance::GetClientRequest;
use crate::domain::model::entity::balance::{Balance, BalanceView};
use crate::domain::model::entity::client::{Client, ClientView};
use crate::domain::model::error::{ClientError, ClientErrorView};
use crate::domain::model::value::amount::AmountView;
use crate::domain::port::outbound::balance_exporter::{ExportLog, ExportRecord};
use crate::domain::port::outbound::client_balance_repository::{Journal, StoreCall};
use crate::domain::port::outbound::ledger::Ledger;

verus! {

/// The client that a request asks for, under the given id.
pub open spec fn profile_of(request: CreateClientRequestView, id: usize) -> ClientView {
    ClientView {
        id,
        name: request.name,
        birth_date: request.birth_date,
        document: request.document,
        country: request.country,
    }
}

/// What creating a client owes.
///
/// With a new document, a free id and a dependable store the client is
/// created: it has the fields of the request and a balance of zero. With a
/// document that is taken the outcome is `Duplicate` and nothing changes.
/// A store that is not dependable may fail at any step: the outcome is then
/// `Unknown`, or the client is withdrawn again when only its balance could
/// not be opened.
pub open spec fn client_registered(
    before: Ledger,
    request: CreateClientRequestView,
    outcome: Result<Client, ClientError>,
    after: Ledger,
    dependable: bool,
) -> bool {
    &&& dependable && !before.has_document(request.document) && before.next_id is Some
        ==> outcome is Ok
    &&& dependable && before.has_document(request.document) ==> outcome is Err
        && outcome->Err_0@ is Duplicate
    &&& match outcome {
        Ok(client) => {
            &&& !before.has_document(request.document)
            &&& before.next_id == Some(client@.id)
            &&& client@ == profile_of(request, client@.id)
            &&& {
                ||| {
                    &&& after.clients == before.clients.insert(client@.id, client@)
                    &&& after.balances == before.balances.insert(client@.id, AmountView::zero())
                }
                ||| !dependable && after.same_records(before)
            }
        },
        Err(e) => if e@ is Duplicate {
            &&& before.has_document(request.document)
            &&& e@ == (ClientErrorView::Duplicate { document: request.document })
            &&& after == before
        } else {
            &&& e@ is Unknown
            &&& !dependable || (!before.has_document(request.document) && before.next_id is None)
            &&& after.balances == before.balances
            &&& {
                ||| after.clients == before.clients
                ||| {
                    &&& !dependable
                    &&& before.next_id matches Some(id)
                    &&& after.clients == before.clients.insert(id, profile_of(request, id))
                }
            }
        },
    }
}

/// What a credit or a debit owes.
///
/// For a client with a balance the new balance is the old one plus the
/// amount of the request, and it is what the use case returns. For an id
/// without client or balance the outcome is `NotFoundById`. Where the sum
/// cannot be represented, or the store fails, the outcome is `Unknown`.
/// Nothing changes unless the use case succeeds.
pub open spec fn balance_updated(
    before: Ledger,
    id: usize,
    amount: AmountView,
    outcome: Result<Balance, ClientError>,
    after: Ledger,
    dependable: bool,
) -> bool {
    let known = before.clients.contains_key(id) && before.balances.contains_key(id);
    &&& dependable && known && before.balances[id].plus(amount) is Some ==> outcome is Ok
    &&& match outcome {
        Ok(balance) => {
            &&& known
            &&& before.balances[id].plus(amount) == Some(balance@.amount)
            &&& balance@.client_id == id
            &&& after == before.with_balances(before.balances.insert(id, balance@.amount))
        },
        Err(e) => {
            &&& after == before
            &&& if e@ is NotFoundById {
                !known && e@ == (ClientErrorView::NotFoundById { id_document: id })
            } else {
                e@ is Unknown && (!dependable || (known && before.balances[id].plus(amount)
                    is None))
            }
        },
    }
}

/// What reading a balance owes: the balance of the client, `NotFoundById`
/// for an id without client or balance, and nothing else from a dependable
/// store.
pub open spec fn balance_found(
    ledger: Ledger,
    id: usize,
    outcome: Result<Balance, ClientError>,
    dependable: bool,
) -> bool {
    let known = ledger.clients.contains_key(id) && ledger.balances.contains_key(id);
    &&& dependable && known ==> outcome is Ok
    &&& match outcome {
        Ok(balance) => known && balance@ == (BalanceView {
            client_id: id,
            amount: ledger.balances[id],
        }),
        Err(e) => if e@ is NotFoundById {
            !known && e@ == (ClientErrorView::NotFoundById { id_document: id })
        } else {
            e@ is Unknown && !dependable
        },
    }
}

/// What reading a client owes: the client, `NotFoundById` for an unknown
/// id, and nothing else from a dependable store.
pub open spec fn client_found(
    ledger: Ledger,
    id: usize,
    outcome: Result<Client, ClientError>,
    dependable: bool,
) -> bool {
    &&& dependable && ledger.clients.contains_key(id) ==> outcome is Ok
    &&& match outcome {
        Ok(client) => ledger.clients.contains_key(id) && client@ == ledger.clients[id],
        Err(e) => if e@ is NotFoundById {
            !ledger.clients.contains_key(id) && e@ == (ClientErrorView::NotFoundById {
                id_document: id,
            })
        } else {
            e@ is Unknown && !dependable
        },
    }
}

/// The cause of an `Unknown` that reports the failure of a step of the
/// close-out: what was being done, then what went wrong.
pub open spec fn failure_cause(context: Seq<char>, error: ClientErrorView) -> Seq<char> {
    context + ": "@ + error.message()
}

/// The error that reports a failed export.
pub open spec fn export_failure(error: ClientErrorView) -> ClientErrorView {
    ClientErrorView::Unknown { cause: failure_cause("Error exporting balances"@, error) }
}

/// The journal `after` is the journal `before` and `count` calls more.
pub open spec fn grown_by(before: Seq<StoreCall>, after: Seq<StoreCall>, count: int) -> bool {
    after.len() == before.len() + count && after.subrange(0, before.len() as int) == before
}

/// A journal with one call more has grown by one.
pub proof fn lemma_one_more(before: Seq<StoreCall>, first: StoreCall)
    ensures
        grown_by(before, before.push(first), 1),
        before.push(first) != before,
        before.push(first)[before.len() as int] == first,
{
    let after = before.push(first);
    assert(after.subrange(0, before.len() as int) =~= before);
    assert(after.len() != before.len());
}

/// A journal with two calls more has grown by two, and not by one.
pub proof fn lemma_two_more(before: Seq<StoreCall>, first: StoreCall, second: StoreCall)
    ensures
        grown_by(before, before.push(first).push(second), 2),
        !grown_by(before, before.push(first).push(second), 1),
        before.push(first).push(second) != before,
        before.push(first).push(second)[before.len() as int] == first,
        before.push(first).push(second)[before.len() as int + 1] == second,
{
    let after = before.push(first).push(second);
    assert(after.subrange(0, before.len() as int) =~= before);
    assert(after.len() != before.len());
}

/// A journal with three calls more has grown by three, and by no less.
pub proof fn lemma_three_more(
    before: Seq<StoreCall>,
    first: StoreCall,
    second: StoreCall,
    third: StoreCall,
)
    ensures
        grown_by(before, before.push(first).push(second).push(third), 3),
        !grown_by(before, before.push(first).push(second).push(third), 2),
        !grown_by(before, before.push(first).push(second).push(third), 1),
        before.push(first).push(second).push(third) != before,
        before.push(first).push(second).push(third)[before.len() as int] == first,
        before.push(first).push(second).push(third)[before.len() as int + 1] == second,
        before.push(first).push(second).push(third)[before.len() as int + 2] == third,
{
    let after = before.push(first).push(second).push(third);
    assert(after.subrange(0, before.len() as int) =~= before);
    assert(after.len() != before.len());
}

/// What creating a client asks of the store, step by step, and how the
/// answers decide.
///
/// Without a call to the store the lookup by document has decided: the
/// outcome is an error and nothing has changed. Otherwise the store is
/// asked to create the client. When it refuses, its answer is the outcome.
/// When it has created the client, it is asked to open the balance; when
/// that succeeds, the client is the outcome. When the balance could not be
/// opened, the store is asked once to delete the client: after a
/// successful deletion the client is still the outcome, though neither it
/// nor a balance is stored; a failed deletion is the outcome, and the
/// client is left without a balance.
pub open spec fn creation_traced(
    before: Ledger,
    request: CreateClientRequestView,
    outcome: Result<Client, ClientError>,
    after: Ledger,
    journal_before: Seq<StoreCall>,
    journal_after: Seq<StoreCall>,
) -> bool {
    let first = journal_before.len() as int;
    let created = StoreCall::CreateClient {
        request,
        answer: crate::domain::port::outbound::client_balance_repository::client_answer(outcome),
    };
    if journal_after == journal_before {
        outcome is Err && after == before
    } else if grown_by(journal_before, journal_after, 1) {
        outcome is Err && journal_after[first] == created && after == before
    } else if grown_by(journal_before, journal_after, 2) {
        &&& outcome is Ok
        &&& journal_after[first] == created
        &&& match journal_after[first + 1] {
            StoreCall::InitClientBalance { client_id, answer } => client_id == outcome->Ok_0@.id
                && answer is Ok,
            _ => false,
        }
        &&& after.clients == before.clients.insert(outcome->Ok_0@.id, outcome->Ok_0@)
        &&& after.balances == before.balances.insert(outcome->Ok_0@.id, AmountView::zero())
    } else {
        &&& grown_by(journal_before, journal_after, 3)
        &&& before.next_id matches Some(id)
        &&& journal_after[first] == (StoreCall::CreateClient {
            request,
            answer: Ok(profile_of(request, id)),
        })
        &&& match journal_after[first + 1] {
            StoreCall::InitClientBalance { client_id, answer } => client_id == id && answer is Err,
            _ => false,
        }
        &&& match journal_after[first + 2] {
            StoreCall::DeleteClient { client_id, answer } => client_id == id && match answer {
                Ok(()) => outcome is Ok && outcome->Ok_0@ == profile_of(request, id)
                    && after.same_records(before),
                Err(e) => outcome is Err && outcome->Err_0@ == e && after.balances
                    == before.balances && after.clients == before.clients.insert(
                    id,
                    profile_of(request, id),
                ),
            },
            _ => false,
        }
    }
}

/// What a credit or a debit asks of the store, and how the answer
/// decides.
///
/// For an id without client the store is not asked to change anything and
/// the outcome is an error. Otherwise, unless the question for the client
/// failed, the store is asked once to add the amount, and its answer is
/// the outcome, unchanged.
pub open spec fn update_traced(
    before: Ledger,
    call: StoreCall,
    id: usize,
    outcome: Result<Balance, ClientError>,
    dependable: bool,
    journal_before: Seq<StoreCall>,
    journal_after: Seq<StoreCall>,
) -> bool {
    &&& !before.clients.contains_key(id) ==> journal_after == journal_before
    &&& dependable && before.clients.contains_key(id) ==> journal_after != journal_before
    &&& if journal_after == journal_before {
        outcome is Err
    } else {
        journal_after == journal_before.push(call)
    }
}

/// The call that a credit makes.
pub open spec fn credit_call(
    id: usize,
    amount: AmountView,
    outcome: Result<Balance, ClientError>,
) -> StoreCall {
    StoreCall::CreditBalance {
        client_id: id,
        amount,
        answer: crate::domain::port::outbound::client_balance_repository::balance_answer(outcome),
    }
}

/// The call that a debit makes.
pub open spec fn debit_call(
    id: usize,
    amount: AmountView,
    outcome: Result<Balance, ClientError>,
) -> StoreCall {
    StoreCall::DebitBalance {
        client_id: id,
        amount,
        answer: crate::domain::port::outbound::client_balance_repository::balance_answer(outcome),
    }
}

/// The error that reports a failed reset.
pub open spec fn reset_failure(error: ClientErrorView) -> ClientErrorView {
    ClientErrorView::Unknown {
        cause: failure_cause("Error resetting all balances to zero"@, error),
    }
}

/// What the close-out asks of the store and of the exporter, step by
/// step, and how the answers decide.
///
/// Without a call to the store the question for an empty ledger has
/// decided: nothing is exported, nothing has changed and the outcome is an
/// error. Otherwise the store is asked once to set the balances to zero.
/// When that fails, the failure is reported, nothing is exported and
/// nothing has changed. When it succeeds, the snapshot it returned is
/// handed to the exporter, once. After a successful export the outcome is
/// `Ok`, nothing more is asked and the balances are at zero. After a failed
/// export the store is asked once to merge that same snapshot, and the
/// outcome is the failure of the export whatever the merge answers: when
/// the merge succeeded every balance is restored, when it failed the
/// balances are at zero.
pub open spec fn close_out_traced(
    before: Ledger,
    outcome: Result<(), ClientErrorView>,
    after: Ledger,
    journal_before: Seq<StoreCall>,
    journal_after: Seq<StoreCall>,
    handed_before: Seq<ExportRecord>,
    handed_after: Seq<ExportRecord>,
) -> bool {
    let first = journal_before.len() as int;
    let at_zero = before.with_balances(
        crate::domain::port::outbound::ledger::zeroed(before.balances),
    );
    if journal_after == journal_before {
        outcome is Err && handed_after == handed_before && after == before
    } else if grown_by(journal_before, journal_after, 1) {
        match journal_after[first] {
            StoreCall::ResetAllBalancesToZero { answer } => match answer {
                Err(e) => outcome == Err::<(), ClientErrorView>(reset_failure(e)) && handed_after
                    == handed_before && after == before,
                Ok(snapshot) => outcome is Ok && handed_after == handed_before.push(
                    ExportRecord { balances: snapshot, answer: Ok(()) },
                ) && after == at_zero,
            },
            _ => false,
        }
    } else {
        &&& grown_by(journal_before, journal_after, 2)
        &&& handed_after.len() == handed_before.len() + 1
        &&& handed_after.drop_last() == handed_before
        &&& handed_after.last().answer matches Err(export_error)
        &&& outcome == Err::<(), ClientErrorView>(export_failure(export_error))
        &&& journal_after[first] == (StoreCall::ResetAllBalancesToZero {
            answer: Ok(handed_after.last().balances),
        })
        &&& match journal_after[first + 1] {
            StoreCall::MergeOldBalances { old_balances, answer } => old_balances
                == handed_after.last().balances && match answer {
                Ok(()) => rolled_back(before, after),
                Err(_) => after == at_zero,
            },
            _ => false,
        }
    }
}

/// What the close-out owes.
///
/// On an empty ledger it fails with `BalancesEmpty`, changes nothing and
/// exports nothing. Otherwise every balance is set to zero and the
/// snapshot of what they were is handed to the exporter, once, and the
/// exporter's answer decides. When the export succeeded the outcome is
/// `Ok` and the balances stay at zero. When it failed the outcome is the
/// `Unknown` that reports the export error, and the snapshot is added back
/// to the balances, which restores them. Only with a store that is not
/// dependable can the close-out also fail before anything was exported,
/// with nothing changed, or lose the snapshot and leave the balances at
/// zero.
pub open spec fn balances_stored(
    before: Ledger,
    outcome: Result<(), ClientError>,
    after: Ledger,
    dependable: bool,
    handed_before: Seq<ExportRecord>,
    handed_after: Seq<ExportRecord>,
) -> bool {
    let at_zero = crate::domain::port::outbound::ledger::zeroed(before.balances);
    &&& before.no_balances() && dependable ==> outcome is Err && outcome->Err_0@ is BalancesEmpty
    &&& !before.no_balances() && dependable ==> handed_after != handed_before
    &&& if handed_after == handed_before {
        &&& after == before
        &&& match outcome {
            Ok(()) => false,
            Err(e) => if e@ is BalancesEmpty {
                before.no_balances()
            } else {
                e@ is Unknown && !dependable
            },
        }
    } else {
        &&& !before.no_balances()
        &&& snapshot_handed(before, handed_before, handed_after)
        &&& match handed_after.last().answer {
            Ok(()) => outcome is Ok && after == before.with_balances(at_zero),
            Err(error) => {
                &&& outcome is Err
                &&& outcome->Err_0@ == export_failure(error)
                &&& {
                    ||| rolled_back(before, after)
                    ||| !dependable && after == before.with_balances(at_zero)
                }
            },
        }
    }
}

/// The exporter was asked once more, and what it was handed is a snapshot
/// of the balances as they were before.
pub open spec fn snapshot_handed(
    before: Ledger,
    handed_before: Seq<ExportRecord>,
    handed_after: Seq<ExportRecord>,
) -> bool {
    &&& handed_after.len() == handed_before.len() + 1
    &&& handed_after.drop_last() == handed_before
    &&& crate::domain::port::outbound::ledger::is_snapshot_of(
        handed_after.last().balances,
        before.balances,
    )
}

/// The balances were set to zero and the snapshot of what they were was
/// added to them again: every client has what it had.
pub open spec fn rolled_back(before: Ledger, after: Ledger) -> bool {
    after == before.with_balances(crate::domain::port::outbound::ledger::restored(before.balances))
}

/// Of two creations with the same document, the second fails with
/// `Duplicate` and changes nothing, once the first has succeeded on a
/// dependable store.
pub proof fn lemma_second_creation_is_duplicate(
    before: Ledger,
    first_request: CreateClientRequestView,
    first: Result<Client, ClientError>,
    between: Ledger,
    second_request: CreateClientRequestView,
    second: Result<Client, ClientError>,
    after: Ledger,
)
    requires
        client_registered(before, first_request, first, between, true),
        first is Ok,
        client_registered(between, second_request, second, after, true),
        second_request.document == first_request.document,
    ensures
        second is Err,
        second->Err_0@ == (ClientErrorView::Duplicate { document: first_request.document }),
        after == between,
{
    let client = first->Ok_0@;
    assert(between.clients.contains_key(client.id));
    assert(between.clients[client.id].document == second_request.document);
}

/// Creating a client changes no client that was there before, and no
/// balance: a client, once created, stays as it is.
pub proof fn lemma_creation_keeps_clients(
    before: Ledger,
    request: CreateClientRequestView,
    outcome: Result<Client, ClientError>,
    after: Ledger,
    dependable: bool,
)
    requires
        before.well_formed(),
        client_registered(before, request, outcome, after, dependable),
    ensures
        forall|id: usize| #[trigger]
            before.clients.contains_key(id) ==> after.clients.contains_key(id)
                && after.clients[id] == before.clients[id],
        forall|id: usize| #[trigger]
            before.balances.contains_key(id) ==> after.balances.contains_key(id)
                && after.balances[id] == before.balances[id],
{
}

/// On a dependable store, creating a client keeps the ledger complete:
/// every client has a balance and every balance a client.
pub proof fn lemma_creation_keeps_ledger_complete(
    before: Ledger,
    request: CreateClientRequestView,
    outcome: Result<Client, ClientError>,
    after: Ledger,
)
    requires
        client_registered(before, request, outcome, after, true),
        before.complete(),
    ensures
        after.complete(),
{
}

/// A credit or a debit keeps the ledger complete, and changes no balance
/// but that of its client.
pub proof fn lemma_update_keeps_ledger_complete(
    before: Ledger,
    id: usize,
    amount: AmountView,
    outcome: Result<Balance, ClientError>,
    after: Ledger,
    dependable: bool,
)
    requires
        balance_updated(before, id, amount, outcome, after, dependable),
        before.complete(),
    ensures
        after.complete(),
        after.clients == before.clients,
        forall|other: usize|
            other != id && before.balances.contains_key(other) ==> after.balances[other]
                == before.balances[other],
{
}

/// The close-out keeps the ledger complete, however it ends.
pub proof fn lemma_close_out_keeps_ledger_complete(
    before: Ledger,
    outcome: Result<(), ClientError>,
    after: Ledger,
    dependable: bool,
    handed_before: Seq<ExportRecord>,
    handed_after: Seq<ExportRecord>,
)
    requires
        balances_stored(before, outcome, after, dependable, handed_before, handed_after),
        before.complete(),
    ensures
        after.complete(),
        after.clients == before.clients,
{
}

/// The public API of the client balance domain.
pub trait ClientBalanceService {
    /// The state of the ledger behind the service.
    spec fn ledger(&self) -> Ledger;

    /// Whether the store behind the service never fails for reasons of its
    /// own.
    spec fn dependable(&self) -> bool;

    /// What the service keeps true of itself and of its ledger.
    spec fn well_formed(&self) -> bool;

    /// What the exporter behind the service was asked to export so far.
    spec fn handed(&self) -> ExportLog;

    /// The calls that may have changed the store behind the service so
    /// far.
    spec fn journal(&self) -> Journal;

    /// Creates a client and opens its balance at zero.
    fn create_client(&mut self, req: &CreateClientRequest) -> (r: Result<Client, ClientError>)
        requires
            old(self).well_formed(),
        ensures
            final(self).well_formed(),
            final(self).dependable() == old(self).dependable(),
            final(self).handed() == old(self).handed(),
            client_registered(
                old(self).ledger(),
                req@,
                r,
                final(self).ledger(),
                old(self).dependable(),
            ),
            creation_traced(
                old(self).ledger(),
                req@,
                r,
                final(self).ledger(),
                old(self).journal().calls,
                final(self).journal().calls,
            ),
    ;

    /// The client with the id of the request.
    fn get_client_by_id(&self, req: &GetClientRequest) -> (r: Result<Client, ClientError>)
        requires
            self.well_formed(),
        ensures
            client_found(self.ledger(), req@, r, self.dependable()),
    ;

    /// Adds the amount of the request to the balance of its client.
    fn credit_balance(&mut self, req: &CreditTransactionRequest) -> (r: Result<
        Balance,
        ClientError,
    >)
        requires
            old(self).well_formed(),
        ensures
            final(self).well_formed(),
            final(self).dependable() == old(self).dependable(),
            final(self).handed() == old(self).handed(),
            req@.amount.mantissa > 0,
            balance_updated(
                old(self).ledger(),
                req@.client_id,
                req@.amount,
                r,
                final(self).ledger(),
                old(self).dependable(),
            ),
            update_traced(
                old(self).ledger(),
                credit_call(req@.client_id, req@.amount, r),
                req@.client_id,
                r,
                old(self).dependable(),
                old(self).journal().calls,
                final(self).journal().calls,
            ),
    ;

    /// Adds the amount of the request, a negative delta, to the balance of
    /// its client.
    fn debit_balance(&mut self, req: &DebitTransactionRequest) -> (r: Result<Balance, ClientError>)
        requires
            old(self).well_formed(),
        ensures
            final(self).well_formed(),
            final(self).dependable() == old(self).dependable(),
            final(self).handed() == old(self).handed(),
            req@.amount.mantissa < 0,
            balance_updated(
                old(self).ledger(),
                req@.client_id,
                req@.amount,
                r,
                final(self).ledger(),
                old(self).dependable(),
            ),
            update_traced(
                old(self).ledger(),
                debit_call(req@.client_id, req@.amount, r),
                req@.client_id,
                r,
                old(self).dependable(),
                old(self).journal().calls,
                final(self).journal().calls,
            ),
    ;

    /// The balance of the client of the request.
    fn get_balance_by_client_id(&self, req: &GetClientRequest) -> (r: Result<Balance, ClientError>)
        requires
            self.well_formed(),
        ensures
            balance_found(self.ledger(), req@, r, self.dependable()),
    ;

    /// Sets every balance to zero and exports what they were.
    fn store_balances(&mut self) -> (r: Result<(), ClientError>)
        requires
            old(self).well_formed(),
        ensures
            final(self).well_formed(),
            final(self).dependable() == old(self).dependable(),
            balances_stored(
                old(self).ledger(),
                r,
                final(self).ledger(),
                old(self).dependable(),
                old(self).handed().records,
                final(self).handed().records,
            ),
            close_out_traced(
                old(self).ledger(),
                crate::domain::port::outbound::client_balance_repository::plain_answer(r),
                final(self).ledger(),
                old(self).journal().calls,
                final(self).journal().calls,
                old(self).handed().records,
                final(self).handed().records,
            ),
    ;
}

} // verus!
