//! The canonical implementation of the use cases, over a store and an
//! exporter.

use vstd::prelude::*;

use crate::domain::model::dto::create_client::CreateClientRequest;
use crate::domain::model::dto::credit_transaction::CreditTransactionRequest;
use crate::domain::model::dto::debit_transaction::DebitTransactionRequest;
use crate::domain::model::dto::get_balance::GetClientRequest;
use crate::domain::model::entity::balance::{Balance, BalanceView};
use crate::domain::model::entity::client::Client;
use crate::domain::model::error::{ClientError, ClientErrorView};
use crate::domain::model::value::client_id::ClientId;
use crate::domain::model::value::document::Document;
use crate::domain::port::inbound::client_balance_service::ClientBalanceService;
use crate::domain::port::outbound::balance_exporter::{BalanceExporter, ExportLog, ExportRecord};
use crate::domain::port::outbound::client_balance_repository::{
    ClientBalanceRepository, Journal, StoreCall,
};
use crate::domain::port::outbound::ledger::Ledger;

verus! {

/// Wraps the failure of a step into an `Unknown` that names the step.
pub fn unknown_from(context: &str, error: &ClientError) -> (r: ClientError)
    ensures
        r@ == (ClientErrorView::Unknown {
            cause: crate::domain::port::inbound::client_balance_service::failure_cause(
                context@,
                error@,
            ),
        }),
{
    let mut cause = context.to_string();
    let message = error.to_string();
    cause.append(": ");
    cause.append(message.as_str());
    ClientError::Unknown(cause)
}

/// Decides from the answer of the store whether a client may be used: it
/// exists, or the outcome is `NotFoundById` with its id; a failure of the
/// store is passed on.
pub fn existence_verdict(answer: Result<bool, ClientError>, client_id: &ClientId) -> (r: Result<
    (),
    ClientError,
>)
    ensures
        match answer {
            Ok(true) => r is Ok,
            Ok(false) => r is Err && r->Err_0@ == (ClientErrorView::NotFoundById {
                id_document: client_id@,
            }),
            Err(e) => r == Err::<(), ClientError>(e),
        },
{
    match answer {
        Ok(exists) => {
            if exists {
                Ok(())
            } else {
                Err(ClientError::NotFoundById { id_document: *client_id })
            }
        },
        Err(e) => Err(e),
    }
}

/// Decides from the lookup by document whether a creation may go on: a
/// client that was found is a `Duplicate`, a "not found" of either kind is
/// no conflict, and any other failure is passed on.
pub fn conflict_verdict(lookup: Result<Client, ClientError>, document: &Document) -> (r: Result<
    (),
    ClientError,
>)
    ensures
        match lookup {
            Ok(_) => r is Err && r->Err_0@ == (ClientErrorView::Duplicate { document: document@ }),
            Err(e) => if e@ is NotFoundByDocument || e@ is NotFoundById {
                r is Ok
            } else {
                r == Err::<(), ClientError>(e)
            },
        },
{
    match lookup {
        Ok(_) => Err(ClientError::Duplicate { document: document.to_string() }),
        Err(e) => match e {
            ClientError::NotFoundByDocument { .. } => Ok(()),
            ClientError::NotFoundById { .. } => Ok(()),
            _ => Err(e),
        },
    }
}

/// How a close-out ended.
#[derive(Debug)]
pub enum CloseOut {
    /// There was no balance: nothing was done.
    Empty,
    /// The store failed before anything was changed.
    Untouched(ClientError),
    /// The snapshot was exported; the balances are at zero.
    Exported,
    /// The export failed and the snapshot was added back to the balances.
    RolledBack(ClientError),
    /// The export failed and so did the merge, which only a store that is
    /// not dependable lets happen: the balances are at zero and what they
    /// were is lost.
    Lost(ClientError),
}

impl CloseOut {
    /// What the close-out reports: success only after an export, the
    /// empty ledger as `BalancesEmpty`, every failure as the error of the
    /// step that failed first.
    pub open spec fn reported(self) -> Result<(), ClientErrorView> {
        match self {
            CloseOut::Empty => Err(ClientErrorView::BalancesEmpty),
            CloseOut::Exported => Ok(()),
            CloseOut::Untouched(e) => Err(e@),
            CloseOut::RolledBack(e) => Err(e@),
            CloseOut::Lost(e) => Err(e@),
        }
    }

    /// The close-out as the result of the use case.
    pub fn into_result(self) -> (r: Result<(), ClientError>)
        ensures
            crate::domain::port::outbound::client_balance_repository::plain_answer(r)
                == self.reported(),
            match self {
                CloseOut::Empty => r is Err && r->Err_0@ is BalancesEmpty,
                CloseOut::Exported => r is Ok,
                CloseOut::Untouched(e) => r == Err::<(), ClientError>(e),
                CloseOut::RolledBack(e) => r == Err::<(), ClientError>(e),
                CloseOut::Lost(e) => r == Err::<(), ClientError>(e),
            },
    {
        match self {
            CloseOut::Empty => Err(ClientError::BalancesEmpty),
            CloseOut::Exported => Ok(()),
            CloseOut::Untouched(e) => Err(e),
            CloseOut::RolledBack(e) => Err(e),
            CloseOut::Lost(e) => Err(e),
        }
    }
}

/// Decides from the answer to opening the balance whether the client that
/// was just created has to be withdrawn: it has, exactly when the balance
/// could not be opened.
pub fn must_withdraw(opened: &Result<Balance, ClientError>) -> (r: bool)
    ensures
        r == (opened is Err),
{
    match opened {
        Ok(_) => false,
        Err(_) => true,
    }
}

/// Decides from the answer to the deletion what creating a client whose
/// balance could not be opened reports: the client all the same when it
/// was deleted again, the failure of the deletion otherwise.
pub fn withdrawal_verdict(client: Client, deleted: Result<(), ClientError>) -> (r: Result<
    Client,
    ClientError,
>)
    ensures
        match deleted {
            Ok(()) => r == Ok::<Client, ClientError>(client),
            Err(e) => r == Err::<Client, ClientError>(e),
        },
{
    match deleted {
        Ok(()) => Ok(client),
        Err(e) => Err(e),
    }
}

/// Decides from the answer of the store whether there is anything to
/// close out: a failure of the store ends the close-out untouched, with
/// that failure; an empty ledger ends it as `Empty`; otherwise it goes on.
pub fn emptiness_verdict(answer: Result<bool, ClientError>) -> (r: Option<CloseOut>)
    ensures
        match answer {
            Ok(true) => r == Some(CloseOut::Empty),
            Ok(false) => r is None,
            Err(e) => r == Some(CloseOut::Untouched(e)),
        },
{
    match answer {
        Ok(empty) => {
            if empty {
                Some(CloseOut::Empty)
            } else {
                None
            }
        },
        Err(e) => Some(CloseOut::Untouched(e)),
    }
}

/// Decides from the answer to the reset how the close-out goes on: with
/// the snapshot, or to its end, untouched, with the `Unknown` that
/// reports the failed reset.
pub fn reset_verdict(reset: Result<Vec<Balance>, ClientError>) -> (r: Result<
    Vec<Balance>,
    CloseOut,
>)
    ensures
        match reset {
            Ok(snapshot) => r == Ok::<Vec<Balance>, CloseOut>(snapshot),
            Err(e) => r is Err && r->Err_0 is Untouched && r->Err_0->Untouched_0@ == (
            ClientErrorView::Unknown {
                cause: crate::domain::port::inbound::client_balance_service::failure_cause(
                    "Error resetting all balances to zero"@,
                    e@,
                ),
            }),
        },
{
    match reset {
        Ok(snapshot) => Ok(snapshot),
        Err(e) => Err(
            CloseOut::Untouched(unknown_from("Error resetting all balances to zero", &e)),
        ),
    }
}

/// Decides from the answer of the exporter whether the close-out is
/// done: a successful export leaves nothing to report, a failed one is
/// reported as the `Unknown` that names the export and its error.
pub fn export_verdict(exported: Result<(), ClientError>) -> (r: Option<ClientError>)
    ensures
        match exported {
            Ok(()) => r is None,
            Err(e) => r is Some
                && r->Some_0@ == crate::domain::port::inbound::client_balance_service::export_failure(
                e@,
            ),
        },
{
    match exported {
        Ok(()) => None,
        Err(e) => Some(unknown_from("Error exporting balances", &e)),
    }
}

/// Decides from the answer to the merge how a close-out whose export
/// failed has ended: rolled back when the merge succeeded, lost when it
/// failed. Either way the failure to report is that of the export.
pub fn merge_verdict(failure: ClientError, merged: Result<(), ClientError>) -> (r: CloseOut)
    ensures
        match merged {
            Ok(()) => r == CloseOut::RolledBack(failure),
            Err(_) => r == CloseOut::Lost(failure),
        },
{
    match merged {
        Ok(()) => CloseOut::RolledBack(failure),
        Err(_) => CloseOut::Lost(failure),
    }
}

/// What a close-out that ended in `outcome` has done to the ledger, what
/// it has handed to the exporter, and what it reports.
pub open spec fn closed_out(
    before: Ledger,
    outcome: CloseOut,
    after: Ledger,
    dependable: bool,
    handed_before: Seq<ExportRecord>,
    handed_after: Seq<ExportRecord>,
) -> bool {
    let at_zero = crate::domain::port::outbound::ledger::zeroed(before.balances);
    let exported = !before.no_balances()
        && crate::domain::port::inbound::client_balance_service::snapshot_handed(
        before,
        handed_before,
        handed_after,
    );
    let answer = handed_after.last().answer;
    &&& !before.no_balances() && dependable ==> handed_after != handed_before
    &&& match outcome {
        CloseOut::Empty => before.no_balances() && after == before && handed_after
            == handed_before,
        CloseOut::Untouched(e) => e@ is Unknown && !dependable && after == before && handed_after
            == handed_before,
        CloseOut::Exported => exported && answer is Ok && after == before.with_balances(at_zero),
        CloseOut::RolledBack(e) => {
            &&& exported
            &&& answer is Err
            &&& e@ == crate::domain::port::inbound::client_balance_service::export_failure(
                answer->Err_0,
            )
            &&& crate::domain::port::inbound::client_balance_service::rolled_back(before, after)
        },
        CloseOut::Lost(e) => {
            &&& exported
            &&& answer is Err
            &&& e@ == crate::domain::port::inbound::client_balance_service::export_failure(
                answer->Err_0,
            )
            &&& !dependable
            &&& after == before.with_balances(at_zero)
        },
    }
}

/// The use cases over a store `C` and an exporter `E`.
pub struct Service<C: ClientBalanceRepository, E: BalanceExporter> {
    client_repository: C,
    balance_exporter: E,
}

impl<C: ClientBalanceRepository, E: BalanceExporter> Service<C, E> {
    /// The service over the given store and exporter.
    pub fn new(client_repository: C, balance_exporter: E) -> (r: Self)
        ensures
            r.ledger() == client_repository.ledger(),
            r.dependable() == client_repository.dependable(),
            r.well_formed() == (client_repository.well_formed()
                && client_repository.ledger().well_formed()),
            r.handed() == balance_exporter.handed(),
            r.journal() == client_repository.journal(),
    {
        Self { client_repository, balance_exporter }
    }

    /// The store behind the service.
    pub fn repository(&self) -> (r: &C)
        ensures
            r.ledger() == self.ledger(),
            r.dependable() == self.dependable(),
            r.journal() == self.journal(),
            self.well_formed() == (r.well_formed() && r.ledger().well_formed()),
    {
        &self.client_repository
    }

    /// `NotFoundById` unless the client exists.
    fn validate_client_exists(&self, client_id: &ClientId) -> (r: Result<(), ClientError>)
        requires
            self.well_formed(),
        ensures
            match r {
                Ok(()) => self.ledger().clients.contains_key(client_id@),
                Err(e) => if e@ is NotFoundById {
                    !self.ledger().clients.contains_key(client_id@) && e@ == (
                    ClientErrorView::NotFoundById { id_document: client_id@ })
                } else {
                    e@ is Unknown && !self.dependable()
                },
            },
    {
        let answer = self.client_repository.client_id_exists(client_id);
        existence_verdict(answer, client_id)
    }

    /// `Duplicate` if a client has this document.
    fn validate_client_exists_by_document(&self, document: &Document) -> (r: Result<
        (),
        ClientError,
    >)
        requires
            self.well_formed(),
        ensures
            match r {
                Ok(()) => !self.ledger().has_document(document@),
                Err(e) => if e@ is Duplicate {
                    self.ledger().has_document(document@) && e@ == (ClientErrorView::Duplicate {
                        document: document@,
                    })
                } else {
                    e@ is Unknown && !self.dependable()
                },
            },
    {
        let lookup = self.client_repository.get_client_by_document(document);
        conflict_verdict(lookup, document)
    }

    /// Runs the close-out and says how it ended.
    pub fn close_out(&mut self) -> (r: CloseOut)
        requires
            old(self).well_formed(),
        ensures
            final(self).well_formed(),
            final(self).dependable() == old(self).dependable(),
            closed_out(
                old(self).ledger(),
                r,
                final(self).ledger(),
                old(self).dependable(),
                old(self).handed().records,
                final(self).handed().records,
            ),
            crate::domain::port::inbound::client_balance_service::close_out_traced(
                old(self).ledger(),
                r.reported(),
                final(self).ledger(),
                old(self).journal().calls,
                final(self).journal().calls,
                old(self).handed().records,
                final(self).handed().records,
            ),
    {
        let ghost journal_before = self.client_repository.journal().calls;
        let empty = self.client_repository.are_balances_empty();
        match emptiness_verdict(empty) {
            Some(end) => {
                return end;
            },
            None => {},
        }
        let ghost before = self.client_repository.ledger();
        let reset = self.client_repository.reset_all_balances_to_zero();
        let ghost reset_call = StoreCall::ResetAllBalancesToZero {
            answer: crate::domain::port::outbound::client_balance_repository::snapshot_answer(
                reset,
            ),
        };
        proof {
            crate::domain::port::inbound::client_balance_service::lemma_one_more(
                journal_before,
                reset_call,
            );
        }
        let old_balance_clients = match reset_verdict(reset) {
            Ok(snapshot) => snapshot,
            Err(end) => {
                return end;
            },
        };
        let ghost snapshot = crate::domain::port::outbound::ledger::balance_views(
            old_balance_clients@,
        );
        let ghost handed_before = self.balance_exporter.handed().records;
        let exported = self.balance_exporter.export_balances(old_balance_clients.as_slice());
        proof {
            let record = ExportRecord {
                balances: snapshot,
                answer: crate::domain::port::outbound::balance_exporter::answer_of(exported),
            };
            assert(handed_before.push(record).drop_last() =~= handed_before);
            assert(handed_before.push(record).last() == record);
            assert(handed_before.push(record).len() != handed_before.len());
        }
        match export_verdict(exported) {
            None => CloseOut::Exported,
            Some(failure) => {
                proof {
                    crate::domain::port::outbound::ledger::lemma_merge_restores(
                        before.balances,
                        snapshot,
                    );
                }
                let merged = self.client_repository.merge_old_balances(old_balance_clients);
                proof {
                    crate::domain::port::inbound::client_balance_service::lemma_two_more(
                        journal_before,
                        reset_call,
                        StoreCall::MergeOldBalances {
                            old_balances: snapshot,
                            answer: crate::domain::port::outbound::client_balance_repository::plain_answer(
                                merged,
                            ),
                        },
                    );
                }
                merge_verdict(failure, merged)
            },
        }
    }
}

impl<C: ClientBalanceRepository, E: BalanceExporter> ClientBalanceService for Service<C, E> {
    closed spec fn ledger(&self) -> Ledger {
        self.client_repository.ledger()
    }

    closed spec fn dependable(&self) -> bool {
        self.client_repository.dependable()
    }

    closed spec fn well_formed(&self) -> bool {
        self.client_repository.well_formed() && self.client_repository.ledger().well_formed()
    }

    closed spec fn handed(&self) -> ExportLog {
        self.balance_exporter.handed()
    }

    closed spec fn journal(&self) -> Journal {
        self.client_repository.journal()
    }

    fn create_client(&mut self, req: &CreateClientRequest) -> (r: Result<Client, ClientError>) {
        let ghost before = self.client_repository.ledger();
        let ghost journal_before = self.client_repository.journal().calls;
        match self.validate_client_exists_by_document(req.document()) {
            Err(e) => {
                return Err(e);
            },
            Ok(()) => {},
        }
        let created = self.client_repository.create_client(req);
        let ghost create_call = StoreCall::CreateClient {
            request: req@,
            answer: crate::domain::port::outbound::client_balance_repository::client_answer(
                created,
            ),
        };
        let client = match created {
            Ok(client) => client,
            Err(e) => {
                proof {
                    crate::domain::port::inbound::client_balance_service::lemma_one_more(
                        journal_before,
                        create_call,
                    );
                }
                return Err(e);
            },
        };
        let opened = self.client_repository.init_client_balance(client.id());
        let ghost open_call = StoreCall::InitClientBalance {
            client_id: client@.id,
            answer: crate::domain::port::outbound::client_balance_repository::balance_answer(
                opened,
            ),
        };
        if must_withdraw(&opened) {
            let deleted = self.client_repository.delete_client(client.id());
            proof {
                crate::domain::port::inbound::client_balance_service::lemma_three_more(
                    journal_before,
                    create_call,
                    open_call,
                    StoreCall::DeleteClient {
                        client_id: client@.id,
                        answer: crate::domain::port::outbound::client_balance_repository::plain_answer(
                            deleted,
                        ),
                    },
                );
                if deleted is Ok {
                    assert(self.client_repository.ledger().clients =~= before.clients);
                }
            }
            withdrawal_verdict(client, deleted)
        } else {
            proof {
                crate::domain::port::inbound::client_balance_service::lemma_two_more(
                    journal_before,
                    create_call,
                    open_call,
                );
            }
            Ok(client)
        }
    }

    fn get_client_by_id(&self, req: &GetClientRequest) -> (r: Result<Client, ClientError>) {
        match self.validate_client_exists(req.client_id()) {
            Err(e) => {
                return Err(e);
            },
            Ok(()) => {},
        }
        self.client_repository.get_client(req)
    }

    fn credit_balance(&mut self, req: &CreditTransactionRequest) -> (r: Result<
        Balance,
        ClientError,
    >) {
        let _ = req.amount();
        let ghost journal_before = self.client_repository.journal().calls;
        match self.validate_client_exists(req.client_id()) {
            Err(e) => {
                return Err(e);
            },
            Ok(()) => {},
        }
        let moved = self.client_repository.credit_balance(req);
        proof {
            crate::domain::port::inbound::client_balance_service::lemma_one_more(
                journal_before,
                crate::domain::port::inbound::client_balance_service::credit_call(
                    req@.client_id,
                    req@.amount,
                    moved,
                ),
            );
        }
        moved
    }

    fn debit_balance(&mut self, req: &DebitTransactionRequest) -> (r: Result<
        Balance,
        ClientError,
    >) {
        let _ = req.amount();
        let ghost journal_before = self.client_repository.journal().calls;
        match self.validate_client_exists(req.client_id()) {
            Err(e) => {
                return Err(e);
            },
            Ok(()) => {},
        }
        let moved = self.client_repository.debit_balance(req);
        proof {
            crate::domain::port::inbound::client_balance_service::lemma_one_more(
                journal_before,
                crate::domain::port::inbound::client_balance_service::debit_call(
                    req@.client_id,
                    req@.amount,
                    moved,
                ),
            );
        }
        moved
    }

    fn get_balance_by_client_id(&self, req: &GetClientRequest) -> (r: Result<
        Balance,
        ClientError,
    >) {
        match self.validate_client_exists(req.client_id()) {
            Err(e) => {
                return Err(e);
            },
            Ok(()) => {},
        }
        self.client_repository.get_balance_by_client_id(req)
    }

    fn store_balances(&mut self) -> (r: Result<(), ClientError>) {
        let outcome = self.close_out();
        outcome.into_result()
    }
}

} // verus!
