//! The port through which a snapshot of the balances leaves the system.

use vstd::prelude::*;

use crate::domain::model::entity::balance::{Balance, BalanceView};
use crate::domain::model::error::{ClientError, ClientErrorView};

verus! {

/// One request to an exporter: the balances it was handed, and what it
/// answered.
pub struct ExportRecord {
    pub balances: Seq<BalanceView>,
    pub answer: Result<(), ClientErrorView>,
}

/// What an exporter was asked to export so far, oldest first, whether the
/// export succeeded or not.
pub struct ExportLog {
    pub records: Seq<ExportRecord>,
}

/// The answer of an exporter, as the log keeps it.
pub open spec fn answer_of(answer: Result<(), ClientError>) -> Result<(), ClientErrorView> {
    match answer {
        Ok(()) => Ok(()),
        Err(e) => Err(e@),
    }
}

/// A service that hands balances over to an external system.
pub trait BalanceExporter {
    /// What the exporter was asked to export so far.
    spec fn handed(&self) -> ExportLog;

    /// Exports the balances. An implementation reports `BalancesEmpty`
    /// for an empty list and `Unknown` when the export fails; nothing is
    /// assumed of the outcome here, only that the request and its answer
    /// are one more record of the log.
    fn export_balances(&mut self, balances: &[Balance]) -> (r: Result<(), ClientError>)
        ensures
            final(self).handed().records == old(self).handed().records.push(
                ExportRecord {
                    balances: crate::domain::port::outbound::ledger::balance_views(balances@),
                    answer: answer_of(r),
                },
            ),
    ;
}

} // verus!
