//! The mathematical model of the store: clients and balances by id.

use vstd::prelude::*;

use crate::domain::model::entity::balance::{Balance, BalanceView};
use crate::domain::model::entity::client::ClientView;
use crate::domain::model::value::amount::AmountView;

verus! {

/// The state of a store of clients and balances.
pub struct Ledger {
    /// The clients, by id.
    pub clients: Map<usize, ClientView>,
    /// The balances, by the id of their client.
    pub balances: Map<usize, AmountView>,
    /// The id that the next client gets, if one is left.
    pub next_id: Option<usize>,
}

/// The contents of a list of balances.
pub open spec fn balance_views(balances: Seq<Balance>) -> Seq<BalanceView> {
    Seq::new(balances.len(), |i: int| balances[i]@)
}

/// The same balances, every one at zero.
pub open spec fn zeroed(balances: Map<usize, AmountView>) -> Map<usize, AmountView> {
    Map::new(|id: usize| balances.contains_key(id), |id: usize| AmountView::zero())
}

/// `snapshot` lists every balance exactly once, with its amount.
pub open spec fn is_snapshot_of(
    snapshot: Seq<BalanceView>,
    balances: Map<usize, AmountView>,
) -> bool {
    &&& forall|i: int|
        0 <= i < snapshot.len() ==> balances.contains_key((#[trigger] snapshot[i]).client_id)
            && balances[snapshot[i].client_id] == snapshot[i].amount
    &&& forall|id: usize| #[trigger]
        balances.contains_key(id) ==> exists|i: int|
            0 <= i < snapshot.len() && (#[trigger] snapshot[i]).client_id == id
    &&& forall|i: int, j: int|
        0 <= i < j < snapshot.len() ==> (#[trigger] snapshot[i]).client_id != (
        #[trigger] snapshot[j]).client_id
}

/// The balances after the old ones were added to them, one after the
/// other: an old balance whose client has no balance any more is passed
/// over, and the whole is `None` where a sum cannot be represented.
pub open spec fn merged(balances: Map<usize, AmountView>, old_balances: Seq<BalanceView>) -> Option<
    Map<usize, AmountView>,
>
    decreases old_balances.len(),
{
    if old_balances.len() == 0 {
        Some(balances)
    } else {
        let entry = old_balances.first();
        if balances.contains_key(entry.client_id) {
            match entry.amount.plus(balances[entry.client_id]) {
                Some(sum) => merged(
                    balances.insert(entry.client_id, sum),
                    old_balances.drop_first(),
                ),
                None => None,
            }
        } else {
            merged(balances, old_balances.drop_first())
        }
    }
}

/// An amount after it was added to zero: every amount comes back as it
/// was, but for a zero, which is then written without decimals.
pub open spec fn settled(amount: AmountView) -> AmountView {
    if amount.mantissa == 0 {
        AmountView::zero()
    } else {
        amount
    }
}

/// The same balances, every one as it is after it was added to zero.
pub open spec fn restored(balances: Map<usize, AmountView>) -> Map<usize, AmountView> {
    Map::new(|id: usize| balances.contains_key(id), |id: usize| settled(balances[id]))
}

/// Adding a snapshot back to the balances that were set to zero restores
/// every balance: the merge cannot fail for want of a representation, and
/// each client has again what it had.
pub proof fn lemma_merge_restores(balances: Map<usize, AmountView>, snapshot: Seq<BalanceView>)
    requires
        is_snapshot_of(snapshot, balances),
    ensures
        merged(zeroed(balances), snapshot) == Some(restored(balances)),
{
    assert(snapshot.skip(0) =~= snapshot);
    lemma_merge_restores_from(zeroed(balances), balances, snapshot, 0);
}

/// The step of the induction: the first `done` balances of the snapshot
/// are restored already, the others are still at zero.
proof fn lemma_merge_restores_from(
    current: Map<usize, AmountView>,
    balances: Map<usize, AmountView>,
    snapshot: Seq<BalanceView>,
    done: int,
)
    requires
        is_snapshot_of(snapshot, balances),
        0 <= done <= snapshot.len(),
        forall|id: usize| current.contains_key(id) <==> balances.contains_key(id),
        forall|i: int|
            0 <= i < done ==> current[(#[trigger] snapshot[i]).client_id] == settled(
                snapshot[i].amount,
            ),
        forall|i: int|
            done <= i < snapshot.len() ==> current[(#[trigger] snapshot[i]).client_id]
                == AmountView::zero(),
    ensures
        merged(current, snapshot.skip(done)) == Some(restored(balances)),
    decreases snapshot.len() - done,
{
    let rest = snapshot.skip(done);
    if done == snapshot.len() {
        assert(rest.len() == 0);
        assert forall|id: usize| current.contains_key(id) implies #[trigger] current[id]
            == settled(balances[id]) by {
            let i = choose|i: int|
                0 <= i < snapshot.len() && (#[trigger] snapshot[i]).client_id == id;
            assert(current[snapshot[i].client_id] == settled(snapshot[i].amount));
        }
        assert(current =~= restored(balances));
    } else {
        let entry = snapshot[done];
        assert(rest.first() == entry);
        assert(rest.drop_first() =~= snapshot.skip(done + 1));
        assert(balances.contains_key(entry.client_id));
        assert(current[entry.client_id] == AmountView::zero());
        assert(entry.amount.plus(AmountView::zero()) == Some(settled(entry.amount)));
        let next = current.insert(entry.client_id, settled(entry.amount));
        assert forall|i: int| 0 <= i < done + 1 implies next[(#[trigger] snapshot[i]).client_id]
            == settled(snapshot[i].amount) by {
            if i < done {
                assert(snapshot[i].client_id != snapshot[done].client_id);
            }
        }
        assert forall|i: int| done + 1 <= i < snapshot.len() implies next[(
        #[trigger] snapshot[i]).client_id] == AmountView::zero() by {
            assert(snapshot[done].client_id != snapshot[i].client_id);
        }
        lemma_merge_restores_from(next, balances, snapshot, done + 1);
    }
}

impl Ledger {
    /// Some client has this document.
    pub open spec fn has_document(self, document: Seq<char>) -> bool {
        exists|id: usize| #[trigger]
            self.clients.contains_key(id) && self.clients[id].document == document
    }

    /// There is no balance at all.
    pub open spec fn no_balances(self) -> bool {
        forall|id: usize| !(#[trigger] self.balances.contains_key(id))
    }

    /// What every store keeps at all times: each client is filed under its
    /// own id, no two clients share a document, and the next id is free.
    pub open spec fn well_formed(self) -> bool {
        &&& forall|id: usize| #[trigger]
            self.clients.contains_key(id) ==> self.clients[id].id == id
        &&& forall|a: usize, b: usize|
            #![trigger self.clients.contains_key(a), self.clients.contains_key(b)]
            self.clients.contains_key(a) && self.clients.contains_key(b)
                && self.clients[a].document == self.clients[b].document ==> a == b
        &&& self.next_id matches Some(id) ==> !self.clients.contains_key(id)
            && !self.balances.contains_key(id)
    }

    /// Every client has a balance, and every balance a client.
    pub open spec fn complete(self) -> bool {
        forall|id: usize| self.clients.contains_key(id) <==> self.balances.contains_key(id)
    }

    /// The ledger with other balances.
    pub open spec fn with_balances(self, balances: Map<usize, AmountView>) -> Ledger {
        Ledger { clients: self.clients, balances, next_id: self.next_id }
    }

    /// The same clients and the same balances.
    pub open spec fn same_records(self, other: Ledger) -> bool {
        self.clients == other.clients && self.balances == other.balances
    }
}

} // verus!
