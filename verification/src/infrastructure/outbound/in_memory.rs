//! A store that keeps clients and balances in memory.

use vstd::prelude::*;

use crate::domain::model::dto::create_client::CreateClientRequest;
use crate::domain::model::dto::credit_transaction::CreditTransactionRequest;
use crate::domain::model::dto::debit_transaction::DebitTransactionRequest;
use crate::domain::model::dto::get_balance::GetClientRequest;
use crate::domain::model::entity::balance::Balance;
use crate::domain::model::entity::client::{Client, ClientView};
use crate::domain::model::error::ClientError;
use crate::domain::model::value::amount::{AmountView, MonetaryAmount};
use crate::domain::model::value::client_id::ClientId;
use crate::domain::model::value::document::Document;
use crate::domain::port::outbound::client_balance_repository::{
    ClientBalanceRepository, Journal, StoreCall,
};
use crate::domain::port::outbound::ledger::Ledger;

verus! {

/// The ids under which a list of clients is filed.
spec fn client_keys(clients: Seq<Client>) -> Seq<usize> {
    Seq::new(clients.len(), |i: int| clients[i]@.id)
}

/// The ids under which a list of balances is filed.
spec fn balance_keys(balances: Seq<Balance>) -> Seq<usize> {
    Seq::new(balances.len(), |i: int| balances[i]@.client_id)
}

/// `id` is one of the keys.
spec fn has_key(keys: Seq<usize>, id: usize) -> bool {
    exists|i: int| 0 <= i < keys.len() && #[trigger] keys[i] == id
}

/// A place at which `id` stands among the keys.
spec fn key_index(keys: Seq<usize>, id: usize) -> int {
    choose|i: int| 0 <= i < keys.len() && #[trigger] keys[i] == id
}

/// No key stands at two places.
spec fn distinct(keys: Seq<usize>) -> bool {
    forall|i: int, j: int| 0 <= i < j < keys.len() ==> keys[i] != keys[j]
}

/// Every key is below the bound.
spec fn below(keys: Seq<usize>, bound: usize) -> bool {
    forall|i: int| 0 <= i < keys.len() ==> #[trigger] keys[i] < bound
}

/// No two clients of the list share a document.
spec fn documents_distinct(clients: Seq<Client>) -> bool {
    forall|i: int, j: int|
        0 <= i < j < clients.len() ==> (#[trigger] clients[i])@.document != (
        #[trigger] clients[j])@.document
}

/// The clients of a list, by id.
spec fn client_map(clients: Seq<Client>) -> Map<usize, ClientView> {
    Map::new(
        |id: usize| has_key(client_keys(clients), id),
        |id: usize| clients[key_index(client_keys(clients), id)]@,
    )
}

/// The amounts of a list of balances, by the id of their client.
spec fn balance_map(balances: Seq<Balance>) -> Map<usize, AmountView> {
    Map::new(
        |id: usize| has_key(balance_keys(balances), id),
        |id: usize| balances[key_index(balance_keys(balances), id)]@.amount,
    )
}

/// Among distinct keys, the place of a key is the only one it stands at.
proof fn lemma_key_index(keys: Seq<usize>, i: int)
    requires
        distinct(keys),
        0 <= i < keys.len(),
    ensures
        has_key(keys, keys[i]),
        key_index(keys, keys[i]) == i,
{
    let k = key_index(keys, keys[i]);
    assert(0 <= k < keys.len() && keys[k] == keys[i]);
    if k < i {
        assert(keys[k] != keys[i]);
    } else if i < k {
        assert(keys[i] != keys[k]);
    }
}

/// A store of clients and balances in memory. Clients get their ids from
/// a counter, so no id is given twice.
///
/// Clients and balances are kept in lists, in the order in which they
/// came: the store walks them to look a document up and to reset every
/// balance, and the snapshot of a reset comes in that order.
pub struct InMemoryRepository {
    clients: Vec<Client>,
    client_balances: Vec<Balance>,
    id_counter: usize,
    journal: Ghost<Seq<StoreCall>>,
}

impl Default for InMemoryRepository {
    fn default() -> (r: Self)
        ensures
            r.well_formed(),
            r.ledger().well_formed(),
            r.ledger().clients == Map::<usize, ClientView>::empty(),
            r.ledger().balances == Map::<usize, AmountView>::empty(),
            r.ledger().next_id == Some(0usize),
            r.journal().calls == Seq::<StoreCall>::empty(),
    {
        Self::new()
    }
}

impl InMemoryRepository {
    /// An empty store.
    pub fn new() -> (r: Self)
        ensures
            r.well_formed(),
            r.ledger().well_formed(),
            r.dependable(),
            r.ledger().clients == Map::<usize, ClientView>::empty(),
            r.ledger().balances == Map::<usize, AmountView>::empty(),
            r.ledger().next_id == Some(0usize),
            r.journal().calls == Seq::<StoreCall>::empty(),
    {
        let r = Self {
            clients: Vec::new(),
            client_balances: Vec::new(),
            id_counter: 0,
            journal: Ghost(Seq::empty()),
        };
        proof {
            assert(r.ledger().clients =~= Map::<usize, ClientView>::empty());
            assert(r.ledger().balances =~= Map::<usize, AmountView>::empty());
        }
        r
    }

    /// The model of a well-formed store is a well-formed ledger.
    proof fn lemma_ledger_well_formed(&self)
        requires
            self.well_formed(),
        ensures
            self.ledger().well_formed(),
    {
        let clients = self.clients@;
        let keys = client_keys(clients);
        let ledger = self.ledger();
        assert forall|a: usize, b: usize|
            ledger.clients.contains_key(a) && ledger.clients.contains_key(b)
                && ledger.clients[a].document == ledger.clients[b].document implies a == b by {
            let i = key_index(keys, a);
            let j = key_index(keys, b);
            if i < j {
                assert(clients[i]@.document != clients[j]@.document);
            } else if j < i {
                assert(clients[j]@.document != clients[i]@.document);
            }
        }
    }

    /// The place of the client with this id.
    fn find_client(&self, id: usize) -> (r: Option<usize>)
        ensures
            match r {
                Some(i) => i < self.clients@.len() && self.clients@[i as int]@.id == id,
                None => !has_key(client_keys(self.clients@), id),
            },
    {
        let mut i: usize = 0;
        while i < self.clients.len()
            invariant
                i <= self.clients@.len(),
                forall|j: int| 0 <= j < i ==> self.clients@[j]@.id != id,
            decreases self.clients@.len() - i,
        {
            if self.clients[i].id().number() == id {
                return Some(i);
            }
            i = i + 1;
        }
        None
    }

    /// The place of the client with this document.
    fn find_document(&self, document: &Document) -> (r: Option<usize>)
        ensures
            match r {
                Some(i) => i < self.clients@.len() && self.clients@[i as int]@.document
                    == document@,
                None => forall|j: int|
                    0 <= j < self.clients@.len() ==> (#[trigger] self.clients@[j])@.document
                        != document@,
            },
    {
        let mut i: usize = 0;
        while i < self.clients.len()
            invariant
                i <= self.clients@.len(),
                forall|j: int| 0 <= j < i ==> (#[trigger] self.clients@[j])@.document != document@,
            decreases self.clients@.len() - i,
        {
            if *self.clients[i].document() == *document {
                return Some(i);
            }
            i = i + 1;
        }
        None
    }

    /// Adds the amount to the balance of the client.
    fn update_balance(&mut self, client_id: &ClientId, amount: &MonetaryAmount) -> (r: Result<
        Balance,
        ClientError,
    >)
        requires
            old(self).well_formed(),
        ensures
            final(self).well_formed(),
            final(self).journal@ == old(self).journal@,
            crate::domain::port::outbound::client_balance_repository::balance_moved(
                old(self).ledger(),
                client_id@,
                amount@,
                r,
                final(self).ledger(),
                true,
            ),
    {
        let ghost before = self.client_balances@;
        match find_balance(&self.client_balances, client_id.number()) {
            None => Err(ClientError::NotFoundById { id_document: *client_id }),
            Some(i) => {
                proof {
                    lemma_key_index(balance_keys(before), i as int);
                }
                let current = self.client_balances[i];
                match current.balance().checked_add(amount) {
                    None => Err(
                        ClientError::Unknown("the balance cannot hold the sum".to_string()),
                    ),
                    Some(sum) => {
                        let balance = Balance::new(*client_id, sum);
                        self.client_balances.set(i, balance);
                        proof {
                            lemma_balance_replaced(before, i as int, balance);
                        }
                        Ok(balance)
                    },
                }
            },
        }
    }
}

/// The place of the balance of this client.
fn find_balance(balances: &Vec<Balance>, id: usize) -> (r: Option<usize>)
    ensures
        match r {
            Some(i) => i < balances@.len() && balances@[i as int]@.client_id == id,
            None => !has_key(balance_keys(balances@), id),
        },
{
    let mut i: usize = 0;
    while i < balances.len()
        invariant
            i <= balances@.len(),
            forall|j: int| 0 <= j < i ==> balances@[j]@.client_id != id,
        decreases balances@.len() - i,
    {
        if balances[i].client_id().number() == id {
            return Some(i);
        }
        i = i + 1;
    }
    None
}

/// Replacing a balance by another of the same client changes one amount.
proof fn lemma_balance_replaced(balances: Seq<Balance>, i: int, balance: Balance)
    requires
        distinct(balance_keys(balances)),
        0 <= i < balances.len(),
        balance@.client_id == balances[i]@.client_id,
    ensures
        balance_keys(balances.update(i, balance)) == balance_keys(balances),
        balance_map(balances.update(i, balance)) == balance_map(balances).insert(
            balance@.client_id,
            balance@.amount,
        ),
{
    let updated = balances.update(i, balance);
    assert(balance_keys(updated) =~= balance_keys(balances));
    let keys = balance_keys(balances);
    assert forall|id: usize| has_key(keys, id) implies #[trigger] balance_map(updated)[id]
        == balance_map(balances).insert(balance@.client_id, balance@.amount)[id] by {
        let k = key_index(keys, id);
        if id == balance@.client_id {
            lemma_key_index(keys, i);
        } else {
            assert(k != i);
        }
    }
    assert(has_key(keys, balance@.client_id)) by {
        lemma_key_index(keys, i);
    }
    assert(balance_map(updated) =~= balance_map(balances).insert(
        balance@.client_id,
        balance@.amount,
    ));
}

/// A document that no client of the list has is in no entry of the map.
proof fn lemma_document_unknown(clients: Seq<Client>, document: Seq<char>)
    requires
        forall|j: int| 0 <= j < clients.len() ==> (#[trigger] clients[j])@.document != document,
    ensures
        forall|id: usize| #[trigger]
            client_map(clients).contains_key(id) ==> client_map(clients)[id].document != document,
{
    assert forall|id: usize| #[trigger] client_map(clients).contains_key(id) implies client_map(
        clients,
    )[id].document != document by {
        let k = key_index(client_keys(clients), id);
        assert(clients[k]@.document != document);
    }
}

/// A balance added for a client that had none is one more entry.
proof fn lemma_balance_added(balances: Seq<Balance>, balance: Balance)
    requires
        distinct(balance_keys(balances)),
        !has_key(balance_keys(balances), balance@.client_id),
    ensures
        distinct(balance_keys(balances.push(balance))),
        balance_keys(balances.push(balance)) == balance_keys(balances).push(balance@.client_id),
        balance_map(balances.push(balance)) == balance_map(balances).insert(
            balance@.client_id,
            balance@.amount,
        ),
{
    let keys = balance_keys(balances);
    let added = balances.push(balance);
    let new_keys = balance_keys(added);
    let id = balance@.client_id;
    assert(new_keys =~= keys.push(id));
    assert forall|i: int, j: int| 0 <= i < j < new_keys.len() implies new_keys[i]
        != new_keys[j] by {
        if j == keys.len() {
            assert(keys[i] == new_keys[i]);
        } else {
            assert(keys[i] != keys[j]);
        }
    }
    assert forall|key: usize| #[trigger]
        has_key(new_keys, key) <==> (has_key(keys, key) || key == id) by {
        if has_key(keys, key) {
            let k = key_index(keys, key);
            assert(new_keys[k] == key);
        }
        if key == id {
            assert(new_keys[keys.len() as int] == key);
        }
        if has_key(new_keys, key) && key != id {
            let k = key_index(new_keys, key);
            assert(keys[k] == key);
        }
    }
    assert forall|key: usize| has_key(keys, key) implies #[trigger] balance_map(added)[key]
        == balance_map(balances)[key] by {
        let k = key_index(keys, key);
        lemma_key_index(new_keys, k);
    }
    lemma_key_index(new_keys, keys.len() as int);
    assert(balance_map(added) =~= balance_map(balances).insert(id, balance@.amount));
}

/// A client taken out of the list is an entry less.
proof fn lemma_client_removed(clients: Seq<Client>, i: int)
    requires
        distinct(client_keys(clients)),
        documents_distinct(clients),
        0 <= i < clients.len(),
    ensures
        distinct(client_keys(clients.remove(i))),
        documents_distinct(clients.remove(i)),
        forall|bound: usize|
            below(client_keys(clients), bound) ==> #[trigger] below(
                client_keys(clients.remove(i)),
                bound,
            ),
        client_map(clients.remove(i)) == client_map(clients).remove(clients[i]@.id),
{
    let keys = client_keys(clients);
    let rest = clients.remove(i);
    let rest_keys = client_keys(rest);
    let id = clients[i]@.id;
    assert(rest_keys =~= keys.remove(i));
    assert forall|a: int, b: int| 0 <= a < b < rest_keys.len() implies rest_keys[a]
        != rest_keys[b] by {
        let a0 = if a < i { a } else { a + 1 };
        let b0 = if b < i { b } else { b + 1 };
        assert(keys[a0] != keys[b0]);
    }
    assert forall|a: int, b: int| 0 <= a < b < rest.len() implies (#[trigger] rest[a])@.document
        != (#[trigger] rest[b])@.document by {
        let a0 = if a < i { a } else { a + 1 };
        let b0 = if b < i { b } else { b + 1 };
        assert(clients[a0]@.document != clients[b0]@.document);
    }
    assert forall|bound: usize| below(keys, bound) implies #[trigger] below(rest_keys, bound) by {
        assert forall|a: int| 0 <= a < rest_keys.len() implies #[trigger] rest_keys[a] < bound by {
            let a0 = if a < i { a } else { a + 1 };
            assert(keys[a0] < bound);
        }
    }
    assert forall|key: usize| #[trigger]
        has_key(rest_keys, key) <==> (has_key(keys, key) && key != id) by {
        if has_key(rest_keys, key) {
            let k = key_index(rest_keys, key);
            let k0 = if k < i { k } else { k + 1 };
            assert(keys[k0] == key);
            lemma_key_index(keys, k0);
            lemma_key_index(keys, i);
        }
        if has_key(keys, key) && key != id {
            let k = key_index(keys, key);
            let k1 = if k < i { k } else { k - 1 };
            assert(rest_keys[k1] == key);
        }
    }
    assert forall|key: usize| has_key(rest_keys, key) implies #[trigger] client_map(rest)[key]
        == client_map(clients)[key] by {
        let k = key_index(rest_keys, key);
        let k0 = if k < i { k } else { k + 1 };
        assert(keys[k0] == key);
        lemma_key_index(keys, k0);
    }
    assert(client_map(rest) =~= client_map(clients).remove(id));
}

/// A copy of the balances.
fn copy_balances(balances: &Vec<Balance>) -> (r: Vec<Balance>)
    ensures
        r@ == balances@,
{
    let mut copy: Vec<Balance> = Vec::new();
    let mut i: usize = 0;
    while i < balances.len()
        invariant
            i <= balances@.len(),
            copy@ == balances@.subrange(0, i as int),
        decreases balances@.len() - i,
    {
        copy.push(balances[i]);
        assert(copy@ =~= balances@.subrange(0, i + 1));
        i = i + 1;
    }
    assert(copy@ =~= balances@);
    copy
}

/// The balances of the same clients, every one at zero.
fn zero_balances(balances: &Vec<Balance>) -> (r: Vec<Balance>)
    ensures
        r@.len() == balances@.len(),
        forall|j: int|
            0 <= j < r@.len() ==> (#[trigger] r@[j])@ == (
            crate::domain::model::entity::balance::BalanceView {
                client_id: balances@[j]@.client_id,
                amount: AmountView::zero(),
            }),
{
    let mut zeros: Vec<Balance> = Vec::new();
    let mut i: usize = 0;
    while i < balances.len()
        invariant
            i <= balances@.len(),
            zeros@.len() == i,
            forall|j: int|
                0 <= j < i ==> (#[trigger] zeros@[j])@ == (
                crate::domain::model::entity::balance::BalanceView {
                    client_id: balances@[j]@.client_id,
                    amount: AmountView::zero(),
                }),
        decreases balances@.len() - i,
    {
        zeros.push(Balance::new(*balances[i].client_id(), MonetaryAmount::zero()));
        i = i + 1;
    }
    zeros
}

/// A list of balances with distinct clients is a snapshot of its own map.
proof fn lemma_snapshot(balances: Seq<Balance>)
    requires
        distinct(balance_keys(balances)),
    ensures
        crate::domain::port::outbound::ledger::is_snapshot_of(
            crate::domain::port::outbound::ledger::balance_views(balances),
            balance_map(balances),
        ),
{
    let keys = balance_keys(balances);
    let views = crate::domain::port::outbound::ledger::balance_views(balances);
    let map = balance_map(balances);
    assert forall|i: int| 0 <= i < views.len() implies map.contains_key(
        (#[trigger] views[i]).client_id,
    ) && map[views[i].client_id] == views[i].amount by {
        lemma_key_index(keys, i);
    }
    assert forall|id: usize| #[trigger] map.contains_key(id) implies exists|i: int|
        0 <= i < views.len() && (#[trigger] views[i]).client_id == id by {
        let k = key_index(keys, id);
        assert(views[k].client_id == id);
    }
    assert forall|i: int, j: int| 0 <= i < j < views.len() implies (#[trigger] views[i]).client_id
        != (#[trigger] views[j]).client_id by {
        assert(keys[i] != keys[j]);
    }
}

/// Balances of the same clients, all at zero, are the map set to zero.
proof fn lemma_zeroed(balances: Seq<Balance>, zeros: Seq<Balance>)
    requires
        zeros.len() == balances.len(),
        forall|j: int|
            0 <= j < zeros.len() ==> (#[trigger] zeros[j])@ == (
            crate::domain::model::entity::balance::BalanceView {
                client_id: balances[j]@.client_id,
                amount: AmountView::zero(),
            }),
    ensures
        balance_keys(zeros) == balance_keys(balances),
        balance_map(zeros) == crate::domain::port::outbound::ledger::zeroed(
            balance_map(balances),
        ),
{
    assert(balance_keys(zeros) =~= balance_keys(balances));
    assert(balance_map(zeros) =~= crate::domain::port::outbound::ledger::zeroed(
        balance_map(balances),
    ));
}

impl InMemoryRepository {
    /// Files a new client under the next id.
    fn insert_client(&mut self, req: &CreateClientRequest) -> (r: Result<Client, ClientError>)
        requires
            old(self).well_formed(),
        ensures
            final(self).well_formed(),
            final(self).ledger().well_formed(),
            final(self).journal@ == old(self).journal@,
            crate::domain::port::outbound::client_balance_repository::client_created(
                old(self).ledger(),
                req@,
                r,
                final(self).ledger(),
                true,
            ),
    {
        let ghost before = self.clients@;
        match self.find_document(req.document()) {
            Some(i) => {
                proof {
                    lemma_key_index(client_keys(before), i as int);
                    assert(self.ledger().clients.contains_key(before[i as int]@.id));
                }
                return Err(ClientError::Duplicate { document: req.document().to_string() });
            },
            None => {
                proof {
                    lemma_document_unknown(before, req@.document);
                }
            },
        }
        if self.id_counter == usize::MAX {
            return Err(ClientError::Unknown("no client id is left".to_string()));
        }
        let id = ClientId::from_number(self.id_counter);
        let client = Client::new(
            id,
            req.name().clone(),
            *req.birth_date(),
            req.document().clone(),
            req.country().clone(),
        );
        self.clients.push(client.clone());
        self.id_counter = self.id_counter + 1;
        proof {
            let after = self.clients@;
            let keys = client_keys(before);
            let new_keys = client_keys(after);
            assert(new_keys =~= keys.push(id@));
            assert forall|key: usize| #[trigger]
                has_key(new_keys, key) <==> (has_key(keys, key) || key == id@) by {
                if has_key(keys, key) {
                    let k = key_index(keys, key);
                    assert(new_keys[k] == key);
                }
                if key == id@ {
                    assert(new_keys[keys.len() as int] == key);
                }
            }
            assert forall|key: usize| has_key(keys, key) implies #[trigger] client_map(after)[key]
                == client_map(before)[key] by {
                let k = key_index(keys, key);
                lemma_key_index(new_keys, k);
            }
            lemma_key_index(new_keys, keys.len() as int);
            assert(client_map(after) =~= client_map(before).insert(id@, client@));
            self.lemma_ledger_well_formed();
        }
        Ok(client)
        }

    /// Opens the balance of a client, at zero.
    fn open_balance(&mut self, client_id: &ClientId) -> (r: Result<Balance, ClientError>)
        requires
            old(self).well_formed(),
        ensures
            final(self).well_formed(),
            final(self).ledger().well_formed(),
            final(self).journal@ == old(self).journal@,
            crate::domain::port::outbound::client_balance_repository::balance_opened(
                old(self).ledger(),
                client_id@,
                r,
                final(self).ledger(),
                true,
            ),
    {
        let ghost before = self.client_balances@;
        match self.find_client(client_id.number()) {
            None => {
                return Err(ClientError::NotFoundById { id_document: *client_id });
            },
            Some(i) => {
                assert(client_keys(self.clients@)[i as int] == client_id@);
            },
        }
        let balance = Balance::new(*client_id, MonetaryAmount::zero());
        match find_balance(&self.client_balances, client_id.number()) {
            Some(k) => {
                self.client_balances.set(k, balance);
                proof {
                    lemma_balance_replaced(before, k as int, balance);
                }
            },
            None => {
                self.client_balances.push(balance);
                proof {
                    lemma_balance_added(before, balance);
                }
            },
        }
        proof {
            self.lemma_ledger_well_formed();
        }
        Ok(balance)
        }

    /// Takes a client out.
    fn remove_client(&mut self, client_id: &ClientId) -> (r: Result<(), ClientError>)
        requires
            old(self).well_formed(),
        ensures
            final(self).well_formed(),
            final(self).ledger().well_formed(),
            final(self).journal@ == old(self).journal@,
            crate::domain::port::outbound::client_balance_repository::client_deleted(
                old(self).ledger(),
                client_id@,
                r,
                final(self).ledger(),
                true,
            ),
    {
        let ghost before = self.clients@;
        match self.find_client(client_id.number()) {
            Some(i) => {
                self.clients.remove(i);
                proof {
                    lemma_client_removed(before, i as int);
                    self.lemma_ledger_well_formed();
                }
            },
            None => {
                assert(client_map(before).remove(client_id@) =~= client_map(before));
            },
        }
        Ok(())
        }

    /// Sets every balance to zero and returns what they were.
    fn zero_balances_of_all(&mut self) -> (r: Result<Vec<Balance>, ClientError>)
        requires
            old(self).well_formed(),
        ensures
            final(self).well_formed(),
            final(self).ledger().well_formed(),
            final(self).journal@ == old(self).journal@,
            crate::domain::port::outbound::client_balance_repository::balances_reset(
                old(self).ledger(),
                r,
                final(self).ledger(),
                true,
            ),
    {
        let old_balances = copy_balances(&self.client_balances);
        let zeros = zero_balances(&self.client_balances);
        proof {
            lemma_snapshot(old_balances@);
            lemma_zeroed(old_balances@, zeros@);
        }
        self.client_balances = zeros;
        proof {
            self.lemma_ledger_well_formed();
        }
        Ok(old_balances)
        }

    /// Adds old balances to the current ones.
    fn add_old_balances(&mut self, old_balances: Vec<Balance>) -> (r: Result<(), ClientError>)
        requires
            old(self).well_formed(),
        ensures
            final(self).well_formed(),
            final(self).ledger().well_formed(),
            final(self).journal@ == old(self).journal@,
            crate::domain::port::outbound::client_balance_repository::balances_merged(
                old(self).ledger(),
                crate::domain::port::outbound::ledger::balance_views(old_balances@),
                r,
                final(self).ledger(),
                true,
            ),
    {
        let ghost before = self.client_balances@;
        let ghost views = crate::domain::port::outbound::ledger::balance_views(old_balances@);
        let mut actual_client_balances = copy_balances(&self.client_balances);
        let mut i: usize = 0;
        proof {
            assert(views.skip(0) =~= views);
            self.lemma_ledger_well_formed();
        }
        while i < old_balances.len()
            invariant
                i <= old_balances@.len(),
                *self == *old(self),
                self.well_formed(),
                self.ledger().well_formed(),
                before == self.client_balances@,
                views == crate::domain::port::outbound::ledger::balance_views(old_balances@),
                distinct(balance_keys(before)),
                balance_keys(actual_client_balances@) == balance_keys(before),
                crate::domain::port::outbound::ledger::merged(balance_map(before), views)
                    == crate::domain::port::outbound::ledger::merged(
                    balance_map(actual_client_balances@),
                    views.skip(i as int),
                ),
            decreases old_balances@.len() - i,
        {
            let ghost current = actual_client_balances@;
            let ghost rest = views.skip(i as int);
            let old_client_balance = old_balances[i];
            proof {
                assert(rest.first() == old_client_balance@);
                assert(rest.drop_first() =~= views.skip(i + 1));
            }
            match find_balance(&actual_client_balances, old_client_balance.client_id().number()) {
                Some(k) => {
                    proof {
                        lemma_key_index(balance_keys(current), k as int);
                    }
                    let actual_client_balance = actual_client_balances[k];
                    match old_client_balance.balance().checked_add(
                        actual_client_balance.balance(),
                    ) {
                        Some(new_balance) => {
                            let merged_balance = Balance::new(
                                *old_client_balance.client_id(),
                                new_balance,
                            );
                            actual_client_balances.set(k, merged_balance);
                            proof {
                                lemma_balance_replaced(current, k as int, merged_balance);
                            }
                        },
                        None => {
                            return Err(
                                ClientError::Unknown("a balance cannot hold the sum".to_string()),
                            );
                        },
                    }
                },
                None => {},
            }
            i = i + 1;
        }
        self.client_balances = actual_client_balances;
        proof {
            assert(views.skip(i as int).len() == 0);
            self.lemma_ledger_well_formed();
        }
        Ok(())
        }
}

impl ClientBalanceRepository for InMemoryRepository {
    closed spec fn journal(&self) -> Journal {
        Journal { calls: self.journal@ }
    }

    closed spec fn ledger(&self) -> Ledger {
        Ledger {
            clients: client_map(self.clients@),
            balances: balance_map(self.client_balances@),
            next_id: if self.id_counter < usize::MAX {
                Some(self.id_counter)
            } else {
                None
            },
        }
    }

    open spec fn dependable(&self) -> bool {
        true
    }

    closed spec fn well_formed(&self) -> bool {
        &&& distinct(client_keys(self.clients@))
        &&& distinct(balance_keys(self.client_balances@))
        &&& below(client_keys(self.clients@), self.id_counter)
        &&& below(balance_keys(self.client_balances@), self.id_counter)
        &&& documents_distinct(self.clients@)
    }

    fn create_client(&mut self, req: &CreateClientRequest) -> (r: Result<Client, ClientError>) {
        let r = self.insert_client(req);
        self.journal = Ghost(
            self.journal@.push(
                StoreCall::CreateClient {
                    request: req@,
                    answer: crate::domain::port::outbound::client_balance_repository::client_answer(
                        r,
                    ),
                },
            ),
        );
        proof {
            self.lemma_ledger_well_formed();
        }
        r
    }

    fn init_client_balance(&mut self, client_id: &ClientId) -> (r: Result<Balance, ClientError>) {
        let r = self.open_balance(client_id);
        self.journal = Ghost(
            self.journal@.push(
                StoreCall::InitClientBalance {
                    client_id: client_id@,
                    answer: crate::domain::port::outbound::client_balance_repository::balance_answer(
                        r,
                    ),
                },
            ),
        );
        proof {
            self.lemma_ledger_well_formed();
        }
        r
    }

    fn delete_client(&mut self, client_id: &ClientId) -> (r: Result<(), ClientError>) {
        let r = self.remove_client(client_id);
        self.journal = Ghost(
            self.journal@.push(
                StoreCall::DeleteClient {
                    client_id: client_id@,
                    answer: crate::domain::port::outbound::client_balance_repository::plain_answer(
                        r,
                    ),
                },
            ),
        );
        proof {
            self.lemma_ledger_well_formed();
        }
        r
    }

    fn client_id_exists(&self, client_id: &ClientId) -> (r: Result<bool, ClientError>) {
        match self.find_client(client_id.number()) {
            Some(i) => {
                assert(client_keys(self.clients@)[i as int] == client_id@);
                Ok(true)
            },
            None => Ok(false),
        }
    }

    fn get_client_by_document(&self, document: &Document) -> (r: Result<Client, ClientError>) {
        match self.find_document(document) {
            Some(i) => {
                proof {
                    lemma_key_index(client_keys(self.clients@), i as int);
                }
                Ok(self.clients[i].clone())
            },
            None => {
                proof {
                    lemma_document_unknown(self.clients@, document@);
                }
                Err(ClientError::NotFoundByDocument { document: document.clone() })
            },
        }
    }

    fn credit_balance(&mut self, req: &CreditTransactionRequest) -> (r: Result<
        Balance,
        ClientError,
    >) {
        let r = self.update_balance(req.client_id(), req.amount());
        self.journal = Ghost(
            self.journal@.push(
                StoreCall::CreditBalance {
                    client_id: req@.client_id,
                    amount: req@.amount,
                    answer: crate::domain::port::outbound::client_balance_repository::balance_answer(
                        r,
                    ),
                },
            ),
        );
        proof {
            self.lemma_ledger_well_formed();
        }
        r
    }

    fn debit_balance(&mut self, req: &DebitTransactionRequest) -> (r: Result<
        Balance,
        ClientError,
    >) {
        let r = self.update_balance(req.client_id(), req.amount());
        self.journal = Ghost(
            self.journal@.push(
                StoreCall::DebitBalance {
                    client_id: req@.client_id,
                    amount: req@.amount,
                    answer: crate::domain::port::outbound::client_balance_repository::balance_answer(
                        r,
                    ),
                },
            ),
        );
        proof {
            self.lemma_ledger_well_formed();
        }
        r
    }

    fn get_balance_by_client_id(&self, req: &GetClientRequest) -> (r: Result<
        Balance,
        ClientError,
    >) {
        match find_balance(&self.client_balances, req.client_id().number()) {
            Some(i) => {
                proof {
                    lemma_key_index(balance_keys(self.client_balances@), i as int);
                }
                Ok(self.client_balances[i])
            },
            None => Err(ClientError::NotFoundById { id_document: *req.client_id() }),
        }
    }

    fn get_client(&self, req: &GetClientRequest) -> (r: Result<Client, ClientError>) {
        match self.find_client(req.client_id().number()) {
            Some(i) => {
                proof {
                    lemma_key_index(client_keys(self.clients@), i as int);
                }
                Ok(self.clients[i].clone())
            },
            None => Err(ClientError::NotFoundById { id_document: *req.client_id() }),
        }
    }

    fn are_balances_empty(&self) -> (r: Result<bool, ClientError>) {
        let empty = self.client_balances.len() == 0;
        proof {
            let keys = balance_keys(self.client_balances@);
            if !empty {
                assert(keys[0] == keys[0]);
                assert(self.ledger().balances.contains_key(keys[0]));
            }
        }
        Ok(empty)
    }

    fn reset_all_balances_to_zero(&mut self) -> (r: Result<Vec<Balance>, ClientError>) {
        let r = self.zero_balances_of_all();
        self.journal = Ghost(
            self.journal@.push(
                StoreCall::ResetAllBalancesToZero {
                    answer: crate::domain::port::outbound::client_balance_repository::snapshot_answer(
                        r,
                    ),
                },
            ),
        );
        proof {
            self.lemma_ledger_well_formed();
        }
        r
    }

    fn merge_old_balances(&mut self, old_balances: Vec<Balance>) -> (r: Result<(), ClientError>) {
        let ghost given = crate::domain::port::outbound::ledger::balance_views(old_balances@);
        let r = self.add_old_balances(old_balances);
        self.journal = Ghost(
            self.journal@.push(
                StoreCall::MergeOldBalances {
                    old_balances: given,
                    answer: crate::domain::port::outbound::client_balance_repository::plain_answer(
                        r,
                    ),
                },
            ),
        );
        proof {
            self.lemma_ledger_well_formed();
        }
        r
    }
}

} // verus!
