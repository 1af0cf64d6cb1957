use vstd::prelude::*;

use crate::item::{Item, Row};

verus! {

/// The abstract table: identifier to `(name, description)`.
pub type Table = Map<u128, Row>;

/// The table after an insert of `row` under `id`: a taken identifier is a
/// primary-key violation and changes nothing.
pub open spec fn inserted(t: Table, id: u128, row: Row) -> Table {
    if t.contains_key(id) {
        t
    } else {
        t.insert(id, row)
    }
}

/// The table after an update of the row under `id`: an absent identifier
/// matches no row and changes nothing.
pub open spec fn updated(t: Table, id: u128, row: Row) -> Table {
    if t.contains_key(id) {
        t.insert(id, row)
    } else {
        t
    }
}

/// The table after a delete of the row under `id`.
pub open spec fn deleted(t: Table, id: u128) -> Table {
    t.remove(id)
}

/// How many rows a statement keyed on `id` touches.
pub open spec fn affected(t: Table, id: u128) -> u64 {
    if t.contains_key(id) {
        1
    } else {
        0
    }
}

/// No two items of `items` share an identifier.
pub open spec fn distinct_ids(items: Seq<Item>) -> bool {
    forall|i: int, j: int| 0 <= i < j < items.len() ==> items[i].id != items[j].id
}

/// `items` lists the table exactly: each row once, in some order.
pub open spec fn lists(items: Seq<Item>, t: Table) -> bool {
    &&& distinct_ids(items)
    &&& forall|i: int|
        0 <= i < items.len() ==> t.contains_key(#[trigger] items[i].id) && t[items[i].id]
            == items[i].row()
    &&& forall|k: u128| t.contains_key(k) ==> exists|i: int| 0 <= i < items.len() && #[trigger] items[i].id == k
}

/// One statement against the table.
#[derive(Debug)]
pub enum Statement {
    /// Add a row; fails if the identifier is taken.
    Insert(Item),
    /// Fetch every row.
    SelectAll,
    /// Fetch the row with this identifier.
    SelectOne(u128),
    /// Set name and description of the row with the item's identifier.
    Update(Item),
    /// Remove the row with this identifier.
    Delete(u128),
}

/// What the store answers to a statement.
#[derive(Debug)]
pub enum StoreReply {
    /// The statement changed this many rows.
    Affected(u64),
    /// The rows fetched.
    Rows(Vec<Item>),
    /// The statement failed.
    Failed,
}

/// The table after `s` has run on `t`.
pub open spec fn effect(t: Table, s: Statement) -> Table {
    match s {
        Statement::Insert(it) => inserted(t, it.id, it.row()),
        Statement::Update(it) => updated(t, it.id, it.row()),
        Statement::Delete(id) => deleted(t, id),
        Statement::SelectAll => t,
        Statement::SelectOne(_) => t,
    }
}

/// `r` is what a store holding `t` answers to `s`.
pub open spec fn answers(t: Table, s: Statement, r: StoreReply) -> bool {
    match s {
        Statement::Insert(it) => if t.contains_key(it.id) {
            r is Failed
        } else {
            r == StoreReply::Affected(1)
        },
        Statement::Update(it) => r == StoreReply::Affected(affected(t, it.id)),
        Statement::Delete(id) => r == StoreReply::Affected(affected(t, id)),
        Statement::SelectAll => r matches StoreReply::Rows(v) && lists(v@, t),
        Statement::SelectOne(id) => r matches StoreReply::Rows(v) && if t.contains_key(id) {
            v@.len() == 1 && v@[0].id == id && v@[0].row() == t[id]
        } else {
            v@.len() == 0
        },
    }
}

/// Some item of `items` has identifier `id` and fields `row`.
pub open spec fn listed(items: Seq<Item>, id: u128, row: Row) -> bool {
    exists|j: int| 0 <= j < items.len() && #[trigger] items[j].id == id && items[j].row() == row
}

/// An in-memory item table with the semantics of the relational one: rows
/// keyed by a unique identifier, in no particular order.
pub struct MemoryStore {
    rows: Vec<Item>,
    table: Ghost<Table>,
}

impl View for MemoryStore {
    type V = Table;

    closed spec fn view(&self) -> Table {
        self.table@
    }
}

impl MemoryStore {
    /// The rows held list the abstract table exactly.
    pub closed spec fn wf(&self) -> bool {
        lists(self.rows@, self.table@)
    }

    pub fn new() -> (r: MemoryStore)
        ensures
            r.wf(),
            r@ == Map::<u128, Row>::empty(),
    {
        MemoryStore { rows: Vec::new(), table: Ghost(Map::empty()) }
    }

    /// The number of rows.
    pub fn len(&self) -> (r: usize)
        requires
            self.wf(),
        ensures
            r == self@.len(),
            self@.dom().finite(),
    {
        proof {
            self.lemma_len();
        }
        self.rows.len()
    }

    /// A well-formed store holds finitely many rows.
    pub proof fn lemma_finite(&self)
        requires
            self.wf(),
        ensures
            self@.dom().finite(),
    {
        self.lemma_len();
    }

    proof fn lemma_len(&self)
        requires
            self.wf(),
        ensures
            self.rows@.len() == self@.len(),
            self@.dom().finite(),
    {
        let ids = Seq::new(self.rows@.len(), |i: int| self.rows@[i].id);
        assert(ids.no_duplicates());
        ids.unique_seq_to_set();
        assert(ids.to_set() =~= self@.dom()) by {
            assert forall|k: u128| self@.dom().contains(k) implies ids.to_set().contains(k) by {
                let i = choose|i: int| 0 <= i < self.rows@.len() && #[trigger] self.rows@[i].id == k;
                assert(ids[i] == k);
            }
        }
    }

    /// The position of the row with identifier `id`, if there is one.
    fn find(&self, id: u128) -> (r: Option<usize>)
        requires
            self.wf(),
        ensures
            match r {
                Some(i) => i < self.rows@.len() && self.rows@[i as int].id == id,
                None => !self@.contains_key(id),
            },
    {
        let mut i: usize = 0;
        while i < self.rows.len()
            invariant
                self.wf(),
                i <= self.rows@.len(),
                forall|j: int| 0 <= j < i ==> self.rows@[j].id != id,
            decreases self.rows@.len() - i,
        {
            if self.rows[i].id == id {
                return Some(i);
            }
            i = i + 1;
        }
        None
    }
    /// Adds `item` unless its identifier is taken; says whether it was added.
    pub fn insert(&mut self, item: Item) -> (r: bool)
        requires
            old(self).wf(),
        ensures
            final(self).wf(),
            r == !old(self)@.contains_key(item.id),
            final(self)@ == inserted(old(self)@, item.id, item.row()),
    {
        match self.find(item.id) {
            Some(_) => false,
            None => {
                let ghost id = item.id;
                let ghost row = item.row();
                let ghost before = self.rows@;
                self.rows.push(item);
                self.table = Ghost(self.table@.insert(id, row));
                proof {
                    let n = before.len() as int;
                    assert(self.rows@[n].id == id);
                    assert forall|k: u128| self.table@.contains_key(k) implies exists|i: int|
                        0 <= i < self.rows@.len() && #[trigger] self.rows@[i].id == k by {
                        if k != id {
                            let i = choose|i: int| 0 <= i < before.len() && #[trigger] before[i].id == k;
                            assert(self.rows@[i] == before[i]);
                        }
                    }
                }
                true
            },
        }
    }

    /// Copies of all rows, in no particular order.
    pub fn select_all(&self) -> (r: Vec<Item>)
        requires
            self.wf(),
        ensures
            lists(r@, self@),
    {
        let mut out: Vec<Item> = Vec::new();
        let mut i: usize = 0;
        while i < self.rows.len()
            invariant
                self.wf(),
                i <= self.rows@.len(),
                out@.len() == i,
                forall|j: int| 0 <= j < i ==> #[trigger] out@[j].id == self.rows@[j].id
                    && out@[j].row() == self.rows@[j].row(),
            decreases self.rows@.len() - i,
        {
            out.push(self.rows[i].duplicate());
            i = i + 1;
        }
        proof {
            assert forall|k: u128| self@.contains_key(k) implies exists|j: int|
                0 <= j < out@.len() && #[trigger] out@[j].id == k by {
                let j = choose|j: int| 0 <= j < self.rows@.len() && #[trigger] self.rows@[j].id == k;
                assert(out@[j].id == k);
            }
            assert forall|a: int, b: int| 0 <= a < b < out@.len() implies out@[a].id != out@[b].id by {
                assert(out@[a].id == self.rows@[a].id);
                assert(out@[b].id == self.rows@[b].id);
            }
        }
        out
    }

    /// A copy of the row with identifier `id`, if there is one.
    pub fn select_one(&self, id: u128) -> (r: Option<Item>)
        requires
            self.wf(),
        ensures
            r is Some <==> self@.contains_key(id),
            r matches Some(it) ==> it.id == id && it.row() == self@[id],
    {
        match self.find(id) {
            Some(i) => Some(self.rows[i].duplicate()),
            None => None,
        }
    }

    /// Sets the name and description of the row with identifier `id`; says
    /// how many rows that touched.
    pub fn update(&mut self, id: u128, name: String, description: String) -> (r: u64)
        requires
            old(self).wf(),
        ensures
            final(self).wf(),
            r == affected(old(self)@, id),
            final(self)@ == updated(old(self)@, id, (name@, description@)),
    {
        match self.find(id) {
            Some(i) => {
                let ghost before = self.rows@;
                let ghost row = (name@, description@);
                self.rows.set(i, Item { id, name, description });
                self.table = Ghost(self.table@.insert(id, row));
                proof {
                    assert forall|j: int| 0 <= j < self.rows@.len() && j != i implies
                        #[trigger] self.rows@[j] == before[j] by {}
                    assert forall|k: u128| self.table@.contains_key(k) implies exists|j: int|
                        0 <= j < self.rows@.len() && #[trigger] self.rows@[j].id == k by {
                        let j = choose|j: int| 0 <= j < before.len() && #[trigger] before[j].id == k;
                        if j == i {
                            assert(self.rows@[i as int].id == k);
                        } else {
                            assert(self.rows@[j] == before[j]);
                        }
                    }
                }
                1
            },
            None => 0,
        }
    }

    /// Removes the row with identifier `id`; says how many rows that touched.
    pub fn delete(&mut self, id: u128) -> (r: u64)
        requires
            old(self).wf(),
        ensures
            final(self).wf(),
            r == affected(old(self)@, id),
            final(self)@ == deleted(old(self)@, id),
    {
        match self.find(id) {
            Some(i) => {
                let ghost before = self.rows@;
                let _gone = self.rows.remove(i);
                self.table = Ghost(self.table@.remove(id));
                proof {
                    assert forall|j: int| 0 <= j < self.rows@.len() implies #[trigger] self.rows@[j]
                        == before[if j < i { j } else { j + 1 }] by {}
                    assert forall|k: u128| self.table@.contains_key(k) implies exists|j: int|
                        0 <= j < self.rows@.len() && #[trigger] self.rows@[j].id == k by {
                        let j = choose|j: int| 0 <= j < before.len() && #[trigger] before[j].id == k;
                        if j < i {
                            assert(self.rows@[j] == before[j]);
                        } else {
                            assert(j != i);
                            assert(self.rows@[j - 1] == before[j]);
                        }
                    }
                    assert forall|a: int, b: int| 0 <= a < b < self.rows@.len() implies
                        self.rows@[a].id != self.rows@[b].id by {
                        assert(self.rows@[a] == before[if a < i { a } else { a + 1 }]);
                        assert(self.rows@[b] == before[if b < i { b } else { b + 1 }]);
                    }
                    assert forall|j: int| 0 <= j < self.rows@.len() implies self.table@.contains_key(
                        #[trigger] self.rows@[j].id) && self.table@[self.rows@[j].id]
                        == self.rows@[j].row() by {
                        let jj = if j < i { j } else { j + 1 };
                        assert(self.rows@[j] == before[jj]);
                        assert(before[jj].id != id);
                    }
                }
                1
            },
            None => 0,
        }
    }

    /// Runs one statement.
    pub fn execute(&mut self, s: &Statement) -> (r: StoreReply)
        requires
            old(self).wf(),
        ensures
            final(self).wf(),
            final(self)@ == effect(old(self)@, *s),
            answers(old(self)@, *s, r),
    {
        match s {
            Statement::Insert(it) => {
                if self.insert(it.duplicate()) {
                    StoreReply::Affected(1)
                } else {
                    StoreReply::Failed
                }
            },
            Statement::SelectAll => StoreReply::Rows(self.select_all()),
            Statement::SelectOne(id) => match self.select_one(*id) {
                Some(it) => StoreReply::Rows(vec![it]),
                None => StoreReply::Rows(Vec::new()),
            },
            Statement::Update(it) => StoreReply::Affected(
                self.update(it.id, it.name.clone(), it.description.clone()),
            ),
            Statement::Delete(id) => StoreReply::Affected(self.delete(*id)),
        }
    }
}

} // verus!
