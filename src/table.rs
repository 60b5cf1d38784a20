use vstd::prelude::*;

use crate::item::{fresh_row, marked_deleted, with_fields, Item, NewItem};

verus! {

/// Why a statement on the item table did not complete.
#[derive(Debug, PartialEq, Eq, Structural)]
pub enum StoreError {
    /// No row carries the identifier.
    NotFound,
    /// A row already carries the identifier given to an insert.
    DuplicateId,
    /// The sequence counter has no value left to assign.
    SequenceExhausted,
    /// Any other failure of the store: a connection, a constraint, an exhausted pool.
    Failure,
}

/// No two rows carry the same identifier.
pub open spec fn ids_unique(rows: Seq<Item>) -> bool {
    forall|i: int, j: int|
        0 <= i < rows.len() && 0 <= j < rows.len() && i != j ==> rows[i].id != rows[j].id
}

/// Sequence numbers grow strictly in scan order.
pub open spec fn sequences_increasing(rows: Seq<Item>) -> bool {
    forall|i: int, j: int|
        0 <= i < j < rows.len() ==> rows[i].sequence_id < rows[j].sequence_id
}

/// Some row carries `id`.
pub open spec fn has_id(rows: Seq<Item>, id: u128) -> bool {
    exists|i: int| 0 <= i < rows.len() && rows[i].id == id
}

/// The position of a row that carries `id`.
pub open spec fn index_of(rows: Seq<Item>, id: u128) -> int
    recommends
        has_id(rows, id),
{
    choose|i: int| 0 <= i < rows.len() && rows[i].id == id
}

/// Whether a row is shown by list and get-one.
pub open spec fn is_visible(row: Item) -> bool {
    !row.is_deleted
}

/// The rows that are not soft-deleted, in scan order.
pub open spec fn visible_rows(rows: Seq<Item>) -> Seq<Item> {
    rows.filter(|row: Item| is_visible(row))
}

/// The row that carries `id`, whatever its deletion flag.
pub open spec fn lookup(rows: Seq<Item>, id: u128) -> Option<Item> {
    if has_id(rows, id) {
        Some(rows[index_of(rows, id)])
    } else {
        None
    }
}

/// The row that carries `id`, if it is not soft-deleted.
pub open spec fn lookup_visible(rows: Seq<Item>, id: u128) -> Option<Item> {
    match lookup(rows, id) {
        Some(row) => if is_visible(row) {
            Some(row)
        } else {
            None
        },
        None => None,
    }
}

/// The rows after the row that carries `id` takes the writable fields of `fields`.
pub open spec fn updated_rows(rows: Seq<Item>, id: u128, fields: NewItem) -> Seq<Item> {
    if has_id(rows, id) {
        let i = index_of(rows, id);
        rows.update(i, with_fields(rows[i], fields))
    } else {
        rows
    }
}

/// The rows after the row that carries `id` is flagged as deleted.
pub open spec fn deleted_rows(rows: Seq<Item>, id: u128) -> Seq<Item> {
    if has_id(rows, id) {
        let i = index_of(rows, id);
        rows.update(i, marked_deleted(rows[i]))
    } else {
        rows
    }
}

/// With unique identifiers, the row found at `i` is the one that `index_of` picks.
pub proof fn lemma_index_of_unique(rows: Seq<Item>, i: int)
    requires
        ids_unique(rows),
        0 <= i < rows.len(),
    ensures
        has_id(rows, rows[i].id),
        index_of(rows, rows[i].id) == i,
{
    assert(has_id(rows, rows[i].id));
}

/// An in-memory item table: rows in insertion order and the next sequence number.
pub struct ItemTable {
    rows: Vec<Item>,
    next_sequence: i64,
}

impl View for ItemTable {
    type V = Seq<Item>;

    closed spec fn view(&self) -> Seq<Item> {
        self.rows@
    }
}

impl ItemTable {
    /// The sequence number that the next insert assigns.
    pub closed spec fn next_sequence(&self) -> i64 {
        self.next_sequence
    }

    /// Identifiers are unique, and sequence numbers increase in scan order and
    /// stay below the next one to be assigned.
    pub open spec fn wf(&self) -> bool {
        &&& ids_unique(self@)
        &&& sequences_increasing(self@)
        &&& forall|i: int| 0 <= i < self@.len() ==> #[trigger] self@[i].sequence_id < self.next_sequence()
        &&& 1 <= self.next_sequence()
    }

    /// An empty table whose first sequence number is 1.
    pub fn new() -> (r: ItemTable)
        ensures
            r.wf(),
            r@ == Seq::<Item>::empty(),
            r.next_sequence() == 1,
    {
        ItemTable { rows: Vec::new(), next_sequence: 1 }
    }

    /// The position of the row that carries `id`.
    fn position(&self, id: u128) -> (r: Option<usize>)
        requires
            self.wf(),
        ensures
            match r {
                Some(i) => i < self@.len() && self@[i as int].id == id && index_of(self@, id) == i,
                None => !has_id(self@, id),
            },
    {
        let mut i: usize = 0;
        while i < self.rows.len()
            invariant
                self.wf(),
                i <= self.rows@.len(),
                forall|k: int| 0 <= k < i ==> self.rows@[k].id != id,
            decreases self.rows@.len() - i,
        {
            if self.rows[i].id == id {
                proof {
                    lemma_index_of_unique(self@, i as int);
                }
                return Some(i);
            }
            i += 1;
        }
        None
    }

    /// Inserts `fields` under `id` with the next sequence number, not deleted,
    /// created at `now`, never updated; returns the stored record.
    pub fn insert(&mut self, fields: NewItem, id: u128, now: i64) -> (r: Result<Item, StoreError>)
        requires
            old(self).wf(),
        ensures
            final(self).wf(),
            has_id(old(self)@, id) ==> r == Err::<Item, StoreError>(StoreError::DuplicateId)
                && *final(self) == *old(self),
            !has_id(old(self)@, id) && old(self).next_sequence() == i64::MAX ==> r == Err::<
                Item,
                StoreError,
            >(StoreError::SequenceExhausted) && *final(self) == *old(self),
            !has_id(old(self)@, id) && old(self).next_sequence() < i64::MAX ==> {
                let row = fresh_row(fields, id, old(self).next_sequence(), now);
                &&& r == Ok::<Item, StoreError>(row)
                &&& final(self)@ == old(self)@.push(row)
                &&& final(self).next_sequence() == old(self).next_sequence() + 1
            },
    {
        if let Some(_) = self.position(id) {
            return Err(StoreError::DuplicateId);
        }
        if self.next_sequence == i64::MAX {
            return Err(StoreError::SequenceExhausted);
        }
        let row = Item {
            id,
            sequence_id: self.next_sequence,
            name: fields.name,
            unit: fields.unit,
            stock_bits: fields.stock_bits,
            rack: fields.rack,
            location: fields.location,
            is_deleted: false,
            created_at: now,
            updated_at: None,
        };
        let stored = row.duplicate();
        self.rows.push(stored);
        self.next_sequence = self.next_sequence + 1;
        proof {
            assert forall|i: int, j: int|
                0 <= i < self@.len() && 0 <= j < self@.len() && i != j implies self@[i].id
                != self@[j].id by {
                if i == self@.len() - 1 {
                    assert(self@[j] == old(self)@[j]);
                } else if j == self@.len() - 1 {
                    assert(self@[i] == old(self)@[i]);
                }
            }
        }
        Ok(row)
    }

    /// Every row that is not soft-deleted, in scan order.
    pub fn list_visible(&self) -> (r: Vec<Item>)
        ensures
            r@ == visible_rows(self@),
    {
        let mut out: Vec<Item> = Vec::new();
        let mut i: usize = 0;
        while i < self.rows.len()
            invariant
                i <= self.rows@.len(),
                out@ == visible_rows(self@.subrange(0, i as int)),
            decreases self.rows@.len() - i,
        {
            proof {
                assert(self@.subrange(0, i + 1) == self@.subrange(0, i as int).push(self@[i as int]));
                self@.subrange(0, i as int).lemma_filter_push(self@[i as int], |row: Item| is_visible(row));
            }
            if !self.rows[i].is_deleted {
                out.push(self.rows[i].duplicate());
            }
            i += 1;
        }
        proof {
            assert(self@.subrange(0, self@.len() as int) == self@);
        }
        out
    }

    /// The row that carries `id`, whatever its deletion flag.
    pub fn find(&self, id: u128) -> (r: Option<Item>)
        requires
            self.wf(),
        ensures
            r == lookup(self@, id),
    {
        match self.position(id) {
            Some(i) => Some(self.rows[i].duplicate()),
            None => None,
        }
    }

    /// The row that carries `id` if it is not soft-deleted, else `NotFound`.
    pub fn find_visible(&self, id: u128) -> (r: Result<Item, StoreError>)
        requires
            self.wf(),
        ensures
            r == match lookup_visible(self@, id) {
                Some(row) => Ok::<Item, StoreError>(row),
                None => Err(StoreError::NotFound),
            },
    {
        match self.position(id) {
            Some(i) => {
                if self.rows[i].is_deleted {
                    Err(StoreError::NotFound)
                } else {
                    Ok(self.rows[i].duplicate())
                }
            },
            None => Err(StoreError::NotFound),
        }
    }
    /// Overwrites the five writable fields of the row that carries `id`, deleted
    /// or not, and returns the updated record; `NotFound` when no row carries it.
    pub fn update(&mut self, id: u128, fields: NewItem) -> (r: Result<Item, StoreError>)
        requires
            old(self).wf(),
        ensures
            final(self).wf(),
            final(self)@ == updated_rows(old(self)@, id, fields),
            final(self).next_sequence() == old(self).next_sequence(),
            r == match lookup(old(self)@, id) {
                Some(row) => Ok::<Item, StoreError>(with_fields(row, fields)),
                None => Err(StoreError::NotFound),
            },
    {
        match self.position(id) {
            Some(i) => {
                let ghost before = self@;
                let mut row = self.rows[i].duplicate();
                row.name = fields.name;
                row.unit = fields.unit;
                row.stock_bits = fields.stock_bits;
                row.rack = fields.rack;
                row.location = fields.location;
                let stored = row.duplicate();
                self.rows.set(i, stored);
                proof {
                    assert(forall|k: int|
                        0 <= k < self@.len() ==> #[trigger] self@[k].id == before[k].id
                            && self@[k].sequence_id == before[k].sequence_id);
                }
                Ok(row)
            },
            None => Err(StoreError::NotFound),
        }
    }

    /// Sets the deletion flag of the row that carries `id`, whatever it was,
    /// and returns the flagged record; `NotFound` when no row carries it.
    pub fn soft_delete(&mut self, id: u128) -> (r: Result<Item, StoreError>)
        requires
            old(self).wf(),
        ensures
            final(self).wf(),
            final(self)@ == deleted_rows(old(self)@, id),
            final(self).next_sequence() == old(self).next_sequence(),
            r == match lookup(old(self)@, id) {
                Some(row) => Ok::<Item, StoreError>(marked_deleted(row)),
                None => Err(StoreError::NotFound),
            },
    {
        match self.position(id) {
            Some(i) => {
                let ghost before = self@;
                let mut row = self.rows[i].duplicate();
                row.is_deleted = true;
                let stored = row.duplicate();
                self.rows.set(i, stored);
                proof {
                    assert(forall|k: int|
                        0 <= k < self@.len() ==> #[trigger] self@[k].id == before[k].id
                            && self@[k].sequence_id == before[k].sequence_id);
                }
                Ok(row)
            },
            None => Err(StoreError::NotFound),
        }
    }
}

} // verus!
