use vstd::prelude::*;

verus! {

/// A stored item record.
///
/// The identifier is the 128-bit value of the item's UUID, the stock is the
/// IEEE-754 bit pattern of the stocked quantity, and timestamps count
/// microseconds since the Unix epoch.
#[derive(Debug)]
pub struct Item {
    pub id: u128,
    pub sequence_id: i64,
    pub name: String,
    pub unit: String,
    pub stock_bits: u64,
    pub rack: Option<String>,
    pub location: Option<String>,
    pub is_deleted: bool,
    pub created_at: i64,
    pub updated_at: Option<i64>,
}

/// The writable fields of an item: the payload of both creation and update.
#[derive(Debug)]
pub struct NewItem {
    pub name: String,
    pub unit: String,
    pub stock_bits: u64,
    pub rack: Option<String>,
    pub location: Option<String>,
}

/// The five writable fields of `row` are those of `fields`.
pub open spec fn holds_fields(row: Item, fields: NewItem) -> bool {
    &&& row.name == fields.name
    &&& row.unit == fields.unit
    &&& row.stock_bits == fields.stock_bits
    &&& row.rack == fields.rack
    &&& row.location == fields.location
}

/// `row` with its five writable fields replaced by those of `fields`.
pub open spec fn with_fields(row: Item, fields: NewItem) -> Item {
    Item {
        name: fields.name,
        unit: fields.unit,
        stock_bits: fields.stock_bits,
        rack: fields.rack,
        location: fields.location,
        ..row
    }
}

/// `row` with its deletion flag set.
pub open spec fn marked_deleted(row: Item) -> Item {
    Item { is_deleted: true, ..row }
}

/// The record that inserting `fields` stores under `id`, with sequence number
/// `seq`, at time `now`.
pub open spec fn fresh_row(fields: NewItem, id: u128, seq: i64, now: i64) -> Item {
    Item {
        id,
        sequence_id: seq,
        name: fields.name,
        unit: fields.unit,
        stock_bits: fields.stock_bits,
        rack: fields.rack,
        location: fields.location,
        is_deleted: false,
        created_at: now,
        updated_at: None,
    }
}

/// A copy of an optional text.
fn copy_text(t: &Option<String>) -> (r: Option<String>)
    ensures
        r == *t,
{
    match t {
        Some(s) => Some(s.clone()),
        None => None,
    }
}

impl Item {
    /// A field-for-field copy of the record.
    pub fn duplicate(&self) -> (r: Item)
        ensures
            r == *self,
    {
        Item {
            id: self.id,
            sequence_id: self.sequence_id,
            name: self.name.clone(),
            unit: self.unit.clone(),
            stock_bits: self.stock_bits,
            rack: copy_text(&self.rack),
            location: copy_text(&self.location),
            is_deleted: self.is_deleted,
            created_at: self.created_at,
            updated_at: self.updated_at,
        }
    }
}

} // verus!
