use vstd::prelude::*;

use crate::item::{fresh_row, holds_fields, marked_deleted, with_fields, Item, NewItem};
use crate::table::{
    deleted_rows, has_id, ids_unique, index_of, is_visible, lemma_index_of_unique, lookup, lookup_visible,
    updated_rows, visible_rows,
};

verus! {

/// A created record echoes its payload's five fields, carries the given
/// identifier, sequence number and creation time, is not deleted, has never
/// been updated, and is from then on what get-one returns for its identifier.
pub proof fn law_create_echoes(rows: Seq<Item>, fields: NewItem, id: u128, seq: i64, now: i64)
    requires
        ids_unique(rows),
        !has_id(rows, id),
    ensures
        ({
            let row = fresh_row(fields, id, seq, now);
            &&& holds_fields(row, fields)
            &&& row.id == id
            &&& row.sequence_id == seq
            &&& row.created_at == now
            &&& !row.is_deleted
            &&& row.updated_at is None
            &&& ids_unique(rows.push(row))
            &&& lookup_visible(rows.push(row), id) == Some(row)
        }),
{
    let row = fresh_row(fields, id, seq, now);
    let after = rows.push(row);
    assert forall|i: int, j: int|
        0 <= i < after.len() && 0 <= j < after.len() && i != j implies after[i].id != after[j].id by {
        if i == rows.len() {
            assert(after[j] == rows[j]);
        } else if j == rows.len() {
            assert(after[i] == rows[i]);
        } else {
            assert(after[i] == rows[i] && after[j] == rows[j]);
        }
    }
    lemma_index_of_unique(after, rows.len() as int);
}

/// List shows every row that is not soft-deleted, and no row that carries the
/// identifier of a soft-deleted one.
pub proof fn law_list_shows_exactly_visible(rows: Seq<Item>)
    requires
        ids_unique(rows),
    ensures
        forall|i: int|
            0 <= i < rows.len() && !rows[i].is_deleted ==> visible_rows(rows).contains(
                #[trigger] rows[i],
            ),
        forall|i: int, k: int|
            0 <= i < rows.len() && rows[i].is_deleted && 0 <= k < visible_rows(rows).len()
                ==> #[trigger] visible_rows(rows)[k].id != #[trigger] rows[i].id,
{
    broadcast use vstd::seq_lib::group_filter_ensures;

    let shown = visible_rows(rows);
    assert forall|i: int|
        0 <= i < rows.len() && !rows[i].is_deleted implies shown.contains(#[trigger] rows[i]) by {
        rows.lemma_filter_contains(|row: Item| is_visible(row), i);
    }
    assert forall|i: int, k: int|
        0 <= i < rows.len() && rows[i].is_deleted && 0 <= k < shown.len() implies #[trigger] shown[k].id
        != #[trigger] rows[i].id by {
        let e = shown[k];
        rows.lemma_filter_pred(|row: Item| is_visible(row), k);
        assert(shown.contains(e));
        rows.lemma_filter_contains_rev(|row: Item| is_visible(row), e);
        let j = choose|j: int| 0 <= j < rows.len() && rows[j] == e;
        if e.id == rows[i].id {
            assert(i == j);
        }
    }
}

/// Get-one finds nothing for an identifier that no row carries or whose row
/// is soft-deleted, and returns the row itself when it is visible.
pub proof fn law_get_one(rows: Seq<Item>, id: u128)
    requires
        ids_unique(rows),
    ensures
        !has_id(rows, id) ==> lookup_visible(rows, id) is None,
        forall|i: int|
            0 <= i < rows.len() && #[trigger] rows[i].id == id ==> lookup_visible(rows, id) == if rows[i].is_deleted {
                None
            } else {
                Some(rows[i])
            },
{
    assert forall|i: int| 0 <= i < rows.len() && #[trigger] rows[i].id == id implies index_of(rows, id)
        == i by {
        lemma_index_of_unique(rows, i);
    }
}

/// Update overwrites exactly the five writable fields of the row that carries
/// the identifier, deleted or not: identifier, sequence number, timestamps and
/// deletion flag stay, every other row stays, and a lookup then returns the
/// new values.
pub proof fn law_update_overwrites_fields(rows: Seq<Item>, id: u128, fields: NewItem)
    requires
        ids_unique(rows),
        has_id(rows, id),
    ensures
        ({
            let before = rows[index_of(rows, id)];
            let after = updated_rows(rows, id, fields);
            let row = with_fields(before, fields);
            &&& holds_fields(row, fields)
            &&& row.id == before.id
            &&& row.sequence_id == before.sequence_id
            &&& row.created_at == before.created_at
            &&& row.updated_at == before.updated_at
            &&& row.is_deleted == before.is_deleted
            &&& ids_unique(after)
            &&& after.len() == rows.len()
            &&& lookup(after, id) == Some(row)
            &&& forall|k: int| 0 <= k < rows.len() && k != index_of(rows, id) ==> after[k] == rows[k]
        }),
{
    let i = index_of(rows, id);
    let after = updated_rows(rows, id, fields);
    assert(forall|k: int| 0 <= k < after.len() ==> #[trigger] after[k].id == rows[k].id);
    lemma_index_of_unique(after, i);
}

/// Delete flags the row that carries the identifier, whatever its flag was:
/// get-one then finds nothing for it, a lookup that ignores the flag still
/// finds the row with the flag set, and deleting again changes nothing.
pub proof fn law_delete_hides(rows: Seq<Item>, id: u128)
    requires
        ids_unique(rows),
        has_id(rows, id),
    ensures
        ({
            let before = rows[index_of(rows, id)];
            let after = deleted_rows(rows, id);
            &&& ids_unique(after)
            &&& lookup_visible(after, id) is None
            &&& lookup(after, id) == Some(marked_deleted(before))
            &&& marked_deleted(before).is_deleted
            &&& deleted_rows(after, id) == after
        }),
{
    let i = index_of(rows, id);
    let after = deleted_rows(rows, id);
    assert(forall|k: int| 0 <= k < after.len() ==> #[trigger] after[k].id == rows[k].id);
    lemma_index_of_unique(after, i);
    assert(after.update(i, marked_deleted(after[i])) =~= after);
}

} // verus!
