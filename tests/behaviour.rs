use inventory::{
    create_item, delete_item, get_item, get_items, update_item, Body, Item, ItemTable, NewItem,
    StoreError,
};

const NOW: i64 = 1_700_000_000_000_000;

fn payload(name: &str, unit: &str, stock: f64, rack: Option<&str>, location: Option<&str>) -> NewItem {
    NewItem {
        name: name.to_string(),
        unit: unit.to_string(),
        stock_bits: stock.to_bits(),
        rack: rack.map(|s| s.to_string()),
        location: location.map(|s| s.to_string()),
    }
}

fn record(body: Body) -> Item {
    match body {
        Body::Record(item) => item,
        other => panic!("expected one record, got {:?}", other),
    }
}

fn inserted(table: &mut ItemTable, name: &str, id: u128) -> Item {
    table.insert(payload(name, "pcs", 1.0, None, None), id, NOW).unwrap()
}

#[test]
fn created_record_echoes_payload() {
    let mut table = ItemTable::new();
    let fields = payload("Bolt", "box", -2.5, Some("C3"), None);
    let item = table.insert(fields, 0xabc, NOW).unwrap();
    assert_eq!(item.id, 0xabc);
    assert_eq!(item.sequence_id, 1);
    assert_eq!(item.name, "Bolt");
    assert_eq!(item.unit, "box");
    assert_eq!(f64::from_bits(item.stock_bits), -2.5);
    assert_eq!(item.rack.as_deref(), Some("C3"));
    assert_eq!(item.location, None);
    assert!(!item.is_deleted);
    assert_eq!(item.created_at, NOW);
    assert_eq!(item.updated_at, None);
}

#[test]
fn sequence_numbers_increase() {
    let mut table = ItemTable::new();
    let a = inserted(&mut table, "a", 1);
    let b = inserted(&mut table, "b", 2);
    let c = inserted(&mut table, "c", 3);
    assert_eq!((a.sequence_id, b.sequence_id, c.sequence_id), (1, 2, 3));
}

#[test]
fn duplicate_identifier_is_internal_error() {
    let mut table = ItemTable::new();
    inserted(&mut table, "first", 7);
    let outcome = table.insert(payload("second", "pcs", 1.0, None, None), 7, NOW);
    assert_eq!(outcome.as_ref().err(), Some(&StoreError::DuplicateId));
    let resp = create_item(outcome);
    assert_eq!(resp.status, 500);
    assert!(matches!(resp.body, Body::Empty));
    assert_eq!(table.list_visible().len(), 1);
}

#[test]
fn list_shows_only_visible_rows_in_scan_order() {
    let mut table = ItemTable::new();
    inserted(&mut table, "a", 1);
    inserted(&mut table, "b", 2);
    inserted(&mut table, "c", 3);
    table.soft_delete(2).unwrap();
    let resp = get_items(Ok(table.list_visible()));
    assert_eq!(resp.status, 200);
    match resp.body {
        Body::Records(items) => {
            let ids: Vec<u128> = items.iter().map(|i| i.id).collect();
            assert_eq!(ids, vec![1, 3]);
        }
        other => panic!("expected records, got {:?}", other),
    }
}

#[test]
fn list_of_empty_table_is_empty() {
    let table = ItemTable::new();
    let resp = get_items(Ok(table.list_visible()));
    assert_eq!(resp.status, 200);
    assert!(matches!(resp.body, Body::Records(ref v) if v.is_empty()));
}

#[test]
fn list_failure_is_internal_error() {
    let resp = get_items(Err(StoreError::Failure));
    assert_eq!(resp.status, 500);
    assert!(matches!(resp.body, Body::Empty));
}

#[test]
fn get_missing_is_not_found() {
    let mut table = ItemTable::new();
    inserted(&mut table, "a", 1);
    assert_eq!(table.find_visible(2).err(), Some(StoreError::NotFound));
    assert_eq!(get_item(table.find_visible(2)).status, 404);
}

#[test]
fn get_storage_failure_is_internal_error() {
    assert_eq!(get_item(Err(StoreError::Failure)).status, 500);
    assert_eq!(update_item(Err(StoreError::Failure)).status, 500);
    assert_eq!(delete_item(Err(StoreError::SequenceExhausted)).status, 500);
}

#[test]
fn scenario_create_get_delete_get() {
    let mut table = ItemTable::new();
    let fields = payload("Test Item", "pcs", 10.0, Some("A1"), Some("Warehouse 1"));
    let created = create_item(table.insert(fields, 0x5eed, NOW));
    assert_eq!(created.status, 201);
    let item = record(created.body);
    assert_eq!(item.name, "Test Item");
    assert_eq!(f64::from_bits(item.stock_bits), 10.0);
    assert_eq!(item.id, 0x5eed);

    let got = get_item(table.find_visible(item.id));
    assert_eq!(got.status, 200);
    let fetched = record(got.body);
    assert_eq!(fetched.name, "Test Item");
    assert_eq!(f64::from_bits(fetched.stock_bits), 10.0);

    let deleted = delete_item(table.soft_delete(item.id));
    assert_eq!(deleted.status, 200);
    assert!(matches!(deleted.body, Body::Empty));

    assert_eq!(get_item(table.find_visible(item.id)).status, 404);
    let row = table.find(item.id).unwrap();
    assert!(row.is_deleted);
    assert_eq!(row.name, "Test Item");
}

#[test]
fn scenario_update_returns_new_values() {
    let mut table = ItemTable::new();
    let before = inserted(&mut table, "Before", 0x77);
    let fields = payload("Updated", "kg", 10.0, Some("B2"), Some("Warehouse 2"));
    let resp = update_item(table.update(before.id, fields));
    assert_eq!(resp.status, 200);
    let item = record(resp.body);
    assert_eq!(item.id, before.id);
    assert_eq!(item.sequence_id, before.sequence_id);
    assert_eq!(item.created_at, before.created_at);
    assert_eq!(item.updated_at, None);
    assert!(!item.is_deleted);
    assert_eq!(item.name, "Updated");
    assert_eq!(item.unit, "kg");
    assert_eq!(f64::from_bits(item.stock_bits), 10.0);
    assert_eq!(item.rack.as_deref(), Some("B2"));
    assert_eq!(item.location.as_deref(), Some("Warehouse 2"));

    let fetched = record(get_item(table.find_visible(0x77)).body);
    assert_eq!(fetched.name, "Updated");
    assert_eq!(fetched.unit, "kg");
}

#[test]
fn update_missing_is_not_found() {
    let mut table = ItemTable::new();
    let resp = update_item(table.update(9, payload("x", "pcs", 1.0, None, None)));
    assert_eq!(resp.status, 404);
    assert!(table.list_visible().is_empty());
}

#[test]
fn update_of_deleted_row_keeps_it_deleted() {
    let mut table = ItemTable::new();
    inserted(&mut table, "gone", 4);
    table.soft_delete(4).unwrap();
    let item = table.update(4, payload("renamed", "pcs", 3.0, None, None)).unwrap();
    assert!(item.is_deleted);
    assert_eq!(item.name, "renamed");
    assert_eq!(get_item(table.find_visible(4)).status, 404);
}

#[test]
fn delete_twice_succeeds_both_times() {
    let mut table = ItemTable::new();
    inserted(&mut table, "twice", 5);
    assert_eq!(delete_item(table.soft_delete(5)).status, 200);
    assert_eq!(delete_item(table.soft_delete(5)).status, 200);
    assert!(table.find(5).unwrap().is_deleted);
}

#[test]
fn delete_missing_is_not_found() {
    let mut table = ItemTable::new();
    assert_eq!(table.soft_delete(6).err(), Some(StoreError::NotFound));
    assert_eq!(delete_item(table.soft_delete(6)).status, 404);
}

#[test]
fn delete_leaves_other_rows_visible() {
    let mut table = ItemTable::new();
    inserted(&mut table, "keep", 1);
    inserted(&mut table, "drop", 2);
    table.soft_delete(2).unwrap();
    assert_eq!(table.find_visible(1).unwrap().name, "keep");
}
