use record_store::companies::{Companies, CompaniesTable};
use record_store::ids::new_uuid;

#[test]
fn insert_then_select_all_returns_the_row() {
    let mut table = CompaniesTable::new();
    let id = new_uuid();
    Companies::insert(&mut table, id, "acme").unwrap();
    let list = Companies::select_all(&table).unwrap();
    assert_eq!(list.len(), 1);
    assert_eq!(list[0].uuid, id);
    assert_eq!(list[0].company_name, "acme");
}

#[test]
fn companies_select_all_is_idempotent() {
    let mut table = CompaniesTable::new();
    Companies::insert(&mut table, new_uuid(), "acme").unwrap();
    Companies::insert(&mut table, new_uuid(), "globex").unwrap();
    let first = Companies::select_all(&table).unwrap();
    let second = Companies::select_all(&table).unwrap();
    assert_eq!(first, second);
    assert_eq!(first.len(), 2);
}

#[test]
fn companies_delete_all_empties_the_table() {
    let mut table = CompaniesTable::new();
    Companies::insert(&mut table, new_uuid(), "acme").unwrap();
    Companies::delete_all(&mut table).unwrap();
    assert!(Companies::select_all(&table).unwrap().is_empty());
}

#[test]
fn companies_keep_insertion_order() {
    let mut table = CompaniesTable::new();
    Companies::insert(&mut table, new_uuid(), "acme").unwrap();
    Companies::insert(&mut table, new_uuid(), "globex").unwrap();
    let list = Companies::select_all(&table).unwrap();
    assert_eq!(list[0].company_name, "acme");
    assert_eq!(list[1].company_name, "globex");
}
