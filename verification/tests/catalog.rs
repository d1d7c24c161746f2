use invoicing::catalog::{validate_company, validate_item, validate_supplier, MAX_TAX_RATE};
use invoicing::db::Db;
use invoicing::error::InvoiceError;
use invoicing::handlers::{
    create_item, create_supplier, delete_item, delete_supplier, get_company, get_item_edit_form,
    get_items, get_supplier_edit_form, get_suppliers, update_item, update_supplier,
    upsert_company,
};
use invoicing::models::{Company, Item, NewCompany, NewItem, NewSupplier, Supplier};

fn item(id: i32, name: &str, price: i64, tax_rate: i32, unit: &str) -> Item {
    Item { id, name: name.to_string(), price, tax_rate, unit: unit.to_string() }
}

fn supplier(id: i32, name: &str, code: &str) -> Supplier {
    Supplier { id, name: name.to_string(), code: code.to_string(), address: None }
}

fn company(code: &str, name: &str) -> NewCompany {
    NewCompany::new(
        code.to_string(),
        "62".to_string(),
        "Software".to_string(),
        name.to_string(),
        Some("1 Main St".to_string()),
        None,
        None,
    )
}

fn new_item(name: &str, price: i64, tax_rate: i32, unit: &str) -> NewItem {
    NewItem::new(name.to_string(), price, tax_rate, unit.to_string())
}

fn new_supplier(name: &str, code: &str) -> NewSupplier {
    NewSupplier::new(name.to_string(), code.to_string(), None)
}

#[test]
fn builders_keep_their_arguments() {
    let c = company("ACME", "Acme Ltd");
    assert_eq!(c.code, "ACME");
    assert_eq!(c.sector_code, "62");
    assert_eq!(c.sector, "Software");
    assert_eq!(c.name, "Acme Ltd");
    assert_eq!(c.address, Some("1 Main St".to_string()));
    assert_eq!(c.owner, None);
    assert_eq!(c.user, None);
    let i = new_item("Widget", 1_000, 20, "pcs");
    assert_eq!(
        (i.name.as_str(), i.price, i.tax_rate, i.unit.as_str()),
        ("Widget", 1_000, 20, "pcs")
    );
    let s = NewSupplier::new("Supplier A".to_string(), "SUP001".to_string(), Some("x".to_string()));
    assert_eq!(
        (s.name.as_str(), s.code.as_str(), s.address),
        ("Supplier A", "SUP001", Some("x".to_string()))
    );
}

#[test]
fn records_take_their_identifier() {
    assert_eq!(
        new_item("Widget", 1_000, 20, "pcs").into_item(4),
        item(4, "Widget", 1_000, 20, "pcs")
    );
    assert_eq!(
        new_supplier("Supplier A", "SUP001").into_supplier(2),
        supplier(2, "Supplier A", "SUP001")
    );
    assert_eq!(company("ACME", "Acme Ltd").into_company(1).id, 1);
}

#[test]
fn company_needs_its_code() {
    assert_eq!(validate_company(&company("ACME", "Acme Ltd")), Ok(()));
    assert_eq!(validate_company(&company("", "Acme Ltd")), Err(InvoiceError::MissingField));
    let bare = NewCompany::new(
        "ACME".to_string(),
        String::new(),
        String::new(),
        String::new(),
        None,
        None,
        None,
    );
    assert_eq!(validate_company(&bare), Ok(()));
}

#[test]
fn item_needs_name_unit_and_numbers_in_range() {
    assert_eq!(MAX_TAX_RATE, 100);
    assert_eq!(validate_item(&new_item("Widget", 1_000, 20, "pcs")), Ok(()));
    assert_eq!(validate_item(&new_item("Widget", 0, 0, "pcs")), Ok(()));
    assert_eq!(validate_item(&new_item("Widget", i64::MAX, 100, "pcs")), Ok(()));
    assert_eq!(validate_item(&new_item("", 1_000, 20, "pcs")), Err(InvoiceError::MissingField));
    assert_eq!(validate_item(&new_item("Widget", 1_000, 20, "")), Err(InvoiceError::MissingField));
    assert_eq!(
        validate_item(&new_item("Widget", -1, 20, "pcs")),
        Err(InvoiceError::ValueOutOfRange)
    );
    assert_eq!(
        validate_item(&new_item("Widget", 1, -1, "pcs")),
        Err(InvoiceError::ValueOutOfRange)
    );
    assert_eq!(
        validate_item(&new_item("Widget", 1, 101, "pcs")),
        Err(InvoiceError::ValueOutOfRange)
    );
    // A missing text is reported before a number out of range.
    assert_eq!(validate_item(&new_item("", -1, 101, "pcs")), Err(InvoiceError::MissingField));
}

#[test]
fn supplier_needs_name_and_code() {
    assert_eq!(validate_supplier(&new_supplier("Supplier A", "SUP001")), Ok(()));
    assert_eq!(validate_supplier(&new_supplier("", "SUP001")), Err(InvoiceError::MissingField));
    assert_eq!(validate_supplier(&new_supplier("Supplier A", "")), Err(InvoiceError::MissingField));
}

#[test]
fn empty_store_has_nothing() {
    for db in [Db::new(), Db::default()] {
        assert_eq!(get_company(&db), None);
        assert!(get_items(&db).is_empty());
        assert!(get_suppliers(&db).is_empty());
    }
}

#[test]
fn company_is_upserted_by_code() {
    let mut db = Db::new();
    let first = upsert_company(&mut db, company("ACME", "Acme Ltd")).unwrap();
    assert_eq!(
        first,
        Company {
            id: 1,
            code: "ACME".to_string(),
            sector_code: "62".to_string(),
            sector: "Software".to_string(),
            name: "Acme Ltd".to_string(),
            address: Some("1 Main St".to_string()),
            owner: None,
            user: None,
        }
    );
    assert_eq!(get_company(&db), Some(first));
    // The same code again: the record keeps its identifier and takes the fields.
    let mut changed = company("ACME", "Acme Inc");
    changed.owner = Some("Ann".to_string());
    let second = upsert_company(&mut db, changed).unwrap();
    assert_eq!(second.id, 1);
    assert_eq!(second.name, "Acme Inc");
    assert_eq!(second.owner, Some("Ann".to_string()));
    assert_eq!(get_company(&db), Some(second));
}

#[test]
fn company_written_last_is_the_one_in_use() {
    let mut db = Db::new();
    upsert_company(&mut db, company("ACME", "Acme Ltd")).unwrap();
    let other = upsert_company(&mut db, company("BOLT", "Bolt GmbH")).unwrap();
    assert_eq!(other.id, 2);
    assert_eq!(get_company(&db).unwrap().code, "BOLT");
    let back = upsert_company(&mut db, company("ACME", "Acme Again")).unwrap();
    assert_eq!(back.id, 1);
    assert_eq!(get_company(&db), Some(back));
    let third = upsert_company(&mut db, company("CORE", "Core SA")).unwrap();
    assert_eq!(third.id, 3);
}

#[test]
fn company_with_missing_field_is_not_written() {
    let mut db = Db::new();
    upsert_company(&mut db, company("ACME", "Acme Ltd")).unwrap();
    assert_eq!(upsert_company(&mut db, company("", "x")), Err(InvoiceError::MissingField));
    assert_eq!(get_company(&db).unwrap().name, "Acme Ltd");
    // A refused company uses up no identifier.
    assert_eq!(upsert_company(&mut db, company("BOLT", "")).unwrap().id, 2);
}

#[test]
fn items_are_stored_in_order_with_fresh_identifiers() {
    let mut db = Db::new();
    let a = create_item(&mut db, new_item("Widget", 1_000, 20, "pcs")).unwrap();
    let b = create_item(&mut db, new_item("Gadget", 250, 7, "kg")).unwrap();
    assert_eq!(a, item(1, "Widget", 1_000, 20, "pcs"));
    assert_eq!(b.id, 2);
    // Two items may share every field: only the identifier tells them apart.
    let c = create_item(&mut db, new_item("Widget", 1_000, 20, "pcs")).unwrap();
    assert_eq!(c.id, 3);
    assert_eq!(get_items(&db), vec![a.clone(), b.clone(), c]);
    assert_eq!(get_item_edit_form(&db, 2), Ok(b));
    assert_eq!(get_item_edit_form(&db, 4), Err(InvoiceError::UnknownItem));
    assert_eq!(get_item_edit_form(&db, 0), Err(InvoiceError::UnknownItem));
}

#[test]
fn invalid_item_is_not_stored() {
    let mut db = Db::new();
    assert_eq!(
        create_item(&mut db, new_item("", 1_000, 20, "pcs")),
        Err(InvoiceError::MissingField)
    );
    assert_eq!(
        create_item(&mut db, new_item("Widget", -1, 20, "pcs")),
        Err(InvoiceError::ValueOutOfRange)
    );
    assert_eq!(
        create_item(&mut db, new_item("Widget", 1, 101, "pcs")),
        Err(InvoiceError::ValueOutOfRange)
    );
    assert!(get_items(&db).is_empty());
    // A refused item uses up no identifier.
    assert_eq!(create_item(&mut db, new_item("Widget", 1, 100, "pcs")).unwrap().id, 1);
}

#[test]
fn item_is_updated_in_place() {
    let mut db = Db::new();
    create_item(&mut db, new_item("Widget", 1_000, 20, "pcs")).unwrap();
    create_item(&mut db, new_item("Gadget", 250, 7, "kg")).unwrap();
    let changed = update_item(&mut db, 1, new_item("Widget XL", 1_500, 10, "box")).unwrap();
    assert_eq!(changed, item(1, "Widget XL", 1_500, 10, "box"));
    let all = get_items(&db);
    assert_eq!(all.len(), 2);
    assert_eq!(all[0], changed);
    assert_eq!(all[1].name, "Gadget");
    assert_eq!(update_item(&mut db, 3, new_item("x", 1, 1, "y")), Err(InvoiceError::UnknownItem));
    assert_eq!(update_item(&mut db, 1, new_item("", 1, 1, "y")), Err(InvoiceError::MissingField));
    assert_eq!(
        update_item(&mut db, 1, new_item("x", 1, 200, "y")),
        Err(InvoiceError::ValueOutOfRange)
    );
    // The fields are checked before the item is looked up.
    assert_eq!(update_item(&mut db, 3, new_item("", 1, 1, "y")), Err(InvoiceError::MissingField));
    assert_eq!(get_items(&db), all);
}

#[test]
fn item_is_deleted_and_its_identifier_not_used_again() {
    let mut db = Db::new();
    create_item(&mut db, new_item("Widget", 1_000, 20, "pcs")).unwrap();
    create_item(&mut db, new_item("Gadget", 250, 7, "kg")).unwrap();
    assert_eq!(delete_item(&mut db, 1), Ok(()));
    assert_eq!(delete_item(&mut db, 1), Err(InvoiceError::UnknownItem));
    assert_eq!(delete_item(&mut db, 9), Err(InvoiceError::UnknownItem));
    let left = get_items(&db);
    assert_eq!(left.len(), 1);
    assert_eq!(left[0].id, 2);
    assert_eq!(create_item(&mut db, new_item("Gizmo", 1, 0, "m")).unwrap().id, 3);
}

#[test]
fn suppliers_have_unique_codes() {
    let mut db = Db::new();
    let a = create_supplier(&mut db, new_supplier("Supplier A", "SUP001")).unwrap();
    assert_eq!(a, supplier(1, "Supplier A", "SUP001"));
    assert_eq!(
        create_supplier(&mut db, new_supplier("Supplier B", "SUP001")),
        Err(InvoiceError::DuplicateCode)
    );
    let b = create_supplier(&mut db, new_supplier("Supplier A", "SUP002")).unwrap();
    assert_eq!(b.id, 2);
    assert_eq!(get_suppliers(&db), vec![a.clone(), b.clone()]);
    assert_eq!(get_supplier_edit_form(&db, 1), Ok(a));
    assert_eq!(get_supplier_edit_form(&db, 3), Err(InvoiceError::UnknownSupplier));
    assert_eq!(
        create_supplier(&mut db, new_supplier("", "SUP003")),
        Err(InvoiceError::MissingField)
    );
    assert_eq!(create_supplier(&mut db, new_supplier("x", "")), Err(InvoiceError::MissingField));
    assert_eq!(get_suppliers(&db).len(), 2);
}

#[test]
fn supplier_is_updated_unless_its_code_collides() {
    let mut db = Db::new();
    create_supplier(&mut db, new_supplier("Supplier A", "SUP001")).unwrap();
    create_supplier(&mut db, new_supplier("Supplier B", "SUP002")).unwrap();
    // A supplier may keep its own code.
    let same = update_supplier(&mut db, 1, new_supplier("Supplier A1", "SUP001")).unwrap();
    assert_eq!(same, supplier(1, "Supplier A1", "SUP001"));
    assert_eq!(
        update_supplier(&mut db, 1, new_supplier("Supplier A", "SUP002")),
        Err(InvoiceError::DuplicateCode)
    );
    assert_eq!(
        update_supplier(&mut db, 3, new_supplier("Supplier C", "SUP003")),
        Err(InvoiceError::UnknownSupplier)
    );
    assert_eq!(
        update_supplier(&mut db, 1, new_supplier("", "SUP001")),
        Err(InvoiceError::MissingField)
    );
    let with_address = NewSupplier::new(
        "Supplier B".to_string(),
        "SUP009".to_string(),
        Some("Dock 4".to_string()),
    );
    let moved = update_supplier(&mut db, 2, with_address).unwrap();
    assert_eq!(moved.address, Some("Dock 4".to_string()));
    let all = get_suppliers(&db);
    assert_eq!(all[0].name, "Supplier A1");
    assert_eq!(all[1].code, "SUP009");
    // The code that was given up is free again.
    assert_eq!(create_supplier(&mut db, new_supplier("Supplier D", "SUP002")).unwrap().id, 3);
}

#[test]
fn supplier_is_deleted() {
    let mut db = Db::new();
    create_supplier(&mut db, new_supplier("Supplier A", "SUP001")).unwrap();
    create_supplier(&mut db, new_supplier("Supplier B", "SUP002")).unwrap();
    assert_eq!(delete_supplier(&mut db, 1), Ok(()));
    assert_eq!(delete_supplier(&mut db, 1), Err(InvoiceError::UnknownSupplier));
    assert_eq!(get_suppliers(&db).len(), 1);
    assert_eq!(create_supplier(&mut db, new_supplier("Supplier C", "SUP001")).unwrap().id, 3);
}
