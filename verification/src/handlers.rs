//! The operations of the service, each on the store that it is handed.
//!
//! An operation first checks everything that could refuse it and only then
//! writes, so a refused operation leaves the store exactly as it was. Each
//! operation that writes leaves the store in the state that `step` gives
//! for its command, so what `invariants` proves of `step` holds of it.

use vstd::prelude::*;
use crate::aggregate::InvoiceAggregate;
use crate::catalog::{validate_company, validate_item, validate_supplier};
use crate::dates::{parse_date, parsed_date, DATE_FORMAT};
use crate::db::Db;
use crate::error::InvoiceError;
use crate::invariants::{
    lemma_company_found, lemma_invoice_found, lemma_item_found, lemma_step_keeps_wf,
    lemma_supplier_found,
};
use crate::models::{
    clone_lines, view_of, views, AddLineItemForm, Company, InitializeInvoiceForm, Invoice,
    InvoiceItem, InvoiceStatus, InvoiceWithDetails, Item, NewCompany, NewInvoice,
    NewInvoiceView, NewItem, NewSupplier, Supplier,
};
use crate::state::{
    add_line_item_outcome, complete_invoice_outcome, create_item_outcome,
    create_supplier_outcome, delete_invoice_outcome, delete_item_outcome,
    delete_supplier_outcome, headers, initialize_invoice_outcome, remove_line_item_outcome,
    step, update_item_outcome, update_supplier_outcome, upsert_company_outcome, Command,
};

verus! {

/// The company in use: the one that was written last.
pub fn get_company(db: &Db) -> (r: Option<Company>)
    ensures
        view_of(r) == db@.company(),
{
    let n = db.companies.len();
    if n > 0 {
        Some(db.companies[n - 1].clone())
    } else {
        None
    }
}

/// Writes the company: a company with the same code keeps its identifier
/// and takes the new fields, else a new company is stored. Returns the
/// company as written. Refused with `MissingField` where the code is
/// empty, and with `LimitExceeded` where no identifier is left.
pub fn upsert_company(db: &mut Db, form: NewCompany) -> (r: Result<Company, InvoiceError>)
    requires
        old(db).wf(),
    ensures
        final(db).wf(),
        final(db)@ == step(old(db)@, Command::UpsertCompany { company: form@ }),
        match upsert_company_outcome(old(db)@, form@) {
            Ok(after) => r is Ok && final(db)@ == after && Some(r->Ok_0@) == after.company(),
            Err(e) => r == Err::<Company, InvoiceError>(e) && final(db)@ == old(db)@,
        },
{
    proof {
        lemma_step_keeps_wf(db@, Command::UpsertCompany { company: form@ });
    }
    match validate_company(&form) {
        Err(e) => {
            return Err(e);
        },
        Ok(_) => {},
    }
    let ghost before = db@;
    let id = match db.company_position(&form.code) {
        Some(i) => {
            proof {
                lemma_company_found(db@, i as int);
            }
            let replaced = db.companies.remove(i);
            assert(views(db.companies@) =~= before.companies.remove(i as int));
            replaced.id
        },
        None => {
            if db.next_company_id == i32::MAX {
                return Err(InvoiceError::LimitExceeded);
            }
            let id = db.next_company_id;
            db.next_company_id = id + 1;
            id
        },
    };
    let company = form.into_company(id);
    let written = company.clone();
    let ghost rest = views(db.companies@);
    db.companies.push(company);
    assert(views(db.companies@) =~= rest.push(written@));
    Ok(written)
}

/// All items, in the order in which they were stored.
pub fn get_items(db: &Db) -> (r: Vec<Item>)
    ensures
        views(r@) == db@.items,
{
    let items = db.items.clone();
    assert(views(items@) =~= views(db.items@));
    items
}

/// Stores a new item and returns it with its identifier. Refused with
/// `MissingField` where the name or the unit is empty, with
/// `ValueOutOfRange` where the price is negative or the tax rate lies
/// outside 0 to 100, and with `LimitExceeded` where no identifier is left.
pub fn create_item(db: &mut Db, form: NewItem) -> (r: Result<Item, InvoiceError>)
    requires
        old(db).wf(),
    ensures
        final(db).wf(),
        final(db)@ == step(old(db)@, Command::CreateItem { item: form@ }),
        match create_item_outcome(old(db)@, form@) {
            Ok(after) => r is Ok && final(db)@ == after && r->Ok_0@ == after.items.last(),
            Err(e) => r == Err::<Item, InvoiceError>(e) && final(db)@ == old(db)@,
        },
{
    proof {
        lemma_step_keeps_wf(db@, Command::CreateItem { item: form@ });
    }
    match validate_item(&form) {
        Err(e) => {
            return Err(e);
        },
        Ok(_) => {},
    }
    if db.next_item_id == i32::MAX {
        return Err(InvoiceError::LimitExceeded);
    }
    let ghost before = db@;
    let id = db.next_item_id;
    db.next_item_id = id + 1;
    let item = form.into_item(id);
    let written = item.clone();
    db.items.push(item);
    assert(views(db.items@) =~= before.items.push(written@));
    Ok(written)
}

/// Removes the item `id`. Lines that were made from it stay as they are.
/// Refused with `UnknownItem` where the store has no such item.
pub fn delete_item(db: &mut Db, id: i32) -> (r: Result<(), InvoiceError>)
    requires
        old(db).wf(),
    ensures
        final(db).wf(),
        final(db)@ == step(old(db)@, Command::DeleteItem { id }),
        match delete_item_outcome(old(db)@, id) {
            Ok(after) => r is Ok && final(db)@ == after,
            Err(e) => r == Err::<(), InvoiceError>(e) && final(db)@ == old(db)@,
        },
{
    proof {
        lemma_step_keeps_wf(db@, Command::DeleteItem { id });
    }
    let i = match db.item_position(id) {
        Some(i) => i,
        None => {
            return Err(InvoiceError::UnknownItem);
        },
    };
    let ghost before = db@;
    proof {
        lemma_item_found(db@, i as int);
    }
    db.items.remove(i);
    assert(views(db.items@) =~= before.items.remove(i as int));
    Ok(())
}

/// The item `id`, whose fields fill the form in which it is edited, or
/// `UnknownItem`.
pub fn get_item_edit_form(db: &Db, id: i32) -> (r: Result<Item, InvoiceError>)
    requires
        db.wf(),
    ensures
        match db@.item(id) {
            Some(item) => r is Ok && r->Ok_0@ == item,
            None => r == Err::<Item, InvoiceError>(InvoiceError::UnknownItem),
        },
{
    match db.item_position(id) {
        Some(i) => {
            proof {
                lemma_item_found(db@, i as int);
            }
            Ok(db.items[i].clone())
        },
        None => Err(InvoiceError::UnknownItem),
    }
}

/// Replaces the fields of the item `id` and returns the item as written.
/// Lines that were made from the item before keep what they copied.
/// Refused as `create_item` refuses the fields, else with `UnknownItem`
/// where the store has no such item.
pub fn update_item(db: &mut Db, id: i32, form: NewItem) -> (r: Result<Item, InvoiceError>)
    requires
        old(db).wf(),
    ensures
        final(db).wf(),
        final(db)@ == step(old(db)@, Command::UpdateItem { id, item: form@ }),
        match update_item_outcome(old(db)@, id, form@) {
            Ok(after) => r is Ok && final(db)@ == after && r->Ok_0@ == form@.with_id(id),
            Err(e) => r == Err::<Item, InvoiceError>(e) && final(db)@ == old(db)@,
        },
{
    proof {
        lemma_step_keeps_wf(db@, Command::UpdateItem { id, item: form@ });
    }
    match validate_item(&form) {
        Err(e) => {
            return Err(e);
        },
        Ok(_) => {},
    }
    let i = match db.item_position(id) {
        Some(i) => i,
        None => {
            return Err(InvoiceError::UnknownItem);
        },
    };
    let ghost before = db@;
    proof {
        lemma_item_found(db@, i as int);
    }
    let item = form.into_item(id);
    let written = item.clone();
    db.items[i] = item;
    assert(views(db.items@) =~= before.items.update(i as int, written@));
    Ok(written)
}

/// All suppliers, in the order in which they were stored.
pub fn get_suppliers(db: &Db) -> (r: Vec<Supplier>)
    ensures
        views(r@) == db@.suppliers,
{
    let suppliers = db.suppliers.clone();
    assert(views(suppliers@) =~= views(db.suppliers@));
    suppliers
}

/// Stores a new supplier and returns it with its identifier. Refused with
/// `MissingField` where the name or the code is empty, with
/// `DuplicateCode` where another supplier carries the code, and with
/// `LimitExceeded` where no identifier is left.
pub fn create_supplier(db: &mut Db, form: NewSupplier) -> (r: Result<Supplier, InvoiceError>)
    requires
        old(db).wf(),
    ensures
        final(db).wf(),
        final(db)@ == step(old(db)@, Command::CreateSupplier { supplier: form@ }),
        match create_supplier_outcome(old(db)@, form@) {
            Ok(after) => r is Ok && final(db)@ == after && r->Ok_0@ == after.suppliers.last(),
            Err(e) => r == Err::<Supplier, InvoiceError>(e) && final(db)@ == old(db)@,
        },
{
    proof {
        lemma_step_keeps_wf(db@, Command::CreateSupplier { supplier: form@ });
    }
    match validate_supplier(&form) {
        Err(e) => {
            return Err(e);
        },
        Ok(_) => {},
    }
    if db.supplier_code_taken(&form.code, db.next_supplier_id) {
        return Err(InvoiceError::DuplicateCode);
    }
    if db.next_supplier_id == i32::MAX {
        return Err(InvoiceError::LimitExceeded);
    }
    let ghost before = db@;
    let id = db.next_supplier_id;
    db.next_supplier_id = id + 1;
    let supplier = form.into_supplier(id);
    let written = supplier.clone();
    db.suppliers.push(supplier);
    assert(views(db.suppliers@) =~= before.suppliers.push(written@));
    Ok(written)
}

/// Removes the supplier `id`. Invoices of the supplier stay and keep its
/// identifier. Refused with `UnknownSupplier` where the store has no such
/// supplier.
pub fn delete_supplier(db: &mut Db, id: i32) -> (r: Result<(), InvoiceError>)
    requires
        old(db).wf(),
    ensures
        final(db).wf(),
        final(db)@ == step(old(db)@, Command::DeleteSupplier { id }),
        match delete_supplier_outcome(old(db)@, id) {
            Ok(after) => r is Ok && final(db)@ == after,
            Err(e) => r == Err::<(), InvoiceError>(e) && final(db)@ == old(db)@,
        },
{
    proof {
        lemma_step_keeps_wf(db@, Command::DeleteSupplier { id });
    }
    let i = match db.supplier_position(id) {
        Some(i) => i,
        None => {
            return Err(InvoiceError::UnknownSupplier);
        },
    };
    let ghost before = db@;
    proof {
        lemma_supplier_found(db@, i as int);
    }
    db.suppliers.remove(i);
    assert(views(db.suppliers@) =~= before.suppliers.remove(i as int));
    Ok(())
}

/// The supplier `id`, whose fields fill the form in which it is edited,
/// or `UnknownSupplier`.
pub fn get_supplier_edit_form(db: &Db, id: i32) -> (r: Result<Supplier, InvoiceError>)
    requires
        db.wf(),
    ensures
        match db@.supplier(id) {
            Some(supplier) => r is Ok && r->Ok_0@ == supplier,
            None => r == Err::<Supplier, InvoiceError>(InvoiceError::UnknownSupplier),
        },
{
    match db.supplier_position(id) {
        Some(i) => {
            proof {
                lemma_supplier_found(db@, i as int);
            }
            Ok(db.suppliers[i].clone())
        },
        None => Err(InvoiceError::UnknownSupplier),
    }
}

/// Replaces the fields of the supplier `id` and returns the supplier as
/// written. Refused with `MissingField` where the name or the code is
/// empty, else with `UnknownSupplier` where the store has no such
/// supplier, else with `DuplicateCode` where another supplier carries the
/// code.
pub fn update_supplier(db: &mut Db, id: i32, form: NewSupplier) -> (r: Result<
    Supplier,
    InvoiceError,
>)
    requires
        old(db).wf(),
    ensures
        final(db).wf(),
        final(db)@ == step(old(db)@, Command::UpdateSupplier { id, supplier: form@ }),
        match update_supplier_outcome(old(db)@, id, form@) {
            Ok(after) => r is Ok && final(db)@ == after && r->Ok_0@ == form@.with_id(id),
            Err(e) => r == Err::<Supplier, InvoiceError>(e) && final(db)@ == old(db)@,
        },
{
    proof {
        lemma_step_keeps_wf(db@, Command::UpdateSupplier { id, supplier: form@ });
    }
    match validate_supplier(&form) {
        Err(e) => {
            return Err(e);
        },
        Ok(_) => {},
    }
    let i = match db.supplier_position(id) {
        Some(i) => i,
        None => {
            return Err(InvoiceError::UnknownSupplier);
        },
    };
    if db.supplier_code_taken(&form.code, id) {
        return Err(InvoiceError::DuplicateCode);
    }
    let ghost before = db@;
    proof {
        lemma_supplier_found(db@, i as int);
    }
    let supplier = form.into_supplier(id);
    let written = supplier.clone();
    db.suppliers[i] = supplier;
    assert(views(db.suppliers@) =~= before.suppliers.update(i as int, written@));
    Ok(written)
}

/// The headers of all invoices, in the order in which they were started.
pub fn get_invoices(db: &Db) -> (r: Vec<Invoice>)
    ensures
        views(r@) == headers(db@.invoices),
{
    let mut list: Vec<Invoice> = Vec::new();
    let mut i: usize = 0;
    while i < db.invoices.len()
        invariant
            i <= db.invoices.len(),
            list.len() == i,
            forall|j: int| 0 <= j < i ==> (#[trigger] list[j])@ == db@.invoices[j].invoice,
        decreases db.invoices.len() - i,
    {
        list.push(db.invoices[i].invoice.clone());
        i += 1;
    }
    assert(views(list@) =~= headers(db@.invoices));
    list
}

/// The invoice that `form` asks for, dated `date`.
pub open spec fn invoice_of_form(form: InitializeInvoiceForm, date: chrono::NaiveDateTime)
    -> NewInvoiceView {
    NewInvoiceView {
        supplier_id: form.supplier_id,
        subtotal: 0,
        tax_amount: 0,
        total: 0,
        date,
        document_number: form.document_number@,
    }
}

/// Starts an invoice from what a caller filled in: reads the date and
/// goes on as `initialize` does. Refused with `InvalidDate` where the date
/// cannot be read under `DATE_FORMAT`, else as `initialize` refuses.
pub fn initialize_invoice(db: &mut Db, form: InitializeInvoiceForm) -> (r: Result<
    Invoice,
    InvoiceError,
>)
    requires
        old(db).wf(),
    ensures
        final(db).wf(),
        match parsed_date(form.date@, DATE_FORMAT@) {
            None => r == Err::<Invoice, InvoiceError>(InvoiceError::InvalidDate) && final(db)@
                == old(db)@,
            Some(date) => match initialize_invoice_outcome(
                old(db)@,
                invoice_of_form(form, date),
            ) {
                Ok(after) => r is Ok && final(db)@ == after && r->Ok_0@
                    == after.invoices.last().invoice,
                Err(e) => r == Err::<Invoice, InvoiceError>(e) && final(db)@ == old(db)@,
            },
        },
{
    match parse_date(form.date.as_str(), DATE_FORMAT) {
        None => Err(InvoiceError::InvalidDate),
        Some(date) => initialize(db, NewInvoice::new(form.supplier_id, form.document_number, date)),
    }
}

/// Starts an invoice: an empty draft, every amount zero, and returns its
/// header. Refused with `MissingField` where the document number is empty,
/// else with `UnknownSupplier` where the store has no such supplier, else
/// with `DuplicateDocumentNumber` where the supplier already has an
/// invoice with this document number, else with `LimitExceeded` where no
/// identifier is left.
pub fn initialize(db: &mut Db, form: NewInvoice) -> (r: Result<Invoice, InvoiceError>)
    requires
        old(db).wf(),
    ensures
        final(db).wf(),
        final(db)@ == step(old(db)@, Command::InitializeInvoice { invoice: form@ }),
        match initialize_invoice_outcome(old(db)@, form@) {
            Ok(after) => r is Ok && final(db)@ == after && r->Ok_0@
                == after.invoices.last().invoice,
            Err(e) => r == Err::<Invoice, InvoiceError>(e) && final(db)@ == old(db)@,
        },
{
    proof {
        lemma_step_keeps_wf(db@, Command::InitializeInvoice { invoice: form@ });
    }
    let supplier_known = db.supplier_position(form.supplier_id).is_some();
    let number_taken = db.document_number_taken(form.supplier_id, &form.document_number);
    let aggregate = match InvoiceAggregate::initialize(db.next_invoice_id, form) {
        Ok(a) => a,
        Err(e) => {
            return Err(e);
        },
    };
    if !supplier_known {
        return Err(InvoiceError::UnknownSupplier);
    }
    if number_taken {
        return Err(InvoiceError::DuplicateDocumentNumber);
    }
    if db.next_invoice_id == i32::MAX {
        return Err(InvoiceError::LimitExceeded);
    }
    let ghost before = db@;
    let header = aggregate.invoice.clone();
    db.next_invoice_id = db.next_invoice_id + 1;
    db.invoices.push(aggregate);
    assert(views(db.invoices@) =~= before.invoices.push(aggregate@));
    Ok(header)
}

/// Builds what is shown of the invoice at the place `i`.
fn details_at(db: &Db, i: usize) -> (r: InvoiceWithDetails)
    requires
        db.wf(),
        i < db.invoices.len(),
    ensures
        r@ == db@.details(db@.invoices[i as int]),
{
    let aggregate = &db.invoices[i];
    let supplier = match db.supplier_position(aggregate.invoice.supplier_id) {
        Some(k) => {
            proof {
                lemma_supplier_found(db@, k as int);
            }
            Some(db.suppliers[k].clone())
        },
        None => None,
    };
    InvoiceWithDetails {
        id: aggregate.invoice.id,
        supplier_id: aggregate.invoice.supplier_id,
        supplier,
        line_items: clone_lines(&aggregate.line_items),
        subtotal: aggregate.invoice.subtotal,
        tax_amount: aggregate.invoice.tax_amount,
        total: aggregate.invoice.total,
        date: aggregate.invoice.date,
        document_number: aggregate.invoice.document_number.clone(),
        status: aggregate.invoice.status,
    }
}

/// The draft `id` with its lines, as the page shows it on which it is
/// edited. Refused like a change of the invoice: with `InvoiceNotDraft`
/// where the invoice is completed or was deleted, with `UnknownInvoice`
/// where there never was one.
pub fn get_invoice_edit_page(db: &Db, id: i32) -> (r: Result<InvoiceWithDetails, InvoiceError>)
    requires
        db.wf(),
    ensures
        match db@.invoice_to_change(id) {
            Ok(i) => if db@.invoices[i].invoice.status == InvoiceStatus::Draft {
                r is Ok && r->Ok_0@ == db@.details(db@.invoices[i])
            } else {
                r == Err::<InvoiceWithDetails, InvoiceError>(InvoiceError::InvoiceNotDraft)
            },
            Err(e) => r == Err::<InvoiceWithDetails, InvoiceError>(e),
        },
{
    let i = match db.invoice_to_change(id) {
        Ok(i) => i,
        Err(e) => {
            return Err(e);
        },
    };
    if !db.invoices[i].is_draft() {
        return Err(InvoiceError::InvoiceNotDraft);
    }
    Ok(details_at(db, i))
}

/// Adds a line for the item `form.item_id` to the draft `id`, derives the
/// amounts of the invoice afresh and returns the new line.
///
/// The line copies the item's name, unit and tax rate as they are now; its
/// buying price is `form.price` where one is given, else the item's price.
/// Refused with `InvoiceNotDraft` where the invoice is completed or was
/// deleted, `UnknownInvoice` where there never was one, else with
/// `UnknownItem`, else with what `compute_line` says of the inputs, else
/// with `DuplicateLine` where the item already has a line on the invoice,
/// else with `LimitExceeded` where the new sums do not fit.
pub fn add_line_item(db: &mut Db, id: i32, form: AddLineItemForm) -> (r: Result<
    InvoiceItem,
    InvoiceError,
>)
    requires
        old(db).wf(),
    ensures
        final(db).wf(),
        final(db)@ == step(
            old(db)@,
            Command::AddLineItem {
                id,
                item_id: form.item_id,
                price_override: form.price,
                quantity: form.quantity,
                discount: form.discount,
            },
        ),
        match add_line_item_outcome(
            old(db)@,
            id,
            form.item_id,
            form.price,
            form.quantity,
            form.discount,
        ) {
            Ok(after) => r is Ok && final(db)@ == after && after.invoice(id) is Some && r->Ok_0@
                == after.invoice(id)->Some_0.line_items.last(),
            Err(e) => r == Err::<InvoiceItem, InvoiceError>(e) && final(db)@ == old(db)@,
        },
{
    let ghost before = db@;
    proof {
        lemma_step_keeps_wf(
            before,
            Command::AddLineItem {
                id,
                item_id: form.item_id,
                price_override: form.price,
                quantity: form.quantity,
                discount: form.discount,
            },
        );
    }
    let i = match db.invoice_to_change(id) {
        Ok(i) => i,
        Err(e) => {
            return Err(e);
        },
    };
    if !db.invoices[i].is_draft() {
        return Err(InvoiceError::InvoiceNotDraft);
    }
    let k = match db.item_position(form.item_id) {
        Some(k) => k,
        None => {
            return Err(InvoiceError::UnknownItem);
        },
    };
    proof {
        lemma_item_found(db@, k as int);
    }
    let r = db.invoices[i].add_line_item(&db.items[k], form.price, form.quantity, form.discount);
    proof {
        assert(views(db.invoices@) =~= before.invoices.update(i as int, db.invoices[i as int]@));
        if r is Ok {
            lemma_invoice_found(db@, i as int);
        } else {
            assert(views(db.invoices@) =~= before.invoices);
        }
    }
    r
}

/// Removes the line for the item `item_id` from the draft `id` and derives
/// the amounts of the invoice afresh. Refused with `InvoiceNotDraft` where
/// the invoice is completed or was deleted, `UnknownInvoice` where there
/// never was one, and `LineNotFound` where the item has no line on the
/// invoice.
pub fn remove_line_item(db: &mut Db, id: i32, item_id: i32) -> (r: Result<(), InvoiceError>)
    requires
        old(db).wf(),
    ensures
        final(db).wf(),
        final(db)@ == step(old(db)@, Command::RemoveLineItem { id, item_id }),
        match remove_line_item_outcome(old(db)@, id, item_id) {
            Ok(after) => r is Ok && final(db)@ == after,
            Err(e) => r == Err::<(), InvoiceError>(e) && final(db)@ == old(db)@,
        },
{
    let ghost before = db@;
    proof {
        lemma_step_keeps_wf(before, Command::RemoveLineItem { id, item_id });
    }
    let i = match db.invoice_to_change(id) {
        Ok(i) => i,
        Err(e) => {
            return Err(e);
        },
    };
    let r = db.invoices[i].remove_line_item(item_id);
    proof {
        assert(views(db.invoices@) =~= before.invoices.update(i as int, db.invoices[i as int]@));
        if r is Err {
            assert(views(db.invoices@) =~= before.invoices);
        }
    }
    r
}

/// Completes the draft `id` and returns its header. From then on the
/// invoice and its lines cannot change. Refused with `InvoiceNotDraft`
/// where the invoice is completed already or was deleted, `UnknownInvoice`
/// where there never was one, and `EmptyInvoice` where it has no line.
pub fn complete_invoice(db: &mut Db, id: i32) -> (r: Result<Invoice, InvoiceError>)
    requires
        old(db).wf(),
    ensures
        final(db).wf(),
        final(db)@ == step(old(db)@, Command::CompleteInvoice { id }),
        match complete_invoice_outcome(old(db)@, id) {
            Ok(after) => r is Ok && final(db)@ == after && after.invoice(id) is Some && r->Ok_0@
                == after.invoice(id)->Some_0.invoice && r->Ok_0@.status
                == InvoiceStatus::Completed,
            Err(e) => r == Err::<Invoice, InvoiceError>(e) && final(db)@ == old(db)@,
        },
{
    let ghost before = db@;
    proof {
        lemma_step_keeps_wf(before, Command::CompleteInvoice { id });
    }
    let i = match db.invoice_to_change(id) {
        Ok(i) => i,
        Err(e) => {
            return Err(e);
        },
    };
    let r = db.invoices[i].complete();
    proof {
        assert(views(db.invoices@) =~= before.invoices.update(i as int, db.invoices[i as int]@));
        if r is Ok {
            lemma_invoice_found(db@, i as int);
        } else {
            assert(views(db.invoices@) =~= before.invoices);
        }
    }
    r
}

/// The invoice `id` as it is shown: header, supplier and lines. Refused
/// with `UnknownInvoice` where the store has no such invoice.
pub fn get_invoice_details(db: &Db, id: i32) -> (r: Result<InvoiceWithDetails, InvoiceError>)
    requires
        db.wf(),
    ensures
        match db@.invoice(id) {
            Some(a) => r is Ok && r->Ok_0@ == db@.details(a),
            None => r == Err::<InvoiceWithDetails, InvoiceError>(InvoiceError::UnknownInvoice),
        },
{
    match db.invoice_position(id) {
        Some(i) => {
            proof {
                lemma_invoice_found(db@, i as int);
            }
            Ok(details_at(db, i))
        },
        None => Err(InvoiceError::UnknownInvoice),
    }
}

/// Deletes the draft `id` with its lines. Refused with `InvoiceNotDraft`
/// where the invoice is completed or was deleted before, and with
/// `UnknownInvoice` where there never was one.
pub fn delete_invoice(db: &mut Db, id: i32) -> (r: Result<(), InvoiceError>)
    requires
        old(db).wf(),
    ensures
        final(db).wf(),
        final(db)@ == step(old(db)@, Command::DeleteInvoice { id }),
        match delete_invoice_outcome(old(db)@, id) {
            Ok(after) => r is Ok && final(db)@ == after && after.invoice(id) is None,
            Err(e) => r == Err::<(), InvoiceError>(e) && final(db)@ == old(db)@,
        },
{
    let ghost before = db@;
    proof {
        lemma_step_keeps_wf(before, Command::DeleteInvoice { id });
    }
    let i = match db.invoice_to_change(id) {
        Ok(i) => i,
        Err(e) => {
            return Err(e);
        },
    };
    match db.invoices[i].check_deletable() {
        Err(e) => {
            return Err(e);
        },
        Ok(_) => {},
    }
    db.invoices.remove(i);
    assert(views(db.invoices@) =~= before.invoices.remove(i as int));
    proof {
        let rest = db@.invoices;
        assert forall|k: int| 0 <= k < rest.len() implies (#[trigger] rest[k]).invoice.id
            != id by {
            if k < i {
                assert(rest[k] == before.invoices[k]);
            } else {
                assert(rest[k] == before.invoices[k + 1]);
            }
        }
    }
    Ok(())
}

} // verus!
