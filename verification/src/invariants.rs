//! What holds of the store whatever is done with it.
//!
//! The operations keep the invariant of the store, so the amounts of every
//! invoice are at all times the sums over its lines; a completed invoice
//! never changes again; and the lines of an invoice do not follow later
//! changes of the items that they were made from.

use vstd::prelude::*;
use crate::aggregate::{
    lemma_add_line_keeps_wf, lemma_complete_keeps_wf, lemma_remove_line_keeps_wf, sum_subtotals,
    sum_tax_amounts, AggregateView,
};
use crate::error::InvoiceError;
use crate::models::{InvoiceStatus, NewInvoiceView};
use crate::state::{
    add_line_item_outcome, company_code_index, complete_invoice_outcome, create_item_outcome,
    create_supplier_outcome, delete_invoice_outcome, delete_item_outcome,
    delete_supplier_outcome, document_number_in_use, has_company_code, has_invoice, has_item,
    has_supplier, initialize_invoice_outcome, invoice_index, item_index, outcome,
    remove_line_item_outcome, run, step, supplier_index, update_item_outcome,
    update_supplier_outcome, upsert_company_outcome, Command, DbView,
};

verus! {

/// In a well-formed store an invoice is found at its own place.
pub proof fn lemma_invoice_found(db: DbView, k: int)
    requires
        db.wf(),
        0 <= k < db.invoices.len(),
    ensures
        has_invoice(db.invoices, db.invoices[k].invoice.id),
        invoice_index(db.invoices, db.invoices[k].invoice.id) == k,
        db.invoice(db.invoices[k].invoice.id) == Some(db.invoices[k]),
{
    let id = db.invoices[k].invoice.id;
    let found = invoice_index(db.invoices, id);
    assert(db.invoices[found].invoice.id == id);
    assert(found == k);
}

/// In a well-formed store an item is found at its own place.
pub proof fn lemma_item_found(db: DbView, k: int)
    requires
        db.wf(),
        0 <= k < db.items.len(),
    ensures
        has_item(db.items, db.items[k].id),
        item_index(db.items, db.items[k].id) == k,
{
    let id = db.items[k].id;
    let found = item_index(db.items, id);
    assert(db.items[found].id == id);
    assert(found == k);
}

/// In a well-formed store a supplier is found at its own place.
pub proof fn lemma_supplier_found(db: DbView, k: int)
    requires
        db.wf(),
        0 <= k < db.suppliers.len(),
    ensures
        has_supplier(db.suppliers, db.suppliers[k].id),
        supplier_index(db.suppliers, db.suppliers[k].id) == k,
{
    let id = db.suppliers[k].id;
    let found = supplier_index(db.suppliers, id);
    assert(db.suppliers[found].id == id);
    assert(found == k);
}

/// In a well-formed store a company is found by its code at its own place.
pub proof fn lemma_company_found(db: DbView, k: int)
    requires
        db.wf(),
        0 <= k < db.companies.len(),
    ensures
        has_company_code(db.companies, db.companies[k].code),
        company_code_index(db.companies, db.companies[k].code) == k,
{
    let code = db.companies[k].code;
    let found = company_code_index(db.companies, code);
    assert(db.companies[found].code == code);
    assert(found == k);
}

proof fn lemma_upsert_company_keeps_wf(db: DbView, c: Command)
    requires
        db.wf(),
        c is UpsertCompany,
    ensures
        step(db, c).wf(),
{
    let new = c->company;
    if let Ok(after) = upsert_company_outcome(db, new) {
        if has_company_code(db.companies, new.code) {
            let i = company_code_index(db.companies, new.code);
            let rest = db.companies.remove(i);
            let written = new.with_id(db.companies[i].id);
            assert(written.fields() == new);
            assert(after.companies == rest.push(written));
            assert forall|k: int| 0 <= k < rest.len() implies (#[trigger] rest[k]).id
                != written.id && rest[k].code != written.code && 1 <= rest[k].id
                < db.next_company_id && rest[k].valid() by {
                if k < i {
                    assert(rest[k] == db.companies[k]);
                } else {
                    assert(rest[k] == db.companies[k + 1]);
                }
            }
            assert forall|k: int, l: int| 0 <= k < l < rest.len() implies (#[trigger] rest[k]).id
                != (#[trigger] rest[l]).id && rest[k].code != rest[l].code by {
                let k0 = if k < i { k } else { k + 1 };
                let l0 = if l < i { l } else { l + 1 };
                assert(rest[k] == db.companies[k0]);
                assert(rest[l] == db.companies[l0]);
            }
        } else {
            let written = new.with_id(db.next_company_id);
            assert(written.fields() == new);
            assert(after.companies == db.companies.push(written));
        }
    }
}

proof fn lemma_item_commands_keep_wf(db: DbView, c: Command)
    requires
        db.wf(),
        c is CreateItem || c is UpdateItem || c is DeleteItem,
    ensures
        step(db, c).wf(),
{
    match c {
        Command::CreateItem { item: new } => {
            if let Ok(after) = create_item_outcome(db, new) {
                let written = new.with_id(db.next_item_id);
                assert(written.fields() == new);
                assert(after.items == db.items.push(written));
            }
        },
        Command::UpdateItem { id, item: new } => {
            if let Ok(after) = update_item_outcome(db, id, new) {
                let written = new.with_id(id);
                assert(written.fields() == new);
                let i = item_index(db.items, id);
                assert(db.items[i].id == id);
                assert(after.items == db.items.update(i, written));
            }
        },
        Command::DeleteItem { id } => {
            if let Ok(after) = delete_item_outcome(db, id) {
                let i = item_index(db.items, id);
                let rest = db.items.remove(i);
                assert(after.items == rest);
                assert forall|k: int| 0 <= k < rest.len() implies 1 <= (#[trigger] rest[k]).id
                    < db.next_item_id && rest[k].valid() by {
                    if k < i {
                        assert(rest[k] == db.items[k]);
                    } else {
                        assert(rest[k] == db.items[k + 1]);
                    }
                }
                assert forall|k: int, l: int| 0 <= k < l < rest.len() implies (
                #[trigger] rest[k]).id != (#[trigger] rest[l]).id by {
                    let k0 = if k < i { k } else { k + 1 };
                    let l0 = if l < i { l } else { l + 1 };
                    assert(rest[k] == db.items[k0]);
                    assert(rest[l] == db.items[l0]);
                }
            }
        },
        _ => {},
    }
}

proof fn lemma_supplier_commands_keep_wf(db: DbView, c: Command)
    requires
        db.wf(),
        c is CreateSupplier || c is UpdateSupplier || c is DeleteSupplier,
    ensures
        step(db, c).wf(),
{
    match c {
        Command::CreateSupplier { supplier: new } => {
            if let Ok(after) = create_supplier_outcome(db, new) {
                let written = new.with_id(db.next_supplier_id);
                assert(written.fields() == new);
                assert(after.suppliers == db.suppliers.push(written));
                assert forall|k: int| 0 <= k < db.suppliers.len() implies (
                #[trigger] db.suppliers[k]).code != written.code by {
                    assert(db.suppliers[k].id != db.next_supplier_id);
                }
            }
        },
        Command::UpdateSupplier { id, supplier: new } => {
            if let Ok(after) = update_supplier_outcome(db, id, new) {
                let written = new.with_id(id);
                assert(written.fields() == new);
                let i = supplier_index(db.suppliers, id);
                assert(db.suppliers[i].id == id);
                assert(after.suppliers == db.suppliers.update(i, written));
                assert forall|k: int| 0 <= k < db.suppliers.len() && k != i implies (
                #[trigger] db.suppliers[k]).code != written.code by {
                    assert(db.suppliers[k].id != id);
                }
            }
        },
        Command::DeleteSupplier { id } => {
            if let Ok(after) = delete_supplier_outcome(db, id) {
                let i = supplier_index(db.suppliers, id);
                let rest = db.suppliers.remove(i);
                assert(after.suppliers == rest);
                assert forall|k: int| 0 <= k < rest.len() implies 1 <= (#[trigger] rest[k]).id
                    < db.next_supplier_id && rest[k].valid() by {
                    if k < i {
                        assert(rest[k] == db.suppliers[k]);
                    } else {
                        assert(rest[k] == db.suppliers[k + 1]);
                    }
                }
                assert forall|k: int, l: int| 0 <= k < l < rest.len() implies (
                #[trigger] rest[k]).id != (#[trigger] rest[l]).id && rest[k].code
                    != rest[l].code by {
                    let k0 = if k < i { k } else { k + 1 };
                    let l0 = if l < i { l } else { l + 1 };
                    assert(rest[k] == db.suppliers[k0]);
                    assert(rest[l] == db.suppliers[l0]);
                }
            }
        },
        _ => {},
    }
}

/// Replacing an invoice by one with the same identifier, supplier and
/// document number that keeps its own invariant keeps that of the store.
proof fn lemma_with_invoice_keeps_wf(db: DbView, i: int, a: AggregateView)
    requires
        db.wf(),
        0 <= i < db.invoices.len(),
        a.wf(),
        a.invoice.id == db.invoices[i].invoice.id,
        a.invoice.supplier_id == db.invoices[i].invoice.supplier_id,
        a.invoice.document_number == db.invoices[i].invoice.document_number,
    ensures
        db.with_invoice(i, a).wf(),
{
    let after = db.invoices.update(i, a);
    assert forall|k: int, l: int| 0 <= k < l < after.len() implies (
    #[trigger] after[k]).invoice.id != (#[trigger] after[l]).invoice.id && !(
    after[k].invoice.supplier_id == after[l].invoice.supplier_id
        && after[k].invoice.document_number == after[l].invoice.document_number) by {
        assert(after[k].invoice.id == db.invoices[k].invoice.id);
        assert(after[l].invoice.id == db.invoices[l].invoice.id);
    }
}

proof fn lemma_invoice_commands_keep_wf(db: DbView, c: Command)
    requires
        db.wf(),
        c is InitializeInvoice || c is AddLineItem || c is RemoveLineItem || c is CompleteInvoice
            || c is DeleteInvoice,
    ensures
        step(db, c).wf(),
{
    match c {
        Command::InitializeInvoice { invoice: new } => {
            if let Ok(after) = initialize_invoice_outcome(db, new) {
                let a = after.invoices.last();
                assert(after.invoices == db.invoices.push(a));
                assert(a.line_items.len() == 0);
                assert(a.wf());
                assert forall|k: int| 0 <= k < db.invoices.len() implies !((
                #[trigger] db.invoices[k]).invoice.supplier_id == a.invoice.supplier_id
                    && db.invoices[k].invoice.document_number == a.invoice.document_number) by {
                }
            }
        },
        Command::AddLineItem { id, item_id, price_override, quantity, discount } => {
            if let Ok(after) = add_line_item_outcome(
                db,
                id,
                item_id,
                price_override,
                quantity,
                discount,
            ) {
                let i = invoice_index(db.invoices, id);
                let item = db.items[item_index(db.items, item_id)];
                lemma_add_line_keeps_wf(db.invoices[i], item, price_override, quantity, discount);
                lemma_with_invoice_keeps_wf(db, i, after.invoices[i]);
            }
        },
        Command::RemoveLineItem { id, item_id } => {
            if let Ok(after) = remove_line_item_outcome(db, id, item_id) {
                let i = invoice_index(db.invoices, id);
                lemma_remove_line_keeps_wf(db.invoices[i], item_id);
                lemma_with_invoice_keeps_wf(db, i, after.invoices[i]);
            }
        },
        Command::CompleteInvoice { id } => {
            if let Ok(after) = complete_invoice_outcome(db, id) {
                let i = invoice_index(db.invoices, id);
                lemma_complete_keeps_wf(db.invoices[i]);
                lemma_with_invoice_keeps_wf(db, i, after.invoices[i]);
            }
        },
        Command::DeleteInvoice { id } => {
            if let Ok(after) = delete_invoice_outcome(db, id) {
                let i = invoice_index(db.invoices, id);
                let rest = db.invoices.remove(i);
                assert(after.invoices == rest);
                assert forall|k: int| 0 <= k < rest.len() implies 1 <= (
                #[trigger] rest[k]).invoice.id < db.next_invoice_id && rest[k].wf() by {
                    if k < i {
                        assert(rest[k] == db.invoices[k]);
                    } else {
                        assert(rest[k] == db.invoices[k + 1]);
                    }
                }
                assert forall|k: int, l: int| 0 <= k < l < rest.len() implies (
                #[trigger] rest[k]).invoice.id != (#[trigger] rest[l]).invoice.id && !(
                rest[k].invoice.supplier_id == rest[l].invoice.supplier_id
                    && rest[k].invoice.document_number == rest[l].invoice.document_number) by {
                    let k0 = if k < i { k } else { k + 1 };
                    let l0 = if l < i { l } else { l + 1 };
                    assert(rest[k] == db.invoices[k0]);
                    assert(rest[l] == db.invoices[l0]);
                }
            }
        },
        _ => {},
    }
}

/// Every operation keeps the invariant of the store, whether it succeeds
/// or is refused.
pub proof fn lemma_step_keeps_wf(db: DbView, c: Command)
    requires
        db.wf(),
    ensures
        step(db, c).wf(),
{
    match c {
        Command::UpsertCompany { .. } => lemma_upsert_company_keeps_wf(db, c),
        Command::CreateItem { .. } | Command::UpdateItem { .. } | Command::DeleteItem { .. } => {
            lemma_item_commands_keep_wf(db, c)
        },
        Command::CreateSupplier { .. }
        | Command::UpdateSupplier { .. }
        | Command::DeleteSupplier { .. } => lemma_supplier_commands_keep_wf(db, c),
        _ => lemma_invoice_commands_keep_wf(db, c),
    }
}

/// After any sequence of operations on a well-formed store, the store is
/// well formed, and the amounts of every invoice are the sums over its
/// current lines: the subtotal is the sum of the lines' subtotals, the tax
/// amount the sum of their tax amounts, and the total is subtotal plus tax
/// amount.
pub proof fn lemma_amounts_follow_lines(db: DbView, commands: Seq<Command>)
    requires
        db.wf(),
    ensures
        run(db, commands).wf(),
        forall|k: int|
            0 <= k < run(db, commands).invoices.len() ==> {
                let a = #[trigger] run(db, commands).invoices[k];
                &&& a.invoice.subtotal == sum_subtotals(a.line_items)
                &&& a.invoice.tax_amount == sum_tax_amounts(a.line_items)
                &&& a.invoice.total == a.invoice.subtotal + a.invoice.tax_amount
            },
    decreases commands.len(),
{
    if commands.len() > 0 {
        lemma_amounts_follow_lines(db, commands.drop_last());
        lemma_step_keeps_wf(run(db, commands.drop_last()), commands.last());
    }
}

/// No operation changes a completed invoice: after the operation the
/// store holds the invoice as it was, still completed.
pub proof fn lemma_completed_survives_step(db: DbView, c: Command, id: i32)
    requires
        db.wf(),
        db.invoice(id) is Some,
        db.invoice(id)->Some_0.invoice.status == InvoiceStatus::Completed,
    ensures
        step(db, c).invoice(id) == db.invoice(id),
{
    let i = invoice_index(db.invoices, id);
    let a = db.invoices[i];
    let after = step(db, c);
    lemma_step_keeps_wf(db, c);
    assert(a.invoice.id == id);
    // The place of the invoice after the operation.
    let place: int = match c {
        Command::DeleteInvoice { id: other } => {
            if outcome(db, c) is Ok && invoice_index(db.invoices, other) < i {
                i - 1
            } else {
                i
            }
        },
        _ => i,
    };
    match c {
        Command::AddLineItem { id: other, .. } => {
            if outcome(db, c) is Ok {
                lemma_invoice_found(db, invoice_index(db.invoices, other));
            }
        },
        Command::RemoveLineItem { id: other, .. } => {
            if outcome(db, c) is Ok {
                lemma_invoice_found(db, invoice_index(db.invoices, other));
            }
        },
        Command::CompleteInvoice { id: other } => {
            if outcome(db, c) is Ok {
                lemma_invoice_found(db, invoice_index(db.invoices, other));
            }
        },
        Command::DeleteInvoice { id: other } => {
            if outcome(db, c) is Ok {
                lemma_invoice_found(db, invoice_index(db.invoices, other));
            }
        },
        _ => {},
    }
    assert(0 <= place < after.invoices.len());
    assert(after.invoices[place] == a);
    lemma_invoice_found(after, place);
}

/// Completing is not reversible: whatever sequence of operations follows,
/// a completed invoice stays in the store, completed and unchanged.
pub proof fn lemma_completed_is_final(db: DbView, commands: Seq<Command>, id: i32)
    requires
        db.wf(),
        db.invoice(id) is Some,
        db.invoice(id)->Some_0.invoice.status == InvoiceStatus::Completed,
    ensures
        run(db, commands).invoice(id) == db.invoice(id),
    decreases commands.len(),
{
    if commands.len() > 0 {
        lemma_completed_is_final(db, commands.drop_last(), id);
        lemma_amounts_follow_lines(db, commands.drop_last());
        lemma_completed_survives_step(run(db, commands.drop_last()), commands.last(), id);
    }
}

/// Adding a line to, removing a line from, completing and deleting a
/// completed invoice are all refused with `InvoiceNotDraft`, and the store
/// stays as it was.
pub proof fn lemma_completed_refuses_changes(db: DbView, c: Command, id: i32)
    requires
        db.wf(),
        db.invoice(id) is Some,
        db.invoice(id)->Some_0.invoice.status == InvoiceStatus::Completed,
        match c {
            Command::AddLineItem { id: target, .. } => target == id,
            Command::RemoveLineItem { id: target, .. } => target == id,
            Command::CompleteInvoice { id: target } => target == id,
            Command::DeleteInvoice { id: target } => target == id,
            _ => false,
        },
    ensures
        outcome(db, c) == Err::<DbView, InvoiceError>(InvoiceError::InvoiceNotDraft),
        step(db, c) == db,
{
}

/// An invoice without lines cannot be completed: the attempt is refused
/// with `EmptyInvoice`.
pub proof fn lemma_empty_invoice_stays_draft(db: DbView, id: i32)
    requires
        db.wf(),
        db.invoice(id) is Some,
        db.invoice(id)->Some_0.line_items.len() == 0,
    ensures
        complete_invoice_outcome(db, id) == Err::<DbView, InvoiceError>(
            InvoiceError::EmptyInvoice,
        ),
{
    let i = invoice_index(db.invoices, id);
    assert(db.invoices[i].wf());
}

/// Storing, changing and removing items leaves every invoice as it is: a
/// line keeps the name, unit, tax rate, prices and amounts that it took
/// from the item when it was made.
pub proof fn lemma_lines_ignore_item_changes(db: DbView, c: Command)
    requires
        c is CreateItem || c is UpdateItem || c is DeleteItem,
    ensures
        step(db, c).invoices == db.invoices,
{
}

/// A supplier cannot have two invoices with one document number, while
/// different suppliers can: starting an invoice with a filled-in document
/// number for an existing supplier is refused with
/// `DuplicateDocumentNumber` exactly if an invoice of that same supplier
/// has the number already, and else succeeds while identifiers are left.
pub proof fn lemma_document_number_per_supplier(db: DbView, new: NewInvoiceView)
    requires
        db.wf(),
        new.document_number.len() > 0,
        has_supplier(db.suppliers, new.supplier_id),
    ensures
        document_number_in_use(db.invoices, new.supplier_id, new.document_number)
            <==> initialize_invoice_outcome(db, new) == Err::<DbView, InvoiceError>(
            InvoiceError::DuplicateDocumentNumber,
        ),
        !document_number_in_use(db.invoices, new.supplier_id, new.document_number)
            && db.next_invoice_id < i32::MAX ==> initialize_invoice_outcome(db, new) is Ok,
{
}

} // verus!
