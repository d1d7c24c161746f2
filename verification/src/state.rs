//! The store as a mathematical value, and what each operation makes of it.
//!
//! Every operation of the service is described here as a function from the
//! state before it to the state after it, or to the error with which it is
//! refused. A refused operation leaves the state as it was.

use vstd::prelude::*;
use crate::aggregate::{
    add_line_outcome, complete_outcome, delete_outcome, initialize_outcome, remove_line_outcome,
    AggregateView,
};
use crate::catalog::{company_validation, item_validation, supplier_validation};
use crate::error::InvoiceError;
use crate::models::{
    CompanyView, InvoiceStatus, InvoiceView, InvoiceWithDetailsView, ItemView, NewCompanyView,
    NewInvoiceView, NewItemView, NewSupplierView, SupplierView,
};

verus! {

/// Whether some company carries the code `code`.
pub open spec fn has_company_code(companies: Seq<CompanyView>, code: Seq<char>) -> bool {
    exists|i: int| 0 <= i < companies.len() && (#[trigger] companies[i]).code == code
}

/// The place of a company with the code `code`, if there is one.
pub open spec fn company_code_index(companies: Seq<CompanyView>, code: Seq<char>) -> int {
    choose|i: int| 0 <= i < companies.len() && (#[trigger] companies[i]).code == code
}

/// Whether some item has the identifier `id`.
pub open spec fn has_item(items: Seq<ItemView>, id: i32) -> bool {
    exists|i: int| 0 <= i < items.len() && (#[trigger] items[i]).id == id
}

/// The place of an item with the identifier `id`, if there is one.
pub open spec fn item_index(items: Seq<ItemView>, id: i32) -> int {
    choose|i: int| 0 <= i < items.len() && (#[trigger] items[i]).id == id
}

/// Whether some supplier has the identifier `id`.
pub open spec fn has_supplier(suppliers: Seq<SupplierView>, id: i32) -> bool {
    exists|i: int| 0 <= i < suppliers.len() && (#[trigger] suppliers[i]).id == id
}

/// The place of a supplier with the identifier `id`, if there is one.
pub open spec fn supplier_index(suppliers: Seq<SupplierView>, id: i32) -> int {
    choose|i: int| 0 <= i < suppliers.len() && (#[trigger] suppliers[i]).id == id
}

/// Whether a supplier other than `except_id` carries the code `code`.
pub open spec fn supplier_code_in_use(
    suppliers: Seq<SupplierView>,
    code: Seq<char>,
    except_id: i32,
) -> bool {
    exists|i: int|
        0 <= i < suppliers.len() && (#[trigger] suppliers[i]).code == code && suppliers[i].id
            != except_id
}

/// Whether some invoice has the identifier `id`.
pub open spec fn has_invoice(invoices: Seq<AggregateView>, id: i32) -> bool {
    exists|i: int| 0 <= i < invoices.len() && (#[trigger] invoices[i]).invoice.id == id
}

/// The place of an invoice with the identifier `id`, if there is one.
pub open spec fn invoice_index(invoices: Seq<AggregateView>, id: i32) -> int {
    choose|i: int| 0 <= i < invoices.len() && (#[trigger] invoices[i]).invoice.id == id
}

/// Whether the supplier `supplier_id` already has an invoice with the
/// document number `number`.
pub open spec fn document_number_in_use(
    invoices: Seq<AggregateView>,
    supplier_id: i32,
    number: Seq<char>,
) -> bool {
    exists|i: int|
        0 <= i < invoices.len() && (#[trigger] invoices[i]).invoice.supplier_id == supplier_id
            && invoices[i].invoice.document_number == number
}

/// The headers of the invoices, in order.
pub open spec fn headers(invoices: Seq<AggregateView>) -> Seq<InvoiceView> {
    Seq::new(invoices.len(), |i: int| invoices[i].invoice)
}

/// The companies are valid, and no two share an identifier or a code.
pub open spec fn companies_wf(companies: Seq<CompanyView>, next: i32) -> bool {
    &&& next >= 1
    &&& forall|i: int|
        0 <= i < companies.len() ==> 1 <= (#[trigger] companies[i]).id < next
            && companies[i].valid()
    &&& forall|i: int, j: int|
        0 <= i < j < companies.len() ==> (#[trigger] companies[i]).id != (
        #[trigger] companies[j]).id && companies[i].code != companies[j].code
}

/// The items are valid, and no two share an identifier.
pub open spec fn items_wf(items: Seq<ItemView>, next: i32) -> bool {
    &&& next >= 1
    &&& forall|i: int|
        0 <= i < items.len() ==> 1 <= (#[trigger] items[i]).id < next && items[i].valid()
    &&& forall|i: int, j: int|
        0 <= i < j < items.len() ==> (#[trigger] items[i]).id != (#[trigger] items[j]).id
}

/// The suppliers are valid, and no two share an identifier or a code.
pub open spec fn suppliers_wf(suppliers: Seq<SupplierView>, next: i32) -> bool {
    &&& next >= 1
    &&& forall|i: int|
        0 <= i < suppliers.len() ==> 1 <= (#[trigger] suppliers[i]).id < next
            && suppliers[i].valid()
    &&& forall|i: int, j: int|
        0 <= i < j < suppliers.len() ==> (#[trigger] suppliers[i]).id != (
        #[trigger] suppliers[j]).id && suppliers[i].code != suppliers[j].code
}

/// Every invoice keeps its invariant, no two share an identifier, and no
/// two of one supplier share a document number.
pub open spec fn invoices_wf(invoices: Seq<AggregateView>, next: i32) -> bool {
    &&& next >= 1
    &&& forall|i: int|
        0 <= i < invoices.len() ==> 1 <= (#[trigger] invoices[i]).invoice.id < next
            && invoices[i].wf()
    &&& forall|i: int, j: int|
        0 <= i < j < invoices.len() ==> (#[trigger] invoices[i]).invoice.id != (
        #[trigger] invoices[j]).invoice.id && !(invoices[i].invoice.supplier_id
            == invoices[j].invoice.supplier_id && invoices[i].invoice.document_number
            == invoices[j].invoice.document_number)
}

/// The whole store: the records in the order in which they were stored
/// (companies: least recently written first), and the identifier that the
/// next record of each kind gets.
pub struct DbView {
    pub companies: Seq<CompanyView>,
    pub items: Seq<ItemView>,
    pub suppliers: Seq<SupplierView>,
    pub invoices: Seq<AggregateView>,
    pub next_company_id: i32,
    pub next_item_id: i32,
    pub next_supplier_id: i32,
    pub next_invoice_id: i32,
}

impl DbView {
    /// The store without any record.
    pub open spec fn empty() -> DbView {
        DbView {
            companies: Seq::empty(),
            items: Seq::empty(),
            suppliers: Seq::empty(),
            invoices: Seq::empty(),
            next_company_id: 1,
            next_item_id: 1,
            next_supplier_id: 1,
            next_invoice_id: 1,
        }
    }

    /// The invariant of the store.
    pub open spec fn wf(self) -> bool {
        &&& companies_wf(self.companies, self.next_company_id)
        &&& items_wf(self.items, self.next_item_id)
        &&& suppliers_wf(self.suppliers, self.next_supplier_id)
        &&& invoices_wf(self.invoices, self.next_invoice_id)
    }

    /// The company in use: the one written last.
    pub open spec fn company(self) -> Option<CompanyView> {
        if self.companies.len() > 0 {
            Some(self.companies.last())
        } else {
            None
        }
    }

    /// The item with the identifier `id`.
    pub open spec fn item(self, id: i32) -> Option<ItemView> {
        if has_item(self.items, id) {
            Some(self.items[item_index(self.items, id)])
        } else {
            None
        }
    }

    /// The supplier with the identifier `id`.
    pub open spec fn supplier(self, id: i32) -> Option<SupplierView> {
        if has_supplier(self.suppliers, id) {
            Some(self.suppliers[supplier_index(self.suppliers, id)])
        } else {
            None
        }
    }

    /// The invoice with the identifier `id`.
    pub open spec fn invoice(self, id: i32) -> Option<AggregateView> {
        if has_invoice(self.invoices, id) {
            Some(self.invoices[invoice_index(self.invoices, id)])
        } else {
            None
        }
    }

    /// Whether an invoice once had the identifier `id`, stored or deleted.
    pub open spec fn was_issued(self, id: i32) -> bool {
        1 <= id < self.next_invoice_id
    }

    /// The invoice that an operation is to change: `InvoiceNotDraft` where
    /// it was deleted, `UnknownInvoice` where there never was one.
    pub open spec fn invoice_to_change(self, id: i32) -> Result<int, InvoiceError> {
        if has_invoice(self.invoices, id) {
            Ok(invoice_index(self.invoices, id))
        } else if self.was_issued(id) {
            Err(InvoiceError::InvoiceNotDraft)
        } else {
            Err(InvoiceError::UnknownInvoice)
        }
    }

    /// This store with the invoice at the place `i` replaced by `a`.
    pub open spec fn with_invoice(self, i: int, a: AggregateView) -> DbView {
        DbView { invoices: self.invoices.update(i, a), ..self }
    }

    /// The invoice `a` as it is shown, with its supplier where the store
    /// still has it.
    pub open spec fn details(self, a: AggregateView) -> InvoiceWithDetailsView {
        InvoiceWithDetailsView {
            id: a.invoice.id,
            supplier_id: a.invoice.supplier_id,
            supplier: self.supplier(a.invoice.supplier_id),
            line_items: a.line_items,
            subtotal: a.invoice.subtotal,
            tax_amount: a.invoice.tax_amount,
            total: a.invoice.total,
            date: a.invoice.date,
            document_number: a.invoice.document_number,
            status: a.invoice.status,
        }
    }
}

/// Writing a company: the fields are validated; a company with the same
/// code keeps its identifier and takes the new fields, else a new company
/// is stored. Either way the company becomes the one in use.
pub open spec fn upsert_company_outcome(db: DbView, new: NewCompanyView) -> Result<
    DbView,
    InvoiceError,
> {
    match company_validation(new) {
        Err(e) => Err(e),
        Ok(_) => {
            if has_company_code(db.companies, new.code) {
                let i = company_code_index(db.companies, new.code);
                Ok(
                    DbView {
                        companies: db.companies.remove(i).push(new.with_id(db.companies[i].id)),
                        ..db
                    },
                )
            } else if db.next_company_id == i32::MAX {
                Err(InvoiceError::LimitExceeded)
            } else {
                Ok(
                    DbView {
                        companies: db.companies.push(new.with_id(db.next_company_id)),
                        next_company_id: (db.next_company_id + 1) as i32,
                        ..db
                    },
                )
            }
        },
    }
}

/// Storing a new item.
pub open spec fn create_item_outcome(db: DbView, new: NewItemView) -> Result<DbView, InvoiceError> {
    match item_validation(new) {
        Err(e) => Err(e),
        Ok(_) => {
            if db.next_item_id == i32::MAX {
                Err(InvoiceError::LimitExceeded)
            } else {
                Ok(
                    DbView {
                        items: db.items.push(new.with_id(db.next_item_id)),
                        next_item_id: (db.next_item_id + 1) as i32,
                        ..db
                    },
                )
            }
        },
    }
}

/// Replacing the fields of the item `id`.
pub open spec fn update_item_outcome(db: DbView, id: i32, new: NewItemView) -> Result<
    DbView,
    InvoiceError,
> {
    match item_validation(new) {
        Err(e) => Err(e),
        Ok(_) => {
            if !has_item(db.items, id) {
                Err(InvoiceError::UnknownItem)
            } else {
                Ok(
                    DbView {
                        items: db.items.update(item_index(db.items, id), new.with_id(id)),
                        ..db
                    },
                )
            }
        },
    }
}

/// Removing the item `id`.
pub open spec fn delete_item_outcome(db: DbView, id: i32) -> Result<DbView, InvoiceError> {
    if !has_item(db.items, id) {
        Err(InvoiceError::UnknownItem)
    } else {
        Ok(DbView { items: db.items.remove(item_index(db.items, id)), ..db })
    }
}

/// Storing a new supplier.
pub open spec fn create_supplier_outcome(db: DbView, new: NewSupplierView) -> Result<
    DbView,
    InvoiceError,
> {
    match supplier_validation(new) {
        Err(e) => Err(e),
        Ok(_) => {
            if supplier_code_in_use(db.suppliers, new.code, db.next_supplier_id) {
                Err(InvoiceError::DuplicateCode)
            } else if db.next_supplier_id == i32::MAX {
                Err(InvoiceError::LimitExceeded)
            } else {
                Ok(
                    DbView {
                        suppliers: db.suppliers.push(new.with_id(db.next_supplier_id)),
                        next_supplier_id: (db.next_supplier_id + 1) as i32,
                        ..db
                    },
                )
            }
        },
    }
}

/// Replacing the fields of the supplier `id`.
pub open spec fn update_supplier_outcome(db: DbView, id: i32, new: NewSupplierView) -> Result<
    DbView,
    InvoiceError,
> {
    match supplier_validation(new) {
        Err(e) => Err(e),
        Ok(_) => {
            if !has_supplier(db.suppliers, id) {
                Err(InvoiceError::UnknownSupplier)
            } else if supplier_code_in_use(db.suppliers, new.code, id) {
                Err(InvoiceError::DuplicateCode)
            } else {
                Ok(
                    DbView {
                        suppliers: db.suppliers.update(
                            supplier_index(db.suppliers, id),
                            new.with_id(id),
                        ),
                        ..db
                    },
                )
            }
        },
    }
}

/// Removing the supplier `id`. Invoices of the supplier stay.
pub open spec fn delete_supplier_outcome(db: DbView, id: i32) -> Result<DbView, InvoiceError> {
    if !has_supplier(db.suppliers, id) {
        Err(InvoiceError::UnknownSupplier)
    } else {
        Ok(DbView { suppliers: db.suppliers.remove(supplier_index(db.suppliers, id)), ..db })
    }
}

/// Starting an invoice: an empty draft for an existing supplier, under a
/// document number that the supplier has not used yet.
pub open spec fn initialize_invoice_outcome(db: DbView, new: NewInvoiceView) -> Result<
    DbView,
    InvoiceError,
> {
    match initialize_outcome(db.next_invoice_id, new) {
        Err(e) => Err(e),
        Ok(a) => {
            if !has_supplier(db.suppliers, new.supplier_id) {
                Err(InvoiceError::UnknownSupplier)
            } else if document_number_in_use(db.invoices, new.supplier_id, new.document_number) {
                Err(InvoiceError::DuplicateDocumentNumber)
            } else if db.next_invoice_id == i32::MAX {
                Err(InvoiceError::LimitExceeded)
            } else {
                Ok(
                    DbView {
                        invoices: db.invoices.push(a),
                        next_invoice_id: (db.next_invoice_id + 1) as i32,
                        ..db
                    },
                )
            }
        },
    }
}

/// Adding a line for the item `item_id` to the invoice `id`.
pub open spec fn add_line_item_outcome(
    db: DbView,
    id: i32,
    item_id: i32,
    price_override: Option<i64>,
    quantity: i64,
    discount: i32,
) -> Result<DbView, InvoiceError> {
    match db.invoice_to_change(id) {
        Err(e) => Err(e),
        Ok(i) => {
            if db.invoices[i].invoice.status != InvoiceStatus::Draft {
                Err(InvoiceError::InvoiceNotDraft)
            } else if !has_item(db.items, item_id) {
                Err(InvoiceError::UnknownItem)
            } else {
                match add_line_outcome(
                    db.invoices[i],
                    db.items[item_index(db.items, item_id)],
                    price_override,
                    quantity,
                    discount,
                ) {
                    Err(e) => Err(e),
                    Ok(a) => Ok(db.with_invoice(i, a)),
                }
            }
        },
    }
}

/// Removing the line for the item `item_id` from the invoice `id`.
pub open spec fn remove_line_item_outcome(db: DbView, id: i32, item_id: i32) -> Result<
    DbView,
    InvoiceError,
> {
    match db.invoice_to_change(id) {
        Err(e) => Err(e),
        Ok(i) => match remove_line_outcome(db.invoices[i], item_id) {
            Err(e) => Err(e),
            Ok(a) => Ok(db.with_invoice(i, a)),
        },
    }
}

/// Completing the invoice `id`.
pub open spec fn complete_invoice_outcome(db: DbView, id: i32) -> Result<DbView, InvoiceError> {
    match db.invoice_to_change(id) {
        Err(e) => Err(e),
        Ok(i) => match complete_outcome(db.invoices[i]) {
            Err(e) => Err(e),
            Ok(a) => Ok(db.with_invoice(i, a)),
        },
    }
}

/// Deleting the invoice `id` with its lines.
pub open spec fn delete_invoice_outcome(db: DbView, id: i32) -> Result<DbView, InvoiceError> {
    match db.invoice_to_change(id) {
        Err(e) => Err(e),
        Ok(i) => match delete_outcome(db.invoices[i]) {
            Err(e) => Err(e),
            Ok(_) => Ok(DbView { invoices: db.invoices.remove(i), ..db }),
        },
    }
}

/// An operation that changes the store, with its arguments.
pub enum Command {
    UpsertCompany { company: NewCompanyView },
    CreateItem { item: NewItemView },
    UpdateItem { id: i32, item: NewItemView },
    DeleteItem { id: i32 },
    CreateSupplier { supplier: NewSupplierView },
    UpdateSupplier { id: i32, supplier: NewSupplierView },
    DeleteSupplier { id: i32 },
    InitializeInvoice { invoice: NewInvoiceView },
    AddLineItem {
        id: i32,
        item_id: i32,
        price_override: Option<i64>,
        quantity: i64,
        discount: i32,
    },
    RemoveLineItem { id: i32, item_id: i32 },
    CompleteInvoice { id: i32 },
    DeleteInvoice { id: i32 },
}

/// The state after the operation, or the error with which it is refused.
pub open spec fn outcome(db: DbView, c: Command) -> Result<DbView, InvoiceError> {
    match c {
        Command::UpsertCompany { company } => upsert_company_outcome(db, company),
        Command::CreateItem { item } => create_item_outcome(db, item),
        Command::UpdateItem { id, item } => update_item_outcome(db, id, item),
        Command::DeleteItem { id } => delete_item_outcome(db, id),
        Command::CreateSupplier { supplier } => create_supplier_outcome(db, supplier),
        Command::UpdateSupplier { id, supplier } => update_supplier_outcome(db, id, supplier),
        Command::DeleteSupplier { id } => delete_supplier_outcome(db, id),
        Command::InitializeInvoice { invoice } => initialize_invoice_outcome(db, invoice),
        Command::AddLineItem { id, item_id, price_override, quantity, discount } => {
            add_line_item_outcome(db, id, item_id, price_override, quantity, discount)
        },
        Command::RemoveLineItem { id, item_id } => remove_line_item_outcome(db, id, item_id),
        Command::CompleteInvoice { id } => complete_invoice_outcome(db, id),
        Command::DeleteInvoice { id } => delete_invoice_outcome(db, id),
    }
}

/// The state after the operation; a refused operation changes nothing.
pub open spec fn step(db: DbView, c: Command) -> DbView {
    match outcome(db, c) {
        Ok(after) => after,
        Err(_) => db,
    }
}

/// The state after a sequence of operations, first to last.
pub open spec fn run(db: DbView, commands: Seq<Command>) -> DbView
    decreases commands.len(),
{
    if commands.len() == 0 {
        db
    } else {
        step(run(db, commands.drop_last()), commands.last())
    }
}

} // verus!
