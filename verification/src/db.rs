//! The store: the records of the service, held in memory.

use vstd::prelude::*;
use crate::aggregate::InvoiceAggregate;
use crate::error::InvoiceError;
use crate::invariants::lemma_invoice_found;
use crate::models::{views, Company, Item, Supplier};
use crate::state::{
    document_number_in_use, has_company_code, has_invoice, has_item, has_supplier,
    supplier_code_in_use, DbView,
};

verus! {

/// The records of the service. Only the operations of this crate change
/// them, and each keeps the invariant `wf`.
#[derive(Debug)]
pub struct Db {
    pub(crate) companies: Vec<Company>,
    pub(crate) items: Vec<Item>,
    pub(crate) suppliers: Vec<Supplier>,
    pub(crate) invoices: Vec<InvoiceAggregate>,
    pub(crate) next_company_id: i32,
    pub(crate) next_item_id: i32,
    pub(crate) next_supplier_id: i32,
    pub(crate) next_invoice_id: i32,
}

impl View for Db {
    type V = DbView;

    open(crate) spec fn view(&self) -> DbView {
        DbView {
            companies: views(self.companies@),
            items: views(self.items@),
            suppliers: views(self.suppliers@),
            invoices: views(self.invoices@),
            next_company_id: self.next_company_id,
            next_item_id: self.next_item_id,
            next_supplier_id: self.next_supplier_id,
            next_invoice_id: self.next_invoice_id,
        }
    }
}

impl Default for Db {
    fn default() -> (r: Db)
        ensures
            r@ == DbView::empty(),
            r.wf(),
    {
        Db::new()
    }
}

impl Db {
    /// The invariant of the store, see `DbView::wf`.
    pub open spec fn wf(&self) -> bool {
        self@.wf()
    }

    /// The store without any record.
    pub fn new() -> (r: Db)
        ensures
            r@ == DbView::empty(),
            r.wf(),
    {
        let db = Db {
            companies: Vec::new(),
            items: Vec::new(),
            suppliers: Vec::new(),
            invoices: Vec::new(),
            next_company_id: 1,
            next_item_id: 1,
            next_supplier_id: 1,
            next_invoice_id: 1,
        };
        assert(db@.companies =~= Seq::empty());
        assert(db@.items =~= Seq::empty());
        assert(db@.suppliers =~= Seq::empty());
        assert(db@.invoices =~= Seq::empty());
        db
    }

    /// The place of the company with the code `code`, if the store has one.
    pub(crate) fn company_position(&self, code: &String) -> (r: Option<usize>)
        ensures
            r is Some <==> has_company_code(self@.companies, code@),
            r matches Some(i) ==> i < self.companies.len() && self.companies[i as int].code@
                == code@,
    {
        let mut i: usize = 0;
        while i < self.companies.len()
            invariant
                i <= self.companies.len(),
                forall|j: int| 0 <= j < i ==> (#[trigger] self@.companies[j]).code != code@,
            decreases self.companies.len() - i,
        {
            if self.companies[i].code == *code {
                assert(self@.companies[i as int].code == code@);
                return Some(i);
            }
            i += 1;
        }
        None
    }

    /// The place of the item `id`, if the store has it.
    pub(crate) fn item_position(&self, id: i32) -> (r: Option<usize>)
        ensures
            r is Some <==> has_item(self@.items, id),
            r matches Some(i) ==> i < self.items.len() && self.items[i as int].id == id,
    {
        let mut i: usize = 0;
        while i < self.items.len()
            invariant
                i <= self.items.len(),
                forall|j: int| 0 <= j < i ==> (#[trigger] self@.items[j]).id != id,
            decreases self.items.len() - i,
        {
            if self.items[i].id == id {
                assert(self@.items[i as int].id == id);
                return Some(i);
            }
            i += 1;
        }
        None
    }

    /// The place of the supplier `id`, if the store has it.
    pub(crate) fn supplier_position(&self, id: i32) -> (r: Option<usize>)
        ensures
            r is Some <==> has_supplier(self@.suppliers, id),
            r matches Some(i) ==> i < self.suppliers.len() && self.suppliers[i as int].id == id,
    {
        let mut i: usize = 0;
        while i < self.suppliers.len()
            invariant
                i <= self.suppliers.len(),
                forall|j: int| 0 <= j < i ==> (#[trigger] self@.suppliers[j]).id != id,
            decreases self.suppliers.len() - i,
        {
            if self.suppliers[i].id == id {
                assert(self@.suppliers[i as int].id == id);
                return Some(i);
            }
            i += 1;
        }
        None
    }

    /// Whether a supplier other than `except_id` carries the code `code`.
    pub(crate) fn supplier_code_taken(&self, code: &String, except_id: i32) -> (r: bool)
        ensures
            r == supplier_code_in_use(self@.suppliers, code@, except_id),
    {
        let mut i: usize = 0;
        while i < self.suppliers.len()
            invariant
                i <= self.suppliers.len(),
                forall|j: int|
                    0 <= j < i ==> !((#[trigger] self@.suppliers[j]).code == code@
                        && self@.suppliers[j].id != except_id),
            decreases self.suppliers.len() - i,
        {
            if self.suppliers[i].id != except_id && self.suppliers[i].code == *code {
                assert(self@.suppliers[i as int].code == code@);
                return true;
            }
            i += 1;
        }
        false
    }

    /// The place of the invoice `id`, if the store has it.
    pub(crate) fn invoice_position(&self, id: i32) -> (r: Option<usize>)
        ensures
            r is Some <==> has_invoice(self@.invoices, id),
            r matches Some(i) ==> i < self.invoices.len() && self.invoices[i as int].invoice.id
                == id,
    {
        let mut i: usize = 0;
        while i < self.invoices.len()
            invariant
                i <= self.invoices.len(),
                forall|j: int| 0 <= j < i ==> (#[trigger] self@.invoices[j]).invoice.id != id,
            decreases self.invoices.len() - i,
        {
            if self.invoices[i].invoice.id == id {
                assert(self@.invoices[i as int].invoice.id == id);
                return Some(i);
            }
            i += 1;
        }
        None
    }

    /// Whether the supplier `supplier_id` has an invoice with the document
    /// number `number`.
    pub(crate) fn document_number_taken(&self, supplier_id: i32, number: &String) -> (r: bool)
        ensures
            r == document_number_in_use(self@.invoices, supplier_id, number@),
    {
        let mut i: usize = 0;
        while i < self.invoices.len()
            invariant
                i <= self.invoices.len(),
                forall|j: int|
                    0 <= j < i ==> !((#[trigger] self@.invoices[j]).invoice.supplier_id
                        == supplier_id && self@.invoices[j].invoice.document_number == number@),
            decreases self.invoices.len() - i,
        {
            if self.invoices[i].invoice.supplier_id == supplier_id
                && self.invoices[i].invoice.document_number == *number {
                assert(self@.invoices[i as int].invoice.supplier_id == supplier_id);
                return true;
            }
            i += 1;
        }
        false
    }

    /// The place of the invoice that an operation is to change, or the error
    /// with which the operation is refused.
    pub(crate) fn invoice_to_change(&self, id: i32) -> (r: Result<usize, InvoiceError>)
        requires
            self.wf(),
        ensures
            match self@.invoice_to_change(id) {
                Ok(i) => r == Ok::<usize, InvoiceError>(i as usize) && 0 <= i < self.invoices.len()
                    && self.invoices[i].invoice.id == id,
                Err(e) => r == Err::<usize, InvoiceError>(e),
            },
    {
        match self.invoice_position(id) {
            Some(i) => {
                proof {
                    lemma_invoice_found(self@, i as int);
                }
                Ok(i)
            },
            None => {
                if 1 <= id && id < self.next_invoice_id {
                    Err(InvoiceError::InvoiceNotDraft)
                } else {
                    Err(InvoiceError::UnknownInvoice)
                }
            },
        }
    }
}

} // verus!
