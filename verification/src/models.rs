//! The records of the invoicing domain and their mathematical views.
//!
//! Each record is plain data. Its view replaces every text field by the
//! sequence of its characters; contracts speak of the views.

use vstd::prelude::*;
use chrono::NaiveDateTime;

verus! {

/// The characters of an optional text.
pub open spec fn text_of(text: Option<String>) -> Option<Seq<char>> {
    match text {
        Some(s) => Some(s@),
        None => None,
    }
}

/// The views of the elements of a sequence, in order.
pub open spec fn views<T: View>(records: Seq<T>) -> Seq<T::V> {
    Seq::new(records.len(), |i: int| records[i]@)
}

/// The view of an optional record.
pub open spec fn view_of<T: View>(record: Option<T>) -> Option<T::V> {
    match record {
        Some(r) => Some(r@),
        None => None,
    }
}

/// Copies an optional text.
pub fn clone_text(text: &Option<String>) -> (r: Option<String>)
    ensures
        r == *text,
{
    match text {
        Some(s) => Some(s.clone()),
        None => None,
    }
}

/// The two states of an invoice. `Completed` is final.
#[derive(Clone, Copy, Debug, PartialEq, Eq, Structural)]
pub enum InvoiceStatus {
    /// Lines may be added and removed.
    Draft,
    /// Nothing may change any more.
    Completed,
}

/// The company that issues the invoices.
#[derive(Debug, PartialEq, Eq)]
pub struct Company {
    pub id: i32,
    pub code: String,
    pub sector_code: String,
    pub sector: String,
    pub name: String,
    pub address: Option<String>,
    pub owner: Option<String>,
    pub user: Option<String>,
}

/// A company as a mathematical value.
pub struct CompanyView {
    pub id: i32,
    pub code: Seq<char>,
    pub sector_code: Seq<char>,
    pub sector: Seq<char>,
    pub name: Seq<char>,
    pub address: Option<Seq<char>>,
    pub owner: Option<Seq<char>>,
    pub user: Option<Seq<char>>,
}

impl View for Company {
    type V = CompanyView;

    open spec fn view(&self) -> CompanyView {
        CompanyView {
            id: self.id,
            code: self.code@,
            sector_code: self.sector_code@,
            sector: self.sector@,
            name: self.name@,
            address: text_of(self.address),
            owner: text_of(self.owner),
            user: text_of(self.user),
        }
    }
}

impl Clone for Company {
    fn clone(&self) -> (r: Self)
        ensures
            r == *self,
    {
        Company {
            id: self.id,
            code: self.code.clone(),
            sector_code: self.sector_code.clone(),
            sector: self.sector.clone(),
            name: self.name.clone(),
            address: clone_text(&self.address),
            owner: clone_text(&self.owner),
            user: clone_text(&self.user),
        }
    }
}

/// The fields of a company that a caller supplies.
#[derive(Debug, PartialEq, Eq)]
pub struct NewCompany {
    pub code: String,
    pub sector_code: String,
    pub sector: String,
    pub name: String,
    pub address: Option<String>,
    pub owner: Option<String>,
    pub user: Option<String>,
}

/// The supplied fields of a company as a mathematical value.
pub struct NewCompanyView {
    pub code: Seq<char>,
    pub sector_code: Seq<char>,
    pub sector: Seq<char>,
    pub name: Seq<char>,
    pub address: Option<Seq<char>>,
    pub owner: Option<Seq<char>>,
    pub user: Option<Seq<char>>,
}

impl NewCompanyView {
    /// The company with these fields under the identifier `id`.
    pub open spec fn with_id(self, id: i32) -> CompanyView {
        CompanyView {
            id,
            code: self.code,
            sector_code: self.sector_code,
            sector: self.sector,
            name: self.name,
            address: self.address,
            owner: self.owner,
            user: self.user,
        }
    }
}

impl View for NewCompany {
    type V = NewCompanyView;

    open spec fn view(&self) -> NewCompanyView {
        NewCompanyView {
            code: self.code@,
            sector_code: self.sector_code@,
            sector: self.sector@,
            name: self.name@,
            address: text_of(self.address),
            owner: text_of(self.owner),
            user: text_of(self.user),
        }
    }
}

impl NewCompany {
    /// Gathers the fields of a company.
    pub fn new(
        code: String,
        sector_code: String,
        sector: String,
        name: String,
        address: Option<String>,
        owner: Option<String>,
        user: Option<String>,
    ) -> (r: Self)
        ensures
            r == (NewCompany { code, sector_code, sector, name, address, owner, user }),
    {
        NewCompany { code, sector_code, sector, name, address, owner, user }
    }

    /// The company with these fields under the identifier `id`.
    pub fn into_company(self, id: i32) -> (r: Company)
        ensures
            r@ == self@.with_id(id),
    {
        Company {
            id,
            code: self.code,
            sector_code: self.sector_code,
            sector: self.sector,
            name: self.name,
            address: self.address,
            owner: self.owner,
            user: self.user,
        }
    }
}

/// Something that can be bought. `price` is in cents, `tax_rate` in percent.
#[derive(Debug, PartialEq, Eq)]
pub struct Item {
    pub id: i32,
    pub name: String,
    pub price: i64,
    pub tax_rate: i32,
    pub unit: String,
}

/// An item as a mathematical value.
pub struct ItemView {
    pub id: i32,
    pub name: Seq<char>,
    pub price: i64,
    pub tax_rate: i32,
    pub unit: Seq<char>,
}

impl View for Item {
    type V = ItemView;

    open spec fn view(&self) -> ItemView {
        ItemView {
            id: self.id,
            name: self.name@,
            price: self.price,
            tax_rate: self.tax_rate,
            unit: self.unit@,
        }
    }
}

impl Clone for Item {
    fn clone(&self) -> (r: Self)
        ensures
            r == *self,
    {
        Item {
            id: self.id,
            name: self.name.clone(),
            price: self.price,
            tax_rate: self.tax_rate,
            unit: self.unit.clone(),
        }
    }
}

/// The fields of an item that a caller supplies.
#[derive(Debug, PartialEq, Eq)]
pub struct NewItem {
    pub name: String,
    pub price: i64,
    pub tax_rate: i32,
    pub unit: String,
}

/// The supplied fields of an item as a mathematical value.
pub struct NewItemView {
    pub name: Seq<char>,
    pub price: i64,
    pub tax_rate: i32,
    pub unit: Seq<char>,
}

impl NewItemView {
    /// The item with these fields under the identifier `id`.
    pub open spec fn with_id(self, id: i32) -> ItemView {
        ItemView {
            id,
            name: self.name,
            price: self.price,
            tax_rate: self.tax_rate,
            unit: self.unit,
        }
    }
}

impl View for NewItem {
    type V = NewItemView;

    open spec fn view(&self) -> NewItemView {
        NewItemView {
            name: self.name@,
            price: self.price,
            tax_rate: self.tax_rate,
            unit: self.unit@,
        }
    }
}

impl NewItem {
    /// Gathers the fields of an item.
    pub fn new(name: String, price: i64, tax_rate: i32, unit: String) -> (r: Self)
        ensures
            r == (NewItem { name, price, tax_rate, unit }),
    {
        NewItem { name, price, tax_rate, unit }
    }

    /// The item with these fields under the identifier `id`.
    pub fn into_item(self, id: i32) -> (r: Item)
        ensures
            r@ == self@.with_id(id),
    {
        Item { id, name: self.name, price: self.price, tax_rate: self.tax_rate, unit: self.unit }
    }
}

/// A party that sends invoices.
#[derive(Debug, PartialEq, Eq)]
pub struct Supplier {
    pub id: i32,
    pub name: String,
    pub code: String,
    pub address: Option<String>,
}

/// A supplier as a mathematical value.
pub struct SupplierView {
    pub id: i32,
    pub name: Seq<char>,
    pub code: Seq<char>,
    pub address: Option<Seq<char>>,
}

impl View for Supplier {
    type V = SupplierView;

    open spec fn view(&self) -> SupplierView {
        SupplierView {
            id: self.id,
            name: self.name@,
            code: self.code@,
            address: text_of(self.address),
        }
    }
}

impl Clone for Supplier {
    fn clone(&self) -> (r: Self)
        ensures
            r == *self,
    {
        Supplier {
            id: self.id,
            name: self.name.clone(),
            code: self.code.clone(),
            address: clone_text(&self.address),
        }
    }
}

/// The fields of a supplier that a caller supplies.
#[derive(Debug, PartialEq, Eq)]
pub struct NewSupplier {
    pub name: String,
    pub code: String,
    pub address: Option<String>,
}

/// The supplied fields of a supplier as a mathematical value.
pub struct NewSupplierView {
    pub name: Seq<char>,
    pub code: Seq<char>,
    pub address: Option<Seq<char>>,
}

impl NewSupplierView {
    /// The supplier with these fields under the identifier `id`.
    pub open spec fn with_id(self, id: i32) -> SupplierView {
        SupplierView { id, name: self.name, code: self.code, address: self.address }
    }
}

impl View for NewSupplier {
    type V = NewSupplierView;

    open spec fn view(&self) -> NewSupplierView {
        NewSupplierView { name: self.name@, code: self.code@, address: text_of(self.address) }
    }
}

impl NewSupplier {
    /// Gathers the fields of a supplier.
    pub fn new(name: String, code: String, address: Option<String>) -> (r: Self)
        ensures
            r == (NewSupplier { name, code, address }),
    {
        NewSupplier { name, code, address }
    }

    /// The supplier with these fields under the identifier `id`.
    pub fn into_supplier(self, id: i32) -> (r: Supplier)
        ensures
            r@ == self@.with_id(id),
    {
        Supplier { id, name: self.name, code: self.code, address: self.address }
    }
}

/// The header of an invoice. The three amounts, in cents, are derived from
/// the lines of the invoice and never set on their own.
#[derive(Debug, PartialEq, Eq)]
pub struct Invoice {
    pub id: i32,
    pub supplier_id: i32,
    pub subtotal: i64,
    pub tax_amount: i64,
    pub total: i64,
    pub date: NaiveDateTime,
    pub document_number: String,
    pub status: InvoiceStatus,
}

/// An invoice header as a mathematical value.
pub struct InvoiceView {
    pub id: i32,
    pub supplier_id: i32,
    pub subtotal: i64,
    pub tax_amount: i64,
    pub total: i64,
    pub date: NaiveDateTime,
    pub document_number: Seq<char>,
    pub status: InvoiceStatus,
}

impl View for Invoice {
    type V = InvoiceView;

    open spec fn view(&self) -> InvoiceView {
        InvoiceView {
            id: self.id,
            supplier_id: self.supplier_id,
            subtotal: self.subtotal,
            tax_amount: self.tax_amount,
            total: self.total,
            date: self.date,
            document_number: self.document_number@,
            status: self.status,
        }
    }
}

impl Clone for Invoice {
    fn clone(&self) -> (r: Self)
        ensures
            r == *self,
    {
        Invoice {
            id: self.id,
            supplier_id: self.supplier_id,
            subtotal: self.subtotal,
            tax_amount: self.tax_amount,
            total: self.total,
            date: self.date,
            document_number: self.document_number.clone(),
            status: self.status,
        }
    }
}

/// The fields of an invoice that a caller supplies, with the amounts of an
/// invoice that has no lines yet.
#[derive(Debug, PartialEq, Eq)]
pub struct NewInvoice {
    pub supplier_id: i32,
    pub subtotal: i64,
    pub tax_amount: i64,
    pub total: i64,
    pub date: NaiveDateTime,
    pub document_number: String,
}

/// The supplied fields of an invoice as a mathematical value.
pub struct NewInvoiceView {
    pub supplier_id: i32,
    pub subtotal: i64,
    pub tax_amount: i64,
    pub total: i64,
    pub date: NaiveDateTime,
    pub document_number: Seq<char>,
}

impl View for NewInvoice {
    type V = NewInvoiceView;

    open spec fn view(&self) -> NewInvoiceView {
        NewInvoiceView {
            supplier_id: self.supplier_id,
            subtotal: self.subtotal,
            tax_amount: self.tax_amount,
            total: self.total,
            date: self.date,
            document_number: self.document_number@,
        }
    }
}

impl NewInvoice {
    /// The fields of an invoice without lines: every amount is zero.
    pub fn new(supplier_id: i32, document_number: String, date: NaiveDateTime) -> (r: Self)
        ensures
            r == (NewInvoice {
                supplier_id,
                subtotal: 0,
                tax_amount: 0,
                total: 0,
                date,
                document_number,
            }),
    {
        NewInvoice { supplier_id, subtotal: 0, tax_amount: 0, total: 0, date, document_number }
    }
}

/// One line of an invoice. `name`, `unit`, `tax_rate` and `buying_price`
/// are copied from the item when the line is made and do not follow later
/// changes of the item. Amounts are in cents, `quantity` in thousandths of
/// a unit, `discount` in ten-thousandths, `tax_rate` in percent.
#[derive(Debug, PartialEq, Eq)]
pub struct InvoiceItem {
    pub invoice_id: i32,
    pub item_id: i32,
    pub name: String,
    pub unit: String,
    pub tax_rate: i32,
    pub discount: i32,
    pub quantity: i64,
    pub buying_price: i64,
    pub subtotal: i64,
    pub tax_amount: i64,
    pub selling_price: i64,
    pub total: i64,
    pub note: Option<String>,
}

/// An invoice line as a mathematical value.
pub struct InvoiceItemView {
    pub invoice_id: i32,
    pub item_id: i32,
    pub name: Seq<char>,
    pub unit: Seq<char>,
    pub tax_rate: i32,
    pub discount: i32,
    pub quantity: i64,
    pub buying_price: i64,
    pub subtotal: i64,
    pub tax_amount: i64,
    pub selling_price: i64,
    pub total: i64,
    pub note: Option<Seq<char>>,
}

impl View for InvoiceItem {
    type V = InvoiceItemView;

    open spec fn view(&self) -> InvoiceItemView {
        InvoiceItemView {
            invoice_id: self.invoice_id,
            item_id: self.item_id,
            name: self.name@,
            unit: self.unit@,
            tax_rate: self.tax_rate,
            discount: self.discount,
            quantity: self.quantity,
            buying_price: self.buying_price,
            subtotal: self.subtotal,
            tax_amount: self.tax_amount,
            selling_price: self.selling_price,
            total: self.total,
            note: text_of(self.note),
        }
    }
}

impl Clone for InvoiceItem {
    fn clone(&self) -> (r: Self)
        ensures
            r == *self,
    {
        InvoiceItem {
            invoice_id: self.invoice_id,
            item_id: self.item_id,
            name: self.name.clone(),
            unit: self.unit.clone(),
            tax_rate: self.tax_rate,
            discount: self.discount,
            quantity: self.quantity,
            buying_price: self.buying_price,
            subtotal: self.subtotal,
            tax_amount: self.tax_amount,
            selling_price: self.selling_price,
            total: self.total,
            note: clone_text(&self.note),
        }
    }
}

/// An invoice as it is shown: the header, the supplier where it still
/// exists, and the lines in the order in which they were added.
#[derive(Debug, PartialEq, Eq)]
pub struct InvoiceWithDetails {
    pub id: i32,
    pub supplier_id: i32,
    pub supplier: Option<Supplier>,
    pub line_items: Vec<InvoiceItem>,
    pub subtotal: i64,
    pub tax_amount: i64,
    pub total: i64,
    pub date: NaiveDateTime,
    pub document_number: String,
    pub status: InvoiceStatus,
}

/// A shown invoice as a mathematical value.
pub struct InvoiceWithDetailsView {
    pub id: i32,
    pub supplier_id: i32,
    pub supplier: Option<SupplierView>,
    pub line_items: Seq<InvoiceItemView>,
    pub subtotal: i64,
    pub tax_amount: i64,
    pub total: i64,
    pub date: NaiveDateTime,
    pub document_number: Seq<char>,
    pub status: InvoiceStatus,
}

impl View for InvoiceWithDetails {
    type V = InvoiceWithDetailsView;

    open spec fn view(&self) -> InvoiceWithDetailsView {
        InvoiceWithDetailsView {
            id: self.id,
            supplier_id: self.supplier_id,
            supplier: view_of(self.supplier),
            line_items: views(self.line_items@),
            subtotal: self.subtotal,
            tax_amount: self.tax_amount,
            total: self.total,
            date: self.date,
            document_number: self.document_number@,
            status: self.status,
        }
    }
}

/// What a caller supplies to start an invoice: the supplier, the document
/// number and the date, written as year, month and day.
#[derive(Clone, Debug, PartialEq, Eq)]
pub struct InitializeInvoiceForm {
    pub supplier_id: i32,
    pub document_number: String,
    pub date: String,
}

/// What a caller supplies to add a line: the item, the price of one unit
/// in cents where it is not the item's own, the quantity in thousandths of
/// a unit and the discount in ten-thousandths.
#[derive(Clone, Copy, Debug, PartialEq, Eq)]
pub struct AddLineItemForm {
    pub item_id: i32,
    pub price: Option<i64>,
    pub quantity: i64,
    pub discount: i32,
}

/// Copies a list of lines.
pub fn clone_lines(lines: &Vec<InvoiceItem>) -> (r: Vec<InvoiceItem>)
    ensures
        r@ == lines@,
{
    let mut copy: Vec<InvoiceItem> = Vec::new();
    let mut i: usize = 0;
    while i < lines.len()
        invariant
            i <= lines.len(),
            copy@ == lines@.take(i as int),
        decreases lines.len() - i,
    {
        copy.push(lines[i].clone());
        assert(lines@.take(i as int).push(lines@[i as int]) =~= lines@.take(i + 1));
        i += 1;
    }
    assert(lines@.take(lines.len() as int) =~= lines@);
    copy
}

} // verus!
