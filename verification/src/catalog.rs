//! Validation of the catalog records: companies, items and suppliers.
//!
//! A record is checked in one step before it is stored: first that every
//! required text is present, then that every number lies in its range.

use vstd::prelude::*;
use crate::error::InvoiceError;
use crate::models::{
    CompanyView, ItemView, NewCompany, NewCompanyView, NewItem, NewItemView, NewSupplier,
    NewSupplierView, SupplierView,
};

verus! {

/// The highest tax rate of an item, in percent.
pub const MAX_TAX_RATE: i32 = 100;

/// What the validation of a company's fields says: `MissingField` where
/// the code is empty.
pub open spec fn company_validation(new: NewCompanyView) -> Result<(), InvoiceError> {
    if new.code.len() == 0 {
        Err(InvoiceError::MissingField)
    } else {
        Ok(())
    }
}

/// What the validation of an item's fields says: `MissingField` where the
/// name or the unit is empty, else `ValueOutOfRange` where the price is
/// negative or the tax rate lies outside 0 to 100.
pub open spec fn item_validation(new: NewItemView) -> Result<(), InvoiceError> {
    if new.name.len() == 0 || new.unit.len() == 0 {
        Err(InvoiceError::MissingField)
    } else if new.price < 0 || new.tax_rate < 0 || new.tax_rate > 100 {
        Err(InvoiceError::ValueOutOfRange)
    } else {
        Ok(())
    }
}

/// What the validation of a supplier's fields says: `MissingField` where
/// the name or the code is empty.
pub open spec fn supplier_validation(new: NewSupplierView) -> Result<(), InvoiceError> {
    if new.name.len() == 0 || new.code.len() == 0 {
        Err(InvoiceError::MissingField)
    } else {
        Ok(())
    }
}

impl CompanyView {
    /// The fields of this company without its identifier.
    pub open spec fn fields(self) -> NewCompanyView {
        NewCompanyView {
            code: self.code,
            sector_code: self.sector_code,
            sector: self.sector,
            name: self.name,
            address: self.address,
            owner: self.owner,
            user: self.user,
        }
    }

    /// Whether the fields of this company pass the validation.
    pub open spec fn valid(self) -> bool {
        company_validation(self.fields()) is Ok
    }
}

impl ItemView {
    /// The fields of this item without its identifier.
    pub open spec fn fields(self) -> NewItemView {
        NewItemView { name: self.name, price: self.price, tax_rate: self.tax_rate, unit: self.unit }
    }

    /// Whether the fields of this item pass the validation.
    pub open spec fn valid(self) -> bool {
        item_validation(self.fields()) is Ok
    }
}

impl SupplierView {
    /// The fields of this supplier without its identifier.
    pub open spec fn fields(self) -> NewSupplierView {
        NewSupplierView { name: self.name, code: self.code, address: self.address }
    }

    /// Whether the fields of this supplier pass the validation.
    pub open spec fn valid(self) -> bool {
        supplier_validation(self.fields()) is Ok
    }
}

/// Checks the fields of a company.
pub fn validate_company(new: &NewCompany) -> (r: Result<(), InvoiceError>)
    ensures
        r == company_validation(new@),
{
    if new.code.as_str().is_empty() {
        Err(InvoiceError::MissingField)
    } else {
        Ok(())
    }
}

/// Checks the fields of an item.
pub fn validate_item(new: &NewItem) -> (r: Result<(), InvoiceError>)
    ensures
        r == item_validation(new@),
{
    if new.name.as_str().is_empty() || new.unit.as_str().is_empty() {
        Err(InvoiceError::MissingField)
    } else if new.price < 0 || new.tax_rate < 0 || new.tax_rate > MAX_TAX_RATE {
        Err(InvoiceError::ValueOutOfRange)
    } else {
        Ok(())
    }
}

/// Checks the fields of a supplier.
pub fn validate_supplier(new: &NewSupplier) -> (r: Result<(), InvoiceError>)
    ensures
        r == supplier_validation(new@),
{
    if new.name.as_str().is_empty() || new.code.as_str().is_empty() {
        Err(InvoiceError::MissingField)
    } else {
        Ok(())
    }
}

} // verus!
