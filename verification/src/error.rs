//! The errors that the operations of this crate return.

use vstd::prelude::*;

verus! {

/// Why an operation was refused. Nothing is written when one is returned.
#[derive(Clone, Copy, Debug, PartialEq, Eq, Structural)]
pub enum InvoiceError {
    /// No invoice has this identifier.
    UnknownInvoice,
    /// No item has this identifier.
    UnknownItem,
    /// No supplier has this identifier.
    UnknownSupplier,
    /// A line's quantity is not positive, its discount lies outside zero to
    /// one, or its price or tax rate is negative.
    InvalidLineInput,
    /// A required text field is empty.
    MissingField,
    /// An item's price is negative or its tax rate lies outside 0 to 100.
    ValueOutOfRange,
    /// A date is not written as year, month and day.
    InvalidDate,
    /// An amount would not fit in 64 bits, or no identifier is left.
    LimitExceeded,
    /// The supplier already has an invoice with this document number.
    DuplicateDocumentNumber,
    /// Another record already carries this code.
    DuplicateCode,
    /// The invoice already has a line for this item.
    DuplicateLine,
    /// The invoice is completed, or was deleted.
    InvoiceNotDraft,
    /// An invoice without lines cannot be completed.
    EmptyInvoice,
    /// The invoice has no line for this item.
    LineNotFound,
}

/// The six families into which the errors fall.
#[derive(Clone, Copy, Debug, PartialEq, Eq, Structural)]
pub enum ErrorKind {
    NotFound,
    ValidationError,
    DuplicateKey,
    InvoiceNotDraft,
    EmptyInvoice,
    LineNotFound,
}

impl InvoiceError {
    /// The family of an error, as a mathematical function.
    pub open spec fn kind_of(self) -> ErrorKind {
        match self {
            InvoiceError::UnknownInvoice => ErrorKind::NotFound,
            InvoiceError::UnknownItem => ErrorKind::NotFound,
            InvoiceError::UnknownSupplier => ErrorKind::NotFound,
            InvoiceError::InvalidLineInput => ErrorKind::ValidationError,
            InvoiceError::MissingField => ErrorKind::ValidationError,
            InvoiceError::ValueOutOfRange => ErrorKind::ValidationError,
            InvoiceError::InvalidDate => ErrorKind::ValidationError,
            InvoiceError::LimitExceeded => ErrorKind::ValidationError,
            InvoiceError::DuplicateDocumentNumber => ErrorKind::DuplicateKey,
            InvoiceError::DuplicateCode => ErrorKind::DuplicateKey,
            InvoiceError::DuplicateLine => ErrorKind::DuplicateKey,
            InvoiceError::InvoiceNotDraft => ErrorKind::InvoiceNotDraft,
            InvoiceError::EmptyInvoice => ErrorKind::EmptyInvoice,
            InvoiceError::LineNotFound => ErrorKind::LineNotFound,
        }
    }

    /// The family of this error.
    pub fn kind(&self) -> (k: ErrorKind)
        ensures
            k == self.kind_of(),
    {
        match self {
            InvoiceError::UnknownInvoice => ErrorKind::NotFound,
            InvoiceError::UnknownItem => ErrorKind::NotFound,
            InvoiceError::UnknownSupplier => ErrorKind::NotFound,
            InvoiceError::InvalidLineInput => ErrorKind::ValidationError,
            InvoiceError::MissingField => ErrorKind::ValidationError,
            InvoiceError::ValueOutOfRange => ErrorKind::ValidationError,
            InvoiceError::InvalidDate => ErrorKind::ValidationError,
            InvoiceError::LimitExceeded => ErrorKind::ValidationError,
            InvoiceError::DuplicateDocumentNumber => ErrorKind::DuplicateKey,
            InvoiceError::DuplicateCode => ErrorKind::DuplicateKey,
            InvoiceError::DuplicateLine => ErrorKind::DuplicateKey,
            InvoiceError::InvoiceNotDraft => ErrorKind::InvoiceNotDraft,
            InvoiceError::EmptyInvoice => ErrorKind::EmptyInvoice,
            InvoiceError::LineNotFound => ErrorKind::LineNotFound,
        }
    }
}

} // verus!
