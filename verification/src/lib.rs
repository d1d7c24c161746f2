//! Invoicing core: catalog records, the line-item ledger and the invoice
//! aggregate with its draft-to-completed life cycle, over an in-memory store.
//!
//! Money is counted in cents, quantities in thousandths of a unit, discounts
//! in ten-thousandths and tax rates in whole percent, so that every amount is
//! an exact integer.
//!
//! - `rounding`, `ledger`: how one line is priced.
//! - `dates`: the dates of invoices, read by `chrono`.
//! - `models`, `catalog`: the records and the validation of those that a
//!   caller writes.
//! - `aggregate`: one invoice with its lines, and what may be done to it.
//! - `state`, `invariants`: the store as a mathematical value, what each
//!   operation makes of it, and what holds whatever is done.
//! - `db`, `handlers`: the store in memory and the operations on it.

pub mod error;
pub mod rounding;
pub mod ledger;
pub mod dates;
pub mod models;
pub mod catalog;
pub mod aggregate;
pub mod state;
pub mod invariants;
pub mod db;
pub mod handlers;
