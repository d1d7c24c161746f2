//! The arithmetic of one invoice line.
//!
//! A line is priced from four inputs: the buying price of one unit in cents,
//! the quantity in thousandths of a unit, the discount in ten-thousandths
//! and the tax rate in percent. Each amount of the line is defined as an
//! exact fraction and rounded once, half to even, to whole cents.

use vstd::prelude::*;
use crate::error::InvoiceError;
use crate::rounding::{lemma_round_half_even_bounds, round_div, round_half_even};

verus! {

/// A quantity of one whole unit.
pub const QUANTITY_SCALE: i64 = 1_000;

/// A discount of the whole price.
pub const DISCOUNT_SCALE: i32 = 10_000;

/// What a price times its undiscounted share is divided by to give cents.
pub const PRICE_DIVISOR: u128 = 10_000;

/// What an exact subtotal is divided by to give cents: the two scales
/// multiplied.
pub const SUBTOTAL_DIVISOR: u128 = 10_000_000;

/// What an exact subtotal times a tax rate in percent is divided by to give
/// cents.
pub const TAX_DIVISOR: u128 = 1_000_000_000;

/// The least exact subtotal that is too large: two to the power of 63
/// cents.
pub const SUBTOTAL_LIMIT: u128 = 92_233_720_368_547_758_080_000_000;

/// The four amounts of a line, in cents.
#[derive(Clone, Copy, Debug, PartialEq, Eq, Structural)]
pub struct LineTotals {
    /// The price of one unit after the discount.
    pub selling_price: i64,
    /// The discounted price of the whole quantity, before tax.
    pub subtotal: i64,
    /// The tax on the subtotal.
    pub tax_amount: i64,
    /// Subtotal and tax together.
    pub total: i64,
}

/// The inputs from which a line can be priced: a price that is not
/// negative, a positive quantity, a discount from nothing to the whole
/// price, and a tax rate that is not negative.
pub open spec fn valid_line_input(
    buying_price: int,
    quantity: int,
    discount: int,
    tax_rate: int,
) -> bool {
    &&& buying_price >= 0
    &&& quantity > 0
    &&& 0 <= discount <= DISCOUNT_SCALE
    &&& tax_rate >= 0
}

/// The undiscounted share of the price, in ten-thousandths.
pub open spec fn price_share(discount: int) -> int {
    DISCOUNT_SCALE - discount
}

/// `buying_price * (1 - discount)`, rounded to cents.
pub open spec fn selling_price_of(buying_price: int, discount: int) -> int {
    round_half_even(buying_price * price_share(discount), PRICE_DIVISOR as int)
}

/// `buying_price * (1 - discount) * quantity`, in units of a ten-millionth
/// of a cent: the exact subtotal before rounding.
pub open spec fn exact_subtotal(buying_price: int, quantity: int, discount: int) -> int {
    buying_price * price_share(discount) * quantity
}

/// `selling_price * quantity` on the exact selling price, rounded to
/// cents.
pub open spec fn subtotal_of(buying_price: int, quantity: int, discount: int) -> int {
    round_half_even(exact_subtotal(buying_price, quantity, discount), SUBTOTAL_DIVISOR as int)
}

/// `subtotal * tax_rate / 100` on the exact subtotal, rounded to cents.
pub open spec fn tax_amount_of(
    buying_price: int,
    quantity: int,
    discount: int,
    tax_rate: int,
) -> int {
    round_half_even(
        exact_subtotal(buying_price, quantity, discount) * tax_rate,
        TAX_DIVISOR as int,
    )
}

/// `subtotal + tax_amount` on the exact subtotal and the exact tax,
/// rounded to cents.
pub open spec fn total_of(buying_price: int, quantity: int, discount: int, tax_rate: int) -> int {
    round_half_even(
        exact_subtotal(buying_price, quantity, discount) * (100 + tax_rate),
        TAX_DIVISOR as int,
    )
}

/// Whether every amount of the line fits in 64 bits.
pub open spec fn line_fits(buying_price: int, quantity: int, discount: int, tax_rate: int) -> bool {
    &&& subtotal_of(buying_price, quantity, discount) <= i64::MAX
    &&& tax_amount_of(buying_price, quantity, discount, tax_rate) <= i64::MAX
    &&& total_of(buying_price, quantity, discount, tax_rate) <= i64::MAX
}

/// The amounts of a line whose inputs are valid and whose amounts fit.
pub open spec fn line_totals(
    buying_price: int,
    quantity: int,
    discount: int,
    tax_rate: int,
) -> LineTotals {
    LineTotals {
        selling_price: selling_price_of(buying_price, discount) as i64,
        subtotal: subtotal_of(buying_price, quantity, discount) as i64,
        tax_amount: tax_amount_of(buying_price, quantity, discount, tax_rate) as i64,
        total: total_of(buying_price, quantity, discount, tax_rate) as i64,
    }
}

/// What `compute_line` returns.
pub open spec fn compute_line_outcome(
    buying_price: int,
    quantity: int,
    discount: int,
    tax_rate: int,
) -> Result<LineTotals, InvoiceError> {
    if !valid_line_input(buying_price, quantity, discount, tax_rate) {
        Err(InvoiceError::InvalidLineInput)
    } else if !line_fits(buying_price, quantity, discount, tax_rate) {
        Err(InvoiceError::LimitExceeded)
    } else {
        Ok(line_totals(buying_price, quantity, discount, tax_rate))
    }
}

/// The discounted unit price never exceeds the buying price.
pub proof fn lemma_selling_price_bounds(buying_price: int, discount: int)
    requires
        buying_price >= 0,
        0 <= discount <= DISCOUNT_SCALE,
    ensures
        0 <= selling_price_of(buying_price, discount) <= buying_price,
{
    let k = price_share(discount);
    assert(0 <= buying_price * k <= buying_price * 10_000) by (nonlinear_arith)
        requires
            buying_price >= 0,
            0 <= k <= 10_000,
    ;
    lemma_round_half_even_bounds(buying_price * k, PRICE_DIVISOR as int);
}

/// Every amount of a line with valid inputs is at least zero.
pub proof fn lemma_line_amounts_nonnegative(
    buying_price: int,
    quantity: int,
    discount: int,
    tax_rate: int,
)
    requires
        valid_line_input(buying_price, quantity, discount, tax_rate),
    ensures
        exact_subtotal(buying_price, quantity, discount) >= 0,
        selling_price_of(buying_price, discount) >= 0,
        subtotal_of(buying_price, quantity, discount) >= 0,
        tax_amount_of(buying_price, quantity, discount, tax_rate) >= 0,
        total_of(buying_price, quantity, discount, tax_rate) >= 0,
{
    let k = price_share(discount);
    let b = exact_subtotal(buying_price, quantity, discount);
    assert(buying_price * k >= 0) by (nonlinear_arith)
        requires
            buying_price >= 0,
            k >= 0,
    ;
    assert(b >= 0) by (nonlinear_arith)
        requires
            b == buying_price * k * quantity,
            buying_price * k >= 0,
            quantity > 0,
    ;
    assert(b * tax_rate >= 0 && b * (100 + tax_rate) >= 0) by (nonlinear_arith)
        requires
            b >= 0,
            tax_rate >= 0,
    ;
    lemma_selling_price_bounds(buying_price, discount);
    lemma_round_half_even_bounds(b, SUBTOTAL_DIVISOR as int);
    lemma_round_half_even_bounds(b * tax_rate, TAX_DIVISOR as int);
    lemma_round_half_even_bounds(b * (100 + tax_rate), TAX_DIVISOR as int);
}

/// For all valid inputs the rounded amounts agree with each other to within
/// the rounding: the total differs from subtotal plus tax by at most one
/// cent, and the subtotal differs from selling price times quantity by at
/// most half a cent plus half a cent for each unit.
pub proof fn lemma_line_amounts_agree(
    buying_price: int,
    quantity: int,
    discount: int,
    tax_rate: int,
)
    requires
        valid_line_input(buying_price, quantity, discount, tax_rate),
    ensures
        ({
            let selling_price = selling_price_of(buying_price, discount);
            let subtotal = subtotal_of(buying_price, quantity, discount);
            let tax_amount = tax_amount_of(buying_price, quantity, discount, tax_rate);
            let total = total_of(buying_price, quantity, discount, tax_rate);
            &&& -1 <= total - (subtotal + tax_amount) <= 1
            &&& -(QUANTITY_SCALE + quantity) <= 2 * (QUANTITY_SCALE * subtotal - selling_price
                * quantity) <= QUANTITY_SCALE + quantity
        }),
{
    let k = price_share(discount);
    let a = buying_price * k;
    let b = exact_subtotal(buying_price, quantity, discount);
    let selling_price = selling_price_of(buying_price, discount);
    let subtotal = subtotal_of(buying_price, quantity, discount);
    let tax_amount = tax_amount_of(buying_price, quantity, discount, tax_rate);
    let total = total_of(buying_price, quantity, discount, tax_rate);
    lemma_line_amounts_nonnegative(buying_price, quantity, discount, tax_rate);
    assert(a >= 0) by (nonlinear_arith)
        requires
            a == buying_price * k,
            buying_price >= 0,
            k >= 0,
    ;
    assert(b * tax_rate >= 0 && b * (100 + tax_rate) == 100 * b + b * tax_rate) by (
        nonlinear_arith)
        requires
            b >= 0,
            tax_rate >= 0,
    ;
    lemma_round_half_even_bounds(a, PRICE_DIVISOR as int);
    lemma_round_half_even_bounds(b, SUBTOTAL_DIVISOR as int);
    lemma_round_half_even_bounds(b * tax_rate, TAX_DIVISOR as int);
    lemma_round_half_even_bounds(b * (100 + tax_rate), TAX_DIVISOR as int);
    // In units of a ten-millionth of a cent, the subtotal is off by at most
    // five million and the selling price, taken `quantity` times, by at most
    // five thousand times the quantity.
    let e = 10_000 * selling_price - a;
    assert(-5_000 * quantity <= e * quantity <= 5_000 * quantity) by (nonlinear_arith)
        requires
            -5_000 <= e <= 5_000,
            quantity > 0,
    ;
    assert(e * quantity == 10_000 * (selling_price * quantity) - b) by (nonlinear_arith)
        requires
            e == 10_000 * selling_price - a,
            b == a * quantity,
    ;
}

/// Prices one line: the selling price, subtotal, tax and total of
/// `quantity` thousandths of a unit bought at `buying_price` cents each,
/// less `discount` ten-thousandths, taxed at `tax_rate` percent.
///
/// Refuses a quantity that is not positive, a discount outside zero to
/// `DISCOUNT_SCALE`, and a negative price or tax rate with
/// `InvalidLineInput`; refuses valid inputs whose amounts do not fit in 64
/// bits with `LimitExceeded`.
pub fn compute_line(buying_price: i64, quantity: i64, discount: i32, tax_rate: i32) -> (r: Result<
    LineTotals,
    InvoiceError,
>)
    ensures
        r == compute_line_outcome(
            buying_price as int,
            quantity as int,
            discount as int,
            tax_rate as int,
        ),
{
    if buying_price < 0 || quantity <= 0 || discount < 0 || discount > DISCOUNT_SCALE || tax_rate
        < 0 {
        return Err(InvoiceError::InvalidLineInput);
    }
    let ghost bp = buying_price as int;
    let ghost q = quantity as int;
    let ghost d = discount as int;
    let ghost t = tax_rate as int;
    let ghost b_exact = exact_subtotal(bp, q, d);
    let share: u128 = (DISCOUNT_SCALE - discount) as u128;
    let price: u128 = buying_price as u128;
    proof {
        lemma_line_amounts_nonnegative(bp, q, d, t);
        lemma_selling_price_bounds(bp, d);
        assert(0 <= price * share <= 0x8000_0000_0000_0000 * 10_000) by (nonlinear_arith)
            requires
                0 <= price < 0x8000_0000_0000_0000,
                0 <= share <= 10_000,
        ;
    }
    let unit: u128 = price * share;
    let selling_price: u128 = round_div(unit, PRICE_DIVISOR);
    let exact: u128 = match unit.checked_mul(quantity as u128) {
        Some(b) => b,
        None => {
            proof {
                lemma_round_half_even_bounds(b_exact, SUBTOTAL_DIVISOR as int);
                vstd::arithmetic::div_mod::lemma_div_is_ordered(
                    u128::MAX + 1,
                    b_exact,
                    SUBTOTAL_DIVISOR as int,
                );
            }
            return Err(InvoiceError::LimitExceeded);
        },
    };
    assert(exact == b_exact);
    if exact >= SUBTOTAL_LIMIT {
        proof {
            lemma_round_half_even_bounds(b_exact, SUBTOTAL_DIVISOR as int);
            vstd::arithmetic::div_mod::lemma_div_is_ordered(
                SUBTOTAL_LIMIT as int,
                b_exact,
                SUBTOTAL_DIVISOR as int,
            );
        }
        return Err(InvoiceError::LimitExceeded);
    }
    let rate: u128 = tax_rate as u128;
    proof {
        assert(0 <= exact * rate <= exact * (100 + rate) <= SUBTOTAL_LIMIT * 0x8000_0064) by (
            nonlinear_arith)
            requires
                0 <= exact < SUBTOTAL_LIMIT,
                0 <= rate < 0x8000_0000,
        ;
    }
    let subtotal: u128 = round_div(exact, SUBTOTAL_DIVISOR);
    let tax_amount: u128 = round_div(exact * rate, TAX_DIVISOR);
    let total: u128 = round_div(exact * (100 + rate), TAX_DIVISOR);
    let most: u128 = i64::MAX as u128;
    if subtotal > most || tax_amount > most || total > most {
        return Err(InvoiceError::LimitExceeded);
    }
    Ok(
        LineTotals {
            selling_price: selling_price as i64,
            subtotal: subtotal as i64,
            tax_amount: tax_amount as i64,
            total: total as i64,
        },
    )
}

} // verus!
