//! Division of non-negative integers, rounded to the nearest integer with
//! ties going to the even neighbour.

use vstd::prelude::*;

verus! {

/// The integer nearest to `n / d`. Where `n / d` lies exactly between two
/// integers, the even one.
pub open spec fn round_half_even(n: int, d: int) -> int
    recommends
        n >= 0,
        d > 0,
{
    let q = n / d;
    let r = n % d;
    if 2 * r < d {
        q
    } else if 2 * r > d {
        q + 1
    } else if q % 2 == 0 {
        q
    } else {
        q + 1
    }
}

/// The rounded quotient is off by at most one half, is never below the
/// quotient rounded down, and exceeds it by at most one.
pub proof fn lemma_round_half_even_bounds(n: int, d: int)
    requires
        n >= 0,
        d > 0,
    ensures
        -d <= 2 * (d * round_half_even(n, d) - n) <= d,
        n / d <= round_half_even(n, d) <= n / d + 1,
        round_half_even(n, d) >= 0,
{
    let q = n / d;
    let r = n % d;
    vstd::arithmetic::div_mod::lemma_fundamental_div_mod(n, d);
    vstd::arithmetic::div_mod::lemma_mod_bound(n, d);
    vstd::arithmetic::div_mod::lemma_div_pos_is_pos(n, d);
    assert(d * (q + 1) == d * q + d) by (nonlinear_arith);
}

/// Divides `n` by `d` and rounds half to even.
pub fn round_div(n: u128, d: u128) -> (r: u128)
    requires
        d > 0,
    ensures
        r == round_half_even(n as int, d as int),
{
    let q: u128 = n / d;
    let rem: u128 = n % d;
    let rest: u128 = d - rem;
    proof {
        vstd::arithmetic::div_mod::lemma_fundamental_div_mod(n as int, d as int);
        if rem >= rest {
            assert(d >= 2);
            assert(2 * q <= d * q) by (nonlinear_arith)
                requires
                    d >= 2,
                    q >= 0,
            ;
        }
    }
    if rem < rest {
        q
    } else if rem > rest {
        q + 1
    } else if q % 2 == 0 {
        q
    } else {
        q + 1
    }
}

} // verus!
