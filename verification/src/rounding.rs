//! Division rounded to the nearest whole number.

use vstd::prelude::*;

verus! {

/// `n / d` rounded to the nearest whole number; a quotient that lies exactly
/// halfway between two whole numbers goes to the even one.
pub open spec fn round_half_even(n: nat, d: nat) -> nat
    recommends
        d > 0,
{
    let q = n / d;
    let r = n % d;
    if 2 * r < d || (2 * r == d && q % 2 == 0) {
        q
    } else {
        q + 1
    }
}

/// The rounded quotient is a whole number nearest to the exact one: it
/// lies no more than one half away from it, and it is the exact quotient
/// where the division leaves no remainder.
pub proof fn lemma_round_half_even_is_nearest(n: nat, d: nat)
    requires
        d > 0,
    ensures
        n / d <= round_half_even(n, d) <= n / d + 1,
        2 * (round_half_even(n, d) * d - n) <= d,
        2 * (n - round_half_even(n, d) * d) <= d,
        n % d == 0 ==> round_half_even(n, d) == n / d,
{
    let q = n / d;
    let r = n % d;
    assert(n == d * q + r) by {
        vstd::arithmetic::div_mod::lemma_fundamental_div_mod(n as int, d as int);
    }
    assert((q + 1) * d == q * d + d) by (nonlinear_arith);
    assert(q * d == d * q) by (nonlinear_arith);
}

/// Computes `n / d` rounded to the nearest whole number, ties to even.
pub fn div_round_half_even(n: u128, d: u128) -> (rounded: u128)
    requires
        d > 0,
    ensures
        rounded == round_half_even(n as nat, d as nat),
{
    let q: u128 = n / d;
    let r: u128 = n % d;
    let rest: u128 = d - r;
    if r < rest || (r == rest && q % 2 == 0) {
        q
    } else {
        proof {
            // Rounding up happens only with a remainder, so the quotient is below the maximum.
            assert(r > 0);
            assert(n == d * q + r) by {
                vstd::arithmetic::div_mod::lemma_fundamental_div_mod(n as int, d as int);
            }
            assert(q < u128::MAX) by (nonlinear_arith)
                requires
                    n == d * q + r,
                    r > 0,
                    d > 0,
                    n <= u128::MAX,
            ;
        }
        q + 1
    }
}

} // verus!
