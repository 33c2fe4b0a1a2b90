//! The fee splitter: division of a mint price between creator and treasury.

use vstd::prelude::*;
use crate::TREASURY_FEE;

verus! {

/// The treasury's share of `price`: `floor(price * TREASURY_FEE / 10_000)`.
pub open spec fn treasury_share(price: u128) -> int {
    (price as int) * (TREASURY_FEE as int) / 10_000
}

/// Splits `price` into `(creator_share, treasury_share)`.
///
/// The two shares always sum to exactly `price`; the treasury share is the
/// fixed basis-point cut, rounded down. Defined for every price, with no
/// failure mode: the cut is computed on the quotient and remainder by
/// `10_000` separately, so the product never overflows.
pub fn split(price: u128) -> (r: (u128, u128))
    ensures
        r.1 == treasury_share(price),
        r.0 + r.1 == price,
{
    let q = price / 10_000;
    let rem = price % 10_000;
    proof {
        lemma_fee_decomposition(price as int);
        assert((price as int) * (TREASURY_FEE as int) / 10_000 <= price) by (nonlinear_arith);
        assert((q as int) * (TREASURY_FEE as int) >= 0) by (nonlinear_arith);
        assert((rem as int) * (TREASURY_FEE as int) / 10_000 >= 0) by (nonlinear_arith);
        assert((rem as int) * (TREASURY_FEE as int) < 10_000 * TREASURY_FEE) by (nonlinear_arith)
            requires rem < 10_000,
        ;
    }
    let fee = q * TREASURY_FEE + rem * TREASURY_FEE / 10_000;
    (price - fee, fee)
}

/// Computing the basis-point cut on the quotient and remainder by `10_000`
/// separately agrees with computing it on the whole price.
proof fn lemma_fee_decomposition(p: int)
    requires
        p >= 0,
    ensures
        (p / 10_000) * TREASURY_FEE + (p % 10_000) * TREASURY_FEE / 10_000
            == p * TREASURY_FEE / 10_000,
{
    let q = p / 10_000;
    let r = p % 10_000;
    assert(p == q * 10_000 + r) by (nonlinear_arith)
        requires p >= 0, q == p / 10_000, r == p % 10_000,
    ;
    assert((q * 10_000 + r) * TREASURY_FEE == (q * TREASURY_FEE) * 10_000 + r * TREASURY_FEE)
        by (nonlinear_arith);
    assert(((q * TREASURY_FEE) * 10_000 + r * TREASURY_FEE) / 10_000
        == q * TREASURY_FEE + r * TREASURY_FEE / 10_000) by (nonlinear_arith)
        requires r >= 0,
    ;
}

} // verus!
