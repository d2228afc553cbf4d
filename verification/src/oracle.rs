//! Oracle price handling: blending two oracle sources by the width of their
//! confidence intervals, and sanity-checking a single oracle reading.

use vstd::prelude::*;
use crate::errors::CoreError;

verus! {

/// A price reported by an on-chain oracle, together with the width of its
/// error bound (a tighter width means a more confident reading).
#[derive(Clone, Copy, Debug, PartialEq, Eq, Structural)]
pub struct OracleQuote {
    pub price: u64,
    pub confidence: u64,
}

/// The confidence-weighted average of two oracle prices: each price is
/// weighted by the other's confidence width, so the tighter reading weighs
/// more. When both widths are zero the plain average is used.
pub open spec fn blended_price_spec(a: OracleQuote, b: OracleQuote) -> int {
    if a.confidence + b.confidence == 0 {
        (a.price + b.price) / 2
    } else {
        (a.price * b.confidence + b.price * a.confidence) / (a.confidence + b.confidence)
    }
}

/// The best available oracle price: when both sources have a fresh quote,
/// their confidence-weighted blend; when only one does, that one's price;
/// when neither does, `NoPriceAvailable`.
pub fn get_best_price(pyth: Option<OracleQuote>, switchboard: Option<OracleQuote>) -> (r: Result<
    u64,
    CoreError,
>)
    requires
        pyth is Some && switchboard is Some
            ==> pyth->0.confidence + switchboard->0.confidence <= u64::MAX,
    ensures
        r is Err <==> (pyth is None && switchboard is None),
        r matches Err(e) ==> e == CoreError::NoPriceAvailable,
        pyth is Some && switchboard is Some
            ==> r is Ok && r->Ok_0 == blended_price_spec(pyth->0, switchboard->0),
        pyth is Some && switchboard is None ==> r is Ok && r->Ok_0 == pyth->0.price,
        pyth is None && switchboard is Some ==> r is Ok && r->Ok_0 == switchboard->0.price,
{
    match (pyth, switchboard) {
        (Option::Some(a), Option::Some(b)) => {
            let total: u64 = a.confidence + b.confidence;
            if total == 0 {
                let avg: u64 = ((a.price as u128 + b.price as u128) / 2) as u64;
                Ok(avg)
            } else {
                proof {
                    let maxp: int = if a.price >= b.price { a.price as int } else { b.price as int };
                    crate::math::lemma_u64_mul_fits(a.price, b.confidence);
                    crate::math::lemma_u64_mul_fits(b.price, a.confidence);
                    assert(a.price * b.confidence + b.price * a.confidence
                        <= maxp * (a.confidence + b.confidence)) by (nonlinear_arith)
                        requires a.price <= maxp, b.price <= maxp;
                    assert(maxp * (a.confidence + b.confidence) <= maxp * 0xFFFF_FFFF_FFFF_FFFF)
                        by (nonlinear_arith)
                        requires a.confidence + b.confidence <= 0xFFFF_FFFF_FFFF_FFFF, maxp >= 0;
                    assert(maxp * 0xFFFF_FFFF_FFFF_FFFF
                        <= 0xFFFF_FFFF_FFFF_FFFF * 0xFFFF_FFFF_FFFF_FFFF) by (nonlinear_arith)
                        requires maxp <= 0xFFFF_FFFF_FFFF_FFFF;
                }
                let num: u128 = (a.price as u128) * (b.confidence as u128)
                    + (b.price as u128) * (a.confidence as u128);
                proof {
                    let maxp: int = if a.price >= b.price { a.price as int } else { b.price as int };
                    assert(num as int == a.price * b.confidence + b.price * a.confidence);
                    assert(num as int <= maxp * (total as int));
                    vstd::arithmetic::div_mod::lemma_div_is_ordered(
                        num as int,
                        maxp * (total as int),
                        total as int,
                    );
                    vstd::arithmetic::div_mod::lemma_div_multiples_vanish(maxp, total as int);
                    assert(maxp * (total as int) == (total as int) * maxp) by (nonlinear_arith);
                    assert(num as int / (total as int) <= maxp);
                }
                let blended: u64 = (num / (total as u128)) as u64;
                Ok(blended)
            }
        },
        (Option::Some(a), Option::None) => Ok(a.price),
        (Option::None, Option::Some(b)) => Ok(b.price),
        (Option::None, Option::None) => Err(CoreError::NoPriceAvailable),
    }
}

/// Whether a single oracle reading is usable: the price and the confidence
/// width are positive, and the width is tighter than a tenth of the price.
pub fn validate_pyth_price(price: u64, confidence: u64) -> (r: bool)
    ensures
        r <==> (price > 0 && confidence > 0 && 10 * confidence < price),
{
    price > 0 && confidence > 0 && (confidence as u128) * 10 < price as u128
}

} // verus!
