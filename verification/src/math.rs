//! Fixed-point arithmetic shared by the engine: parts-per-million ratios,
//! integer square roots, and sums and averages of sequences.

use vstd::prelude::*;

verus! {

/// The denominator of every dimensionless ratio in the engine: a ratio of
/// 1_000_000 parts per million is 100%.
pub const RATIO_SCALE: u64 = 1_000_000;

/// `x` scaled by a ratio given in parts per million, rounded down.
pub open spec fn ppm_mul(x: u64, ppm: u64) -> int {
    (x * ppm) / (RATIO_SCALE as int)
}

/// Computes `x * ppm / 1_000_000` exactly (the intermediate product is taken
/// in 128 bits, so it cannot overflow).
pub fn ppm_of(x: u64, ppm: u64) -> (r: u64)
    requires
        ppm <= RATIO_SCALE,
    ensures
        r == ppm_mul(x, ppm),
        r <= x,
{
    let xw: u128 = x as u128;
    let pw: u128 = ppm as u128;
    proof {
        assert(xw * pw <= 0xFFFF_FFFF_FFFF_FFFF * 1_000_000) by (nonlinear_arith)
            requires xw <= 0xFFFF_FFFF_FFFF_FFFF, pw <= 1_000_000;
    }
    let wide: u128 = xw * pw / (RATIO_SCALE as u128);
    proof {
        assert(x * ppm <= x * RATIO_SCALE) by (nonlinear_arith)
            requires ppm <= RATIO_SCALE;
        assert((x * ppm) / (RATIO_SCALE as int) <= (x * RATIO_SCALE) / (RATIO_SCALE as int))
            by (nonlinear_arith)
            requires x * ppm <= x * RATIO_SCALE, RATIO_SCALE > 0;
        assert((x * RATIO_SCALE) / (RATIO_SCALE as int) == x) by (nonlinear_arith)
            requires RATIO_SCALE > 0;
    }
    wide as u64
}

/// The product of two 64-bit values always fits in 128 bits.
pub proof fn lemma_u64_mul_fits(a: u64, b: u64)
    ensures
        a * b <= 0xFFFF_FFFF_FFFF_FFFF * 0xFFFF_FFFF_FFFF_FFFF,
{
    assert(a * b <= 0xFFFF_FFFF_FFFF_FFFF * 0xFFFF_FFFF_FFFF_FFFF) by (nonlinear_arith)
        requires a <= 0xFFFF_FFFF_FFFF_FFFF, b <= 0xFFFF_FFFF_FFFF_FFFF;
}

/// The sum of a sequence of machine words, as a mathematical integer.
pub open spec fn seq_sum(s: Seq<u64>) -> int
    decreases s.len(),
{
    if s.len() == 0 {
        0
    } else {
        seq_sum(s.drop_last()) + s.last()
    }
}

pub proof fn lemma_seq_sum_bounds(s: Seq<u64>)
    ensures
        0 <= seq_sum(s) <= s.len() * (u64::MAX as int),
    decreases s.len(),
{
    if s.len() > 0 {
        lemma_seq_sum_bounds(s.drop_last());
        assert(s.len() * (u64::MAX as int)
            == (s.len() - 1) * (u64::MAX as int) + u64::MAX as int) by (nonlinear_arith);
    }
}

/// The exact sum of a vector's elements; it always fits in 128 bits.
pub fn sum_u64(v: &Vec<u64>) -> (r: u128)
    ensures
        r == seq_sum(v@),
{
    let n = v.len();
    let mut acc: u128 = 0;
    let mut i: usize = 0;
    while i < n
        invariant
            n == v@.len(),
            i <= n,
            acc == seq_sum(v@.take(i as int)),
            acc <= (i as int) * (u64::MAX as int),
        decreases n - i,
    {
        proof {
            let t = v@.take(i + 1);
            assert(t.drop_last() =~= v@.take(i as int));
            assert(t.last() == v@[i as int]);
            assert((i as int) * (u64::MAX as int) + u64::MAX as int
                == (i + 1) * (u64::MAX as int)) by (nonlinear_arith);
            assert((i + 1) * (u64::MAX as int) <= 0xFFFF_FFFF_FFFF_FFFF_FFFF_FFFF_FFFF_FFFF)
                by (nonlinear_arith)
                requires i + 1 <= 0x1_0000_0000_0000_0000;
        }
        acc = acc + (v[i] as u128);
        i = i + 1;
    }
    proof {
        assert(v@.take(n as int) =~= v@);
    }
    acc
}

/// The average of a non-empty vector's elements, rounded down.
pub fn average_u64(v: &Vec<u64>) -> (r: u64)
    requires
        v@.len() > 0,
    ensures
        r == seq_sum(v@) / (v@.len() as int),
{
    let total = sum_u64(v);
    let n = v.len();
    proof {
        lemma_seq_sum_bounds(v@);
        vstd::arithmetic::div_mod::lemma_div_is_ordered(
            seq_sum(v@),
            (n as int) * (u64::MAX as int),
            n as int,
        );
        vstd::arithmetic::div_mod::lemma_div_multiples_vanish(u64::MAX as int, n as int);
        assert((n as int) * (u64::MAX as int) == (u64::MAX as int) * (n as int))
            by (nonlinear_arith);
    }
    (total / (n as u128)) as u64
}

/// The absolute difference of two values.
pub open spec fn abs_diff_spec(a: u64, b: u64) -> int {
    if a >= b {
        a - b
    } else {
        b - a
    }
}

/// |value - base| relative to `base`, compared against a threshold in parts
/// per million; true when the relative deviation is at least the threshold.
/// The comparison is exact: it multiplies through by `base` instead of
/// dividing, so no precision is lost.
pub fn deviation_reaches(base: u64, value: u64, threshold_ppm: u64) -> (r: bool)
    requires
        base > 0,
    ensures
        r <==> abs_diff_spec(value, base) * RATIO_SCALE >= threshold_ppm * base,
{
    let diff: u64 = if value >= base { value - base } else { base - value };
    proof {
        lemma_u64_mul_fits(diff, RATIO_SCALE);
        lemma_u64_mul_fits(threshold_ppm, base);
    }
    (diff as u128) * (RATIO_SCALE as u128) >= (threshold_ppm as u128) * (base as u128)
}

/// Like `deviation_reaches`, with a strict comparison: true when the relative
/// deviation is strictly greater than the threshold.
pub fn deviation_exceeds(base: u64, value: u64, threshold_ppm: u64) -> (r: bool)
    requires
        base > 0,
    ensures
        r <==> abs_diff_spec(value, base) * RATIO_SCALE > threshold_ppm * base,
{
    let diff: u64 = if value >= base { value - base } else { base - value };
    proof {
        lemma_u64_mul_fits(diff, RATIO_SCALE);
        lemma_u64_mul_fits(threshold_ppm, base);
    }
    (diff as u128) * (RATIO_SCALE as u128) > (threshold_ppm as u128) * (base as u128)
}

} // verus!
