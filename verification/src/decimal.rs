//! Parsing the decimal price and quantity strings that venue wire formats
//! carry, into the engine's fixed-point representation: the numeric value
//! scaled by a power of ten chosen by the caller.

use vstd::prelude::*;

verus! {

/// Powers of ten.
pub open spec fn pow10(n: nat) -> int
    decreases n,
{
    if n == 0 {
        1
    } else {
        10 * pow10((n - 1) as nat)
    }
}

pub proof fn lemma_pow10_pos(n: nat)
    ensures
        pow10(n) >= 1,
    decreases n,
{
    if n > 0 {
        lemma_pow10_pos((n - 1) as nat);
    }
}

pub proof fn lemma_pow10_monotone(m: nat, n: nat)
    requires
        m <= n,
    ensures
        pow10(m) <= pow10(n),
    decreases n,
{
    lemma_pow10_pos(m);
    if m < n {
        lemma_pow10_monotone(m, (n - 1) as nat);
        lemma_pow10_pos((n - 1) as nat);
    }
}

pub proof fn lemma_pow10_19()
    ensures
        pow10(19) == 10_000_000_000_000_000_000,
{
    reveal_with_fuel(pow10, 20);
}

/// Ten to the `n`th, as a machine word.
pub fn pow10_u64(n: u32) -> (r: u64)
    requires
        n <= 19,
    ensures
        r == pow10(n as nat),
{
    let mut r: u64 = 1;
    let mut i: u32 = 0;
    proof {
        lemma_pow10_19();
    }
    while i < n
        invariant
            i <= n <= 19,
            r == pow10(i as nat),
            pow10(19) == 10_000_000_000_000_000_000,
        decreases n - i,
    {
        proof {
            lemma_pow10_monotone((i + 1) as nat, 19nat);
        }
        r = r * 10;
        i = i + 1;
    }
    r
}

/// An ASCII decimal digit.
pub open spec fn is_digit(c: u8) -> bool {
    48 <= c <= 57
}

pub open spec fn all_digits(s: Seq<u8>) -> bool {
    forall|i: int| 0 <= i < s.len() ==> is_digit(#[trigger] s[i])
}

/// The number a digit string denotes, most significant digit first.
pub open spec fn digits_val(s: Seq<u8>) -> int
    decreases s.len(),
{
    if s.len() == 0 {
        0
    } else {
        digits_val(s.drop_last()) * 10 + (s.last() - 48)
    }
}

pub proof fn lemma_digits_val_nonneg(s: Seq<u8>)
    requires
        all_digits(s),
    ensures
        digits_val(s) >= 0,
    decreases s.len(),
{
    if s.len() > 0 {
        assert(all_digits(s.drop_last()));
        lemma_digits_val_nonneg(s.drop_last());
    }
}

/// A digit string's value never falls below the value of any of its
/// prefixes.
pub proof fn lemma_digits_val_prefix(s: Seq<u8>, i: int)
    requires
        all_digits(s),
        0 <= i <= s.len(),
    ensures
        digits_val(s.take(i)) <= digits_val(s),
    decreases s.len() - i,
{
    if i < s.len() {
        lemma_digits_val_prefix(s, i + 1);
        let t = s.take(i + 1);
        assert(t.drop_last() =~= s.take(i));
        assert(all_digits(s.take(i)));
        lemma_digits_val_nonneg(s.take(i));
        assert(digits_val(s.take(i)) <= digits_val(s.take(i)) * 10 + (t.last() - 48));
    } else {
        assert(s.take(i) =~= s);
    }
}

/// The position of the first `.` of a byte string.
pub open spec fn dot_pos(s: Seq<u8>) -> Option<int>
    decreases s.len(),
{
    if s.len() == 0 {
        None
    } else if s[0] == 46 {
        Some(0int)
    } else {
        match dot_pos(s.skip(1)) {
            Option::None => None,
            Option::Some(k) => Some(k + 1),
        }
    }
}

pub proof fn lemma_dot_pos_prefix(s: Seq<u8>, i: int)
    requires
        0 <= i <= s.len(),
        forall|j: int| 0 <= j < i ==> s[j] != 46,
    ensures
        dot_pos(s) == (match dot_pos(s.skip(i)) {
            Option::None => Option::<int>::None,
            Option::Some(k) => Option::<int>::Some(k + i),
        }),
    decreases i,
{
    if i > 0 {
        assert(s.skip(1).skip(i - 1) =~= s.skip(i));
        lemma_dot_pos_prefix(s.skip(1), i - 1);
        assert(s[0] != 46);
        assert(forall|j: int| 0 <= j < i - 1 ==> s.skip(1)[j] != 46);
    } else {
        assert(s.skip(0) =~= s);
    }
}

/// A well-formed decimal literal for a fixed-point scale of `frac` decimal
/// places: a non-empty run of digits, optionally followed by `.` and one to
/// `frac` fractional digits.
pub open spec fn valid_decimal(s: Seq<u8>, frac: nat) -> bool {
    match dot_pos(s) {
        Option::None => s.len() >= 1 && all_digits(s),
        Option::Some(k) => {
            &&& k >= 1
            &&& all_digits(s.take(k))
            &&& s.len() - k - 1 >= 1
            &&& s.len() - k - 1 <= frac
            &&& all_digits(s.skip(k + 1))
        },
    }
}

/// The fixed-point value of a well-formed decimal literal: the denoted number
/// times ten to the `frac`.
pub open spec fn decimal_value(s: Seq<u8>, frac: nat) -> int {
    match dot_pos(s) {
        Option::None => digits_val(s) * pow10(frac),
        Option::Some(k) => digits_val(s.take(k)) * pow10(frac) + digits_val(s.skip(k + 1))
            * pow10((frac - (s.len() - k - 1)) as nat),
    }
}

/// The value of a digit string, `None` when a byte is not a digit or the
/// value does not fit in a machine word.
fn parse_digits(s: &[u8], from: usize, to: usize) -> (r: Option<u64>)
    requires
        from <= to <= s@.len(),
    ensures
        r matches Some(v) ==> all_digits(s@.subrange(from as int, to as int))
            && v == digits_val(s@.subrange(from as int, to as int))
            && v <= u64::MAX,
        r is None ==> !all_digits(s@.subrange(from as int, to as int))
            || digits_val(s@.subrange(from as int, to as int)) > u64::MAX,
{
    let ghost whole = s@.subrange(from as int, to as int);
    let mut acc: u64 = 0;
    let mut i: usize = from;
    while i < to
        invariant
            from <= i <= to <= s@.len(),
            whole == s@.subrange(from as int, to as int),
            all_digits(whole.take(i - from)),
            acc == digits_val(whole.take(i - from)),
        decreases to - i,
    {
        let c = s[i];
        if c < 48 || c > 57 {
            proof {
                assert(whole[i - from] == c);
            }
            return None;
        }
        let d = (c - 48) as u64;
        proof {
            let t = whole.take(i - from + 1);
            assert(t.drop_last() =~= whole.take(i - from));
            assert(t.last() == whole[i - from]);
            assert(whole[i - from] == c);
        }
        let wide: u128 = (acc as u128) * 10 + (d as u128);
        if wide > u64::MAX as u128 {
            proof {
                if all_digits(whole) {
                    lemma_digits_val_prefix(whole, i - from + 1);
                }
            }
            return None;
        }
        acc = (wide) as u64;
        i = i + 1;
    }
    proof {
        assert(whole.take(to - from) =~= whole);
    }
    Some(acc)
}

/// The index of the first `.`, if any.
fn find_dot(s: &[u8]) -> (r: Option<usize>)
    ensures
        r matches Some(k) ==> k < s@.len() && s@[k as int] == 46
            && (forall|j: int| 0 <= j < k ==> s@[j] != 46),
        r is None ==> forall|j: int| 0 <= j < s@.len() ==> s@[j] != 46,
{
    let n = s.len();
    let mut i: usize = 0;
    while i < n
        invariant
            i <= n == s@.len(),
            forall|j: int| 0 <= j < i ==> s@[j] != 46,
        decreases n - i,
    {
        if s[i] == 46 {
            return Some(i);
        }
        i = i + 1;
    }
    None
}

/// Parses a decimal literal (digits, optionally a dot and up to `frac_digits`
/// fractional digits) into a fixed-point value with `frac_digits` decimal
/// places. Returns the value exactly when the literal is well formed and the
/// scaled value fits in a machine word.
pub fn parse_fixed(s: &[u8], frac_digits: u32) -> (r: Option<u64>)
    requires
        frac_digits <= 19,
    ensures
        r matches Some(v) ==> valid_decimal(s@, frac_digits as nat)
            && v == decimal_value(s@, frac_digits as nat),
        r is None ==> !valid_decimal(s@, frac_digits as nat)
            || decimal_value(s@, frac_digits as nat) > u64::MAX,
{
    let n = s.len();
    let dot = find_dot(s);
    match dot {
        Option::None => {
            proof {
                lemma_dot_pos_prefix(s@, n as int);
                assert(s@.skip(n as int) =~= Seq::<u8>::empty());
                assert(dot_pos(s@) is None);
            }
            if n == 0 {
                return None;
            }
            let v = match parse_digits(s, 0, n) {
                Option::Some(v) => v,
                Option::None => {
                    proof {
                        assert(s@.subrange(0, n as int) =~= s@);
                        if digits_val(s@) > u64::MAX {
                            lemma_pow10_pos(frac_digits as nat);
                            assert(digits_val(s@) * pow10(frac_digits as nat)
                                >= digits_val(s@) * 1) by (nonlinear_arith)
                                requires pow10(frac_digits as nat) >= 1,
                                    digits_val(s@) >= 0;
                        }
                    }
                    return None;
                },
            };
            proof {
                assert(s@.subrange(0, n as int) =~= s@);
            }
            let scale = pow10_u64(frac_digits);
            proof {
                crate::math::lemma_u64_mul_fits(v, scale);
            }
            let wide: u128 = (v as u128) * (scale as u128);
            if wide > u64::MAX as u128 {
                None
            } else {
                Some(wide as u64)
            }
        },
        Option::Some(k) => {
            proof {
                lemma_dot_pos_prefix(s@, k as int);
                assert(s@.skip(k as int)[0] == s@[k as int]);
                assert(dot_pos(s@.skip(k as int)) == Some(0int));
                assert(dot_pos(s@) == Some(k as int));
            }
            let frac_len = n - k - 1;
            if k < 1 || frac_len < 1 || frac_len > frac_digits as usize {
                return None;
            }
            let int_part = match parse_digits(s, 0, k) {
                Option::Some(v) => v,
                Option::None => {
                    proof {
                        assert(s@.subrange(0, k as int) =~= s@.take(k as int));
                        if all_digits(s@.take(k as int)) && all_digits(s@.skip(k + 1))
                            && digits_val(s@.take(k as int)) > u64::MAX {
                            lemma_pow10_pos(frac_digits as nat);
                            lemma_whole_value_bounds(s@, frac_digits as nat, k as int);
                        }
                    }
                    return None;
                },
            };
            let frac_part = match parse_digits(s, k + 1, n) {
                Option::Some(v) => v,
                Option::None => {
                    proof {
                        assert(s@.subrange(k + 1, n as int) =~= s@.skip(k + 1));
                        assert(s@.subrange(0, k as int) =~= s@.take(k as int));
                        if all_digits(s@.skip(k + 1)) && digits_val(s@.skip(k + 1)) > u64::MAX {
                            lemma_pow10_pos(frac_digits as nat);
                            lemma_whole_value_bounds(s@, frac_digits as nat, k as int);
                        }
                    }
                    return None;
                },
            };
            proof {
                assert(s@.subrange(0, k as int) =~= s@.take(k as int));
                assert(s@.subrange(k + 1, n as int) =~= s@.skip(k + 1));
            }
            let scale = pow10_u64(frac_digits);
            let frac_scale = pow10_u64(frac_digits - frac_len as u32);
            proof {
                crate::math::lemma_u64_mul_fits(int_part, scale);
                crate::math::lemma_u64_mul_fits(frac_part, frac_scale);
                lemma_digits_val_nonneg(s@.skip(k + 1));
                lemma_pow10_pos((frac_digits - frac_len) as nat);
                assert(digits_val(s@.skip(k + 1)) * pow10((frac_digits - frac_len) as nat) >= 0)
                    by (nonlinear_arith)
                    requires digits_val(s@.skip(k + 1)) >= 0,
                        pow10((frac_digits - frac_len) as nat) >= 0;
            }
            let wide_int: u128 = (int_part as u128) * (scale as u128);
            if wide_int > u64::MAX as u128 {
                return None;
            }
            proof {
                lemma_pow10_monotone((frac_digits - frac_len) as nat, 19nat);
                lemma_pow10_19();
                assert(frac_part * frac_scale
                    <= 0xFFFF_FFFF_FFFF_FFFF * 10_000_000_000_000_000_000) by (nonlinear_arith)
                    requires frac_part <= 0xFFFF_FFFF_FFFF_FFFF,
                        frac_scale <= 10_000_000_000_000_000_000, frac_part >= 0, frac_scale >= 0;
            }
            let wide: u128 = wide_int + (frac_part as u128) * (frac_scale as u128);
            if wide > u64::MAX as u128 {
                None
            } else {
                Some(wide as u64)
            }
        },
    }
}

/// When either part of a dotted literal overflows a machine word, so does the
/// whole fixed-point value.
proof fn lemma_whole_value_bounds(s: Seq<u8>, frac: nat, k: int)
    requires
        dot_pos(s) == Some(k),
        0 <= k < s.len(),
        s.len() - k - 1 >= 1,
        s.len() - k - 1 <= frac,
        all_digits(s.take(k)),
        all_digits(s.skip(k + 1)),
    ensures
        decimal_value(s, frac) >= digits_val(s.take(k)),
        decimal_value(s, frac) >= digits_val(s.skip(k + 1)),
{
    let iv = digits_val(s.take(k));
    let fv = digits_val(s.skip(k + 1));
    let fl = (s.len() - k - 1) as nat;
    lemma_digits_val_nonneg(s.take(k));
    lemma_digits_val_nonneg(s.skip(k + 1));
    lemma_pow10_pos(frac);
    lemma_pow10_pos((frac - fl) as nat);
    assert(iv * pow10(frac) >= iv * 1) by (nonlinear_arith)
        requires iv >= 0, pow10(frac) >= 1;
    assert(fv * pow10((frac - fl) as nat) >= fv * 1) by (nonlinear_arith)
        requires fv >= 0, pow10((frac - fl) as nat) >= 1;
    assert(iv * pow10(frac) >= 0) by (nonlinear_arith)
        requires iv >= 0, pow10(frac) >= 0;
    assert(fv * pow10((frac - fl) as nat) >= 0) by (nonlinear_arith)
        requires fv >= 0, pow10((frac - fl) as nat) >= 0;
}


/// The decimal digits of `v`, most significant first, without leading zeros
/// (a single zero digit for zero).
pub open spec fn render_nat(v: int) -> Seq<u8>
    decreases v,
{
    if v < 10 {
        seq![(48 + v) as u8]
    } else {
        render_nat(v / 10).push((48 + v % 10) as u8)
    }
}

/// Exactly `n` decimal digits of `v`, zero padded on the left.
pub open spec fn render_pad(v: int, n: nat) -> Seq<u8>
    decreases n,
{
    if n == 0 {
        Seq::empty()
    } else {
        render_pad(v / 10, (n - 1) as nat).push((48 + v % 10) as u8)
    }
}

/// The decimal literal of a fixed-point value with `frac` decimal places:
/// the integer part and, for a fractional scale, a dot and exactly `frac`
/// fractional digits.
pub open spec fn render_decimal(v: int, frac: nat) -> Seq<u8> {
    if frac == 0 {
        render_nat(v)
    } else {
        render_nat(v / pow10(frac)) + seq![46u8] + render_pad(v % pow10(frac), frac)
    }
}

pub proof fn lemma_render_nat_digits(v: int)
    requires
        v >= 0,
    ensures
        all_digits(render_nat(v)),
        digits_val(render_nat(v)) == v,
        render_nat(v).len() >= 1,
    decreases v,
{
    if v < 10 {
        assert(render_nat(v).drop_last() =~= Seq::<u8>::empty());
        assert(digits_val(Seq::<u8>::empty()) == 0);
        assert(((48 + v) as u8) == 48 + v);
    } else {
        lemma_render_nat_digits(v / 10);
        assert(render_nat(v).drop_last() =~= render_nat(v / 10));
        vstd::arithmetic::div_mod::lemma_fundamental_div_mod(v, 10);
        assert(0 <= v % 10 < 10);
        assert(((48 + v % 10) as u8) == 48 + v % 10);
    }
}

pub proof fn lemma_render_pad_digits(v: int, n: nat)
    requires
        0 <= v < pow10(n),
    ensures
        all_digits(render_pad(v, n)),
        digits_val(render_pad(v, n)) == v,
        render_pad(v, n).len() == n,
    decreases n,
{
    if n == 0 {
        assert(digits_val(Seq::<u8>::empty()) == 0);
    } else {
        assert(pow10(n) == 10 * pow10((n - 1) as nat));
        assert(v / 10 < pow10((n - 1) as nat)) by (nonlinear_arith)
            requires v < 10 * pow10((n - 1) as nat), v >= 0, pow10((n - 1) as nat) >= 0;
        lemma_render_pad_digits(v / 10, (n - 1) as nat);
        assert(render_pad(v, n).drop_last() =~= render_pad(v / 10, (n - 1) as nat));
        vstd::arithmetic::div_mod::lemma_fundamental_div_mod(v, 10);
        assert(0 <= v % 10 < 10);
        assert(((48 + v % 10) as u8) == 48 + v % 10);
    }
}

/// Round trip: the rendered literal of a fixed-point value is well formed and
/// parses back to exactly that value.
#[verifier::rlimit(50)]
pub proof fn lemma_render_parse_round_trip(v: u64, frac: nat)
    requires
        frac <= 19,
    ensures
        valid_decimal(render_decimal(v as int, frac), frac),
        decimal_value(render_decimal(v as int, frac), frac) == v,
{
    lemma_pow10_pos(frac);
    if frac == 0 {
        lemma_render_nat_digits(v as int);
        let s = render_decimal(v as int, frac);
        assert forall|j: int| 0 <= j < s.len() implies s[j] != 46 by {
            assert(is_digit(s[j]));
        }
        lemma_dot_pos_prefix(s, s.len() as int);
        assert(s.skip(s.len() as int) =~= Seq::<u8>::empty());
        assert(decimal_value(s, frac) == digits_val(s) * 1);
    } else {
        let scale = pow10(frac);
        let iv = (v as int) / scale;
        let fv = (v as int) % scale;
        vstd::arithmetic::div_mod::lemma_fundamental_div_mod(v as int, scale);
        lemma_render_nat_digits(iv);
        lemma_render_pad_digits(fv, frac);
        let ip = render_nat(iv);
        let fp = render_pad(fv, frac);
        let s = render_decimal(v as int, frac);
        let k = ip.len() as int;
        assert forall|j: int| 0 <= j < k implies s[j] != 46 by {
            assert(s[j] == ip[j]);
            assert(is_digit(ip[j]));
        }
        assert(s[k] == 46);
        assert(s.skip(k)[0] == s[k]);
        lemma_dot_pos_prefix(s, k);
        assert(dot_pos(s.skip(k)) == Some(0int));
        assert(dot_pos(s) == Some(k));
        assert(s.take(k) =~= ip);
        assert(s.skip(k + 1) =~= fp);
        assert(s.len() - k - 1 == frac);
        assert(decimal_value(s, frac) == iv * scale + fv * pow10((frac - frac) as nat));
        assert(fv * pow10(0nat) == fv * 1);
        assert(iv * scale + fv == v);
    }
}

/// The decimal digits of `v`, as bytes.
fn render_nat_u64(v: u64) -> (r: Vec<u8>)
    ensures
        r@ == render_nat(v as int),
    decreases v,
{
    if v < 10 {
        let mut r: Vec<u8> = Vec::new();
        r.push(48 + (v as u8));
        proof {
            assert(r@ =~= render_nat(v as int));
        }
        r
    } else {
        let mut r = render_nat_u64(v / 10);
        r.push(48 + ((v % 10) as u8));
        r
    }
}

/// Exactly `n` decimal digits of `v`, zero padded, as bytes.
fn render_pad_u64(v: u64, n: u32) -> (r: Vec<u8>)
    ensures
        r@ == render_pad(v as int, n as nat),
    decreases n,
{
    if n == 0 {
        let r: Vec<u8> = Vec::new();
        proof {
            assert(r@ =~= render_pad(v as int, n as nat));
        }
        r
    } else {
        let mut r = render_pad_u64(v / 10, n - 1);
        r.push(48 + ((v % 10) as u8));
        r
    }
}

/// Renders a fixed-point value with `frac_digits` decimal places back into
/// the decimal literal venues expect: the exact inverse of `parse_fixed`, as
/// `lemma_render_parse_round_trip` states.
pub fn render_fixed(v: u64, frac_digits: u32) -> (r: Vec<u8>)
    requires
        frac_digits <= 19,
    ensures
        r@ == render_decimal(v as int, frac_digits as nat),
        valid_decimal(r@, frac_digits as nat),
        decimal_value(r@, frac_digits as nat) == v,
{
    proof {
        lemma_render_parse_round_trip(v, frac_digits as nat);
    }
    if frac_digits == 0 {
        render_nat_u64(v)
    } else {
        let scale = pow10_u64(frac_digits);
        proof {
            lemma_pow10_pos(frac_digits as nat);
        }
        let mut r = render_nat_u64(v / scale);
        r.push(46);
        let mut fpart = render_pad_u64(v % scale, frac_digits);
        r.append(&mut fpart);
        proof {
            assert(r@ =~= render_decimal(v as int, frac_digits as nat));
        }
        r
    }
}

} // verus!
