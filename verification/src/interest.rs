//! The loan shark's interest.  Each journey multiplies the debt by the
//! single-precision number nearest to 1.1 and truncates the product back to
//! an `i32`; a positive debt that this would leave unchanged grows by one
//! unit instead, since the debt increases with every journey.  This module states that computation over the integers, exactly
//! as single-precision arithmetic rounds it, and computes it without any
//! floating-point operation.
use vstd::prelude::*;
use vstd::arithmetic::div_mod::{lemma_fundamental_div_mod, lemma_fundamental_div_mod_converse};
use vstd::arithmetic::power2::{pow2, lemma2_to64};
use crate::rounding::{
    f32_round, f32_spacing, lemma_f32_round, lemma_f32_round_relative, lemma_f32_spacing,
    lemma_f32_spacing_divides, round_f32,
};

verus! {

/// The single-precision factor of interest, `1.0f32 + 0.1f32`, is
/// `9227469 / 2^23`; this is its numerator.
pub open spec fn interest_numerator() -> nat {
    9227469
}

/// `2^23`, the denominator of the interest factor.
pub open spec fn interest_denominator() -> nat {
    0x80_0000
}

/// Magnitude of the debt after interest: the magnitude converted to single
/// precision, multiplied by the factor with single-precision rounding, and
/// truncated to an integer.
pub open spec fn interest_magnitude(m: nat) -> nat {
    f32_round(f32_round(m) * interest_numerator()) / interest_denominator()
}

/// One day's interest as single-precision arithmetic computes it:
/// `(debt as f32 * (1.0 + 0.1)) as i32`, a conversion that truncates toward
/// zero and saturates at the bounds of `i32`.
pub open spec fn single_precision_interest(debt: int) -> int {
    if debt >= 0 {
        if interest_magnitude(debt as nat) > i32::MAX {
            i32::MAX as int
        } else {
            interest_magnitude(debt as nat) as int
        }
    } else {
        if interest_magnitude((-debt) as nat) >= 0x8000_0000 {
            i32::MIN as int
        } else {
            -(interest_magnitude((-debt) as nat) as int)
        }
    }
}

/// Debt after one day's interest: ten percent as single precision computes
/// it, except that a positive debt always grows by at least one unit (the
/// loan shark's debt increases with every journey) unless it already stands
/// at `i32::MAX`.
pub open spec fn debt_after_interest(debt: int) -> int {
    let r = single_precision_interest(debt);
    if 0 < debt < i32::MAX && r <= debt {
        debt + 1
    } else {
        r
    }
}

/// The loan shark's rate is ten percent, rounded down, and at least one
/// unit: for every debt below 1,572,869 one day of interest adds a tenth of
/// the debt (integer division), or one unit for a debt from 1 to 9.  The
/// first debt where single-precision rounding adds one unit more is
/// 1,572,869.
pub proof fn law_interest_is_ten_percent(debt: int)
    requires
        0 <= debt < 1572869,
    ensures
        debt_after_interest(debt) == if 1 <= debt < 10 {
            debt + 1
        } else {
            debt + debt / 10
        },
{
    lemma_single_precision_ten_percent(debt);
}

/// Below 1,572,869 single precision adds exactly a tenth, rounded down.
proof fn lemma_single_precision_ten_percent(debt: int)
    requires
        0 <= debt < 1572869,
    ensures
        single_precision_interest(debt) == debt + debt / 10,
{
    let d = debt as nat;
    lemma_f32_round(d);
    assert(f32_round(d) == d);
    let p: nat = d * 9227469;
    assert(p < 0x1000_0000_0000);
    assert(pow2(20) == 0x10_0000) by {
        lemma2_to64();
    }
    lemma_f32_spacing_divides(p, 20);
    lemma_f32_spacing(p);
    lemma_f32_round(p);
    let u = f32_spacing(p) as int;
    let c = 0x10_0000int / u;
    lemma_fundamental_div_mod(0x10_0000int, u);
    assert(0x10_0000int == c * u);
    let t = debt + debt / 10;
    let j1 = t * 8 * c;
    let j2 = (t + 1) * 8 * c;
    assert(j1 * u == t * 0x80_0000) by (nonlinear_arith)
        requires
            0x10_0000int == c * u,
            j1 == t * 8 * c,
    ;
    assert(j2 * u == (t + 1) * 0x80_0000) by (nonlinear_arith)
        requires
            0x10_0000int == c * u,
            j2 == (t + 1) * 8 * c,
    ;
    assert(t * 0x80_0000 <= p);
    assert(p < (t + 1) * 0x80_0000);
    assert(2 * ((t + 1) * 0x80_0000 - p) > 0x10_0000);
    assert(j1 * u <= f32_round(p));
    assert(f32_round(p) < j2 * u);
    let r = f32_round(p) as int;
    lemma_fundamental_div_mod_converse(r, 0x80_0000, t, r - t * 0x80_0000);
    assert(interest_magnitude(d) == t);
}

/// Interest never lowers a debt: for every debt that is not negative, the
/// debt after a day of interest is at least the debt before.
pub proof fn law_interest_never_lowers_debt(debt: int)
    requires
        0 <= debt <= i32::MAX,
    ensures
        debt_after_interest(debt) >= debt,
{
    lemma_single_precision_never_lowers(debt);
}

/// A positive debt grows with every day of interest, unless it already
/// stands at `i32::MAX`.
pub proof fn law_interest_grows_positive_debt(debt: int)
    requires
        0 < debt < i32::MAX,
    ensures
        debt_after_interest(debt) > debt,
{
    lemma_single_precision_never_lowers(debt);
}

/// Single precision never lowers a debt that is not negative.
proof fn lemma_single_precision_never_lowers(debt: int)
    requires
        0 <= debt <= i32::MAX,
    ensures
        single_precision_interest(debt) >= debt,
{
    let d = debt as nat;
    let x = f32_round(d);
    lemma_f32_round_relative(d);
    let p: nat = x * 9227469;
    let r = f32_round(p);
    lemma_f32_round_relative(p);
    assert(r * 0x100_0000 * 0x100_0000 >= d * 0xFF_FFFF * 0xFF_FFFF * 9227469) by (nonlinear_arith)
        requires
            r * 0x100_0000 >= p * 0xFF_FFFF,
            x * 0x100_0000 >= d * 0xFF_FFFF,
            p == x * 9227469,
    ;
    assert(r >= d * 0x80_0000) by (nonlinear_arith)
        requires
            r * 0x100_0000 * 0x100_0000 >= d * 0xFF_FFFF * 0xFF_FFFF * 9227469,
    ;
    lemma_fundamental_div_mod(r as int, 0x80_0000);
    assert(r / 0x80_0000 >= d) by (nonlinear_arith)
        requires
            r == 0x80_0000 * (r / 0x80_0000) + r % 0x80_0000,
            0 <= r % 0x80_0000 < 0x80_0000,
            r >= d * 0x80_0000,
    ;
    assert(interest_magnitude(d) >= d);
}

/// The debt after one day of interest: `(debt as f32 * (1.0 + 0.1)) as i32`,
/// raised to one unit more than the debt when that leaves a positive debt
/// below `i32::MAX` unchanged.
pub fn apply_interest(debt: i32) -> (r: i32)
    ensures
        r == debt_after_interest(debt as int),
{
    let r = single_precision_interest_of(debt);
    if 0 < debt && debt < i32::MAX && r <= debt {
        debt + 1
    } else {
        r
    }
}

/// `(debt as f32 * (1.0 + 0.1)) as i32`, computed over the integers.
pub fn single_precision_interest_of(debt: i32) -> (r: i32)
    ensures
        r == single_precision_interest(debt as int),
{
    let negative = debt < 0;
    let magnitude: u64 = if negative {
        (-(debt as i64)) as u64
    } else {
        debt as u64
    };
    let x = round_f32(magnitude);
    let p = round_f32(x * 9227469);
    let t = p / 0x80_0000;
    if !negative {
        if t > 0x7fff_ffff {
            i32::MAX
        } else {
            t as i32
        }
    } else {
        if t >= 0x8000_0000 {
            i32::MIN
        } else {
            (-(t as i64)) as i32
        }
    }
}

} // verus!
