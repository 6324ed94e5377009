//! Rounding to single precision over the integers: which integers a
//! single-precision number can hold, and how IEEE 754 rounds to them (to
//! nearest, ties to the even significand).  Products and quotients of
//! single-precision numbers are stated through these integers, scaled by
//! powers of two.
use vstd::prelude::*;
use vstd::arithmetic::div_mod::{
    lemma_div_denominator, lemma_fundamental_div_mod,
};
use vstd::arithmetic::power2::{pow2, lemma_pow2_unfold, lemma2_to64};

verus! {

/// `2^24`: nonnegative integers below it are exact in single precision.
pub open spec fn f32_exact_bound() -> nat {
    0x100_0000
}

/// Spacing of the single-precision numbers around a nonnegative integer `n`:
/// 1 below `2^24`, doubling with each further binary digit of `n`.
pub open spec fn f32_spacing(n: nat) -> nat
    decreases n,
{
    if n < f32_exact_bound() {
        1
    } else {
        2 * f32_spacing(n / 2)
    }
}

/// `n` rounded to the nearest single-precision number, ties to the even
/// significand, as IEEE 754 rounds (no overflow for the values used here).
pub open spec fn f32_round(n: nat) -> nat {
    let u = f32_spacing(n);
    let q = n / u;
    let r = n % u;
    if 2 * r > u || (2 * r == u && q % 2 == 1) {
        (q + 1) * u
    } else {
        q * u
    }
}

/// The spacing is positive, and it leaves fewer than `2^24` steps below `n`;
/// beyond the exact range it leaves at least `2^23`.
pub proof fn lemma_f32_spacing(n: nat)
    ensures
        f32_spacing(n) >= 1,
        n / f32_spacing(n) < f32_exact_bound(),
        n >= f32_exact_bound() ==> n / f32_spacing(n) >= 0x80_0000,
        n < f32_exact_bound() ==> f32_spacing(n) == 1,
    decreases n,
{
    if n >= f32_exact_bound() {
        let h = n / 2;
        lemma_f32_spacing(h);
        let s = f32_spacing(h);
        lemma_div_denominator(n as int, 2, s as int);
        assert(f32_spacing(n) == 2 * s);
        if h < f32_exact_bound() {
            assert(s == 1);
            assert(n / 2 >= 0x80_0000);
        }
    }
}

/// Rounding keeps a multiple of the spacing, lies within half a spacing of
/// `n`, and stays between consecutive multiples of the spacing around `n`.
pub proof fn lemma_f32_round(n: nat)
    ensures
        f32_round(n) % f32_spacing(n) == 0,
        2 * n <= 2 * f32_round(n) + f32_spacing(n),
        2 * f32_round(n) <= 2 * n + f32_spacing(n),
        forall|j: int| #![trigger j * f32_spacing(n)]
            j * f32_spacing(n) <= n ==> j * f32_spacing(n) <= f32_round(n),
        forall|j: int| #![trigger j * f32_spacing(n)]
            n < j * f32_spacing(n) && 2 * (j * f32_spacing(n) - n) > f32_spacing(n)
                ==> f32_round(n) < j * f32_spacing(n),
        n < f32_exact_bound() ==> f32_round(n) == n,
        f32_round(n) <= 2 * n,
{
    lemma_f32_spacing(n);
    let u = f32_spacing(n) as int;
    let q = (n / f32_spacing(n)) as int;
    let r = (n % f32_spacing(n)) as int;
    lemma_fundamental_div_mod(n as int, u);
    assert(n == u * q + r);
    assert(0 <= r < u);
    lemma_multiples(n as int, u, q, r);
    assert((q + 1) * u == q * u + u && u * q == q * u) by (nonlinear_arith);
    if 2 * r > u || (2 * r == u && q % 2 == 1) {
        assert(f32_round(n) == (q + 1) * u);
        assert forall|j: int| #![trigger j * f32_spacing(n)]
            n < j * f32_spacing(n) && 2 * (j * f32_spacing(n) - n) > f32_spacing(n)
                implies f32_round(n) < j * f32_spacing(n) by {
            assert((q + 1) * u <= j * u);
        }
    } else {
        assert(f32_round(n) == q * u);
        assert forall|j: int| #![trigger j * f32_spacing(n)]
            n < j * f32_spacing(n) && 2 * (j * f32_spacing(n) - n) > f32_spacing(n)
                implies f32_round(n) < j * f32_spacing(n) by {
            assert((q + 1) * u <= j * u);
        }
    }
    if n >= f32_exact_bound() {
        assert(q >= 1);
        assert(u <= n) by (nonlinear_arith)
            requires
                n == u * q + r,
                q >= 1,
                u >= 1,
                r >= 0,
        ;
    }
}

/// Facts about the two multiples of `u` around `n = u * q + r`.
proof fn lemma_multiples(n: int, u: int, q: int, r: int)
    requires
        u >= 1,
        0 <= r < u,
        n == u * q + r,
    ensures
        ((q + 1) * u) % u == 0,
        (q * u) % u == 0,
        q * u <= n < (q + 1) * u,
        forall|j: int| #![trigger j * u] j * u <= n ==> j * u <= q * u,
        forall|j: int| #![trigger j * u] n < j * u ==> (q + 1) * u <= j * u,
{
    assert(((q + 1) * u) % u == 0) by {
        vstd::arithmetic::div_mod::lemma_mod_multiples_basic(q + 1, u);
    }
    assert((q * u) % u == 0) by {
        vstd::arithmetic::div_mod::lemma_mod_multiples_basic(q, u);
    }
    assert(q * u <= n < (q + 1) * u) by (nonlinear_arith)
        requires
            u >= 1,
            0 <= r < u,
            n == u * q + r,
    ;
    assert forall|j: int| #![trigger j * u] j * u <= n implies j * u <= q * u by {
        assert(j <= q) by (nonlinear_arith)
            requires
                j * u <= n,
                n < (q + 1) * u,
                u >= 1,
        ;
        assert(j * u <= q * u) by (nonlinear_arith)
            requires
                j <= q,
                u >= 1,
        ;
    }
    assert forall|j: int| #![trigger j * u] n < j * u implies (q + 1) * u <= j * u by {
        assert(q < j) by (nonlinear_arith)
            requires
                q * u <= n,
                n < j * u,
                u >= 1,
        ;
        assert((q + 1) * u <= j * u) by (nonlinear_arith)
            requires
                q + 1 <= j,
                u >= 1,
        ;
    }
}

/// Below `2^24` times a power of two, the spacing divides that power of two.
pub proof fn lemma_f32_spacing_divides(n: nat, e: nat)
    requires
        n < f32_exact_bound() * pow2(e),
    ensures
        pow2(e) % f32_spacing(n) == 0,
        f32_spacing(n) <= pow2(e),
    decreases n,
{
    if n < f32_exact_bound() {
        vstd::arithmetic::power2::lemma_pow2_pos(e);
    } else {
        if e == 0 {
            assert(pow2(0) == 1) by {
                lemma2_to64();
            }
            assert(false);
        }
        let e1 = (e - 1) as nat;
        lemma_pow2_unfold(e);
        assert(pow2(e) == 2 * pow2(e1));
        assert(n / 2 < f32_exact_bound() * pow2(e1));
        lemma_f32_spacing_divides(n / 2, e1);
        lemma_f32_spacing(n / 2);
        let s = f32_spacing(n / 2) as int;
        let b = pow2(e1) as int;
        lemma_fundamental_div_mod(b, s);
        let k = b / s;
        assert(b == k * s);
        assert(2 * b == k * (2 * s)) by (nonlinear_arith)
            requires
                b == k * s,
        ;
        vstd::arithmetic::div_mod::lemma_mod_multiples_basic(k, 2 * s);
        assert(f32_spacing(n) == 2 * s);
    }
}

/// Rounding loses less than one part in `2^24`.
pub proof fn lemma_f32_round_relative(n: nat)
    ensures
        f32_round(n) * 0x100_0000 >= n * 0xFF_FFFF,
{
    lemma_f32_round(n);
    lemma_f32_spacing(n);
    let u = f32_spacing(n) as int;
    let r = f32_round(n) as int;
    if n >= f32_exact_bound() {
        lemma_fundamental_div_mod(n as int, u);
        let q = n as int / u;
        assert(u * 0x80_0000 <= n) by (nonlinear_arith)
            requires
                n == u * q + (n as int) % u,
                (n as int) % u >= 0,
                q >= 0x80_0000,
                u >= 1,
        ;
        assert(r * 0x100_0000 >= n * 0xFF_FFFF) by (nonlinear_arith)
            requires
                2 * n <= 2 * r + u,
                u * 0x80_0000 <= n,
        ;
    }
}

/// Rounds `n` to the nearest single-precision number, ties to even.
pub fn round_f32(n: u64) -> (r: u64)
    requires
        n < 0x1000_0000_0000_0000,
    ensures
        r == f32_round(n as nat),
        r <= 2 * n,
{
    proof {
        lemma_f32_round(n as nat);
    }
    let mut u: u64 = 1;
    let mut m: u64 = n;
    while m >= 0x100_0000
        invariant
            u >= 1,
            m == n / u,
            f32_spacing(n as nat) == u * f32_spacing(m as nat),
            u <= n || (u == 1),
            n < 0x1000_0000_0000_0000,
        decreases m,
    {
        proof {
            lemma_div_denominator(n as int, u as int, 2);
            assert(f32_spacing(m as nat) == 2 * f32_spacing((m / 2) as nat));
            assert(u * f32_spacing(m as nat) == (2 * u) * f32_spacing((m / 2) as nat))
                by (nonlinear_arith)
                requires
                    f32_spacing(m as nat) == 2 * f32_spacing((m / 2) as nat),
            ;
            let ni = n as int;
            let u2 = 2 * (u as int);
            lemma_fundamental_div_mod(ni, u2);
            assert(2 * u <= n) by (nonlinear_arith)
                requires
                    ni == u2 * (ni / u2) + ni % u2,
                    ni / u2 == (m as int) / 2,
                    m >= 0x100_0000,
                    ni % u2 >= 0,
                    u2 >= 2,
                    ni == n,
                    u2 == 2 * u,
            ;
        }
        m = m / 2;
        u = 2 * u;
    }
    proof {
        lemma_f32_spacing(m as nat);
        assert(f32_spacing(m as nat) == 1);
        assert(f32_spacing(n as nat) == u) by (nonlinear_arith)
            requires
                f32_spacing(n as nat) == u * f32_spacing(m as nat),
                f32_spacing(m as nat) == 1,
        ;
        lemma_fundamental_div_mod(n as int, u as int);
    }
    let q = m;
    let rem = n % u;
    assert(q * u <= n && n == q * u + rem) by (nonlinear_arith)
        requires
            (n as int) == (u as int) * ((n as int) / (u as int)) + (n as int) % (u as int),
            q as int == (n as int) / (u as int),
            rem as int == (n as int) % (u as int),
            rem >= 0,
    ;
    if 2 * rem > u || (2 * rem == u && q % 2 == 1) {
        assert((q + 1) * u == q * u + u) by (nonlinear_arith);
        (q + 1) * u
    } else {
        q * u
    }
}

} // verus!
