//! Fixed-point arithmetic for the shake evaluators.
//!
//! A value is an `i64` holding six fractional decimal digits: `FX_ONE`
//! units stand for the real number one.  Products are taken at full
//! precision and scaled back down, with the magnitude rounded toward
//! zero, so every operation has an exact integer specification.

use vstd::arithmetic::div_mod::lemma_div_is_ordered;
use vstd::arithmetic::div_mod::lemma_div_multiples_vanish;
use vstd::arithmetic::div_mod::lemma_div_pos_is_pos;
use vstd::prelude::*;

verus! {

/// Number of fixed-point units in one whole unit.
pub const FX_ONE: i64 = 1_000_000;

/// Largest magnitude this crate handles: one million whole units.  The
/// full-precision product of two values within this limit fits in an
/// unsigned 128-bit integer, and its quotient by `FX_ONE` fits in `i64`.
pub const FX_LIMIT: i64 = 1_000_000_000_000;

/// The magnitude of an integer.
pub open spec fn fx_abs(a: int) -> int {
    if a >= 0 {
        a
    } else {
        -a
    }
}

/// The fixed-point product: the full-precision product scaled back down
/// by `FX_ONE`, with the magnitude rounded toward zero.
pub open spec fn fx_mul_s(a: int, b: int) -> int {
    if (a >= 0) == (b >= 0) {
        (fx_abs(a) * fx_abs(b)) / (FX_ONE as int)
    } else {
        -((fx_abs(a) * fx_abs(b)) / (FX_ONE as int))
    }
}

/// Multiplies two fixed-point values, rounding the magnitude toward zero.
pub fn fx_mul(a: i64, b: i64) -> (r: i64)
    requires
        -FX_LIMIT <= a <= FX_LIMIT,
        -FX_LIMIT <= b <= FX_LIMIT,
    ensures
        r == fx_mul_s(a as int, b as int),
{
    let ma: u64 = if a >= 0 {
        a as u64
    } else {
        (-a) as u64
    };
    let mb: u64 = if b >= 0 {
        b as u64
    } else {
        (-b) as u64
    };
    proof {
        assert(ma == fx_abs(a as int));
        assert(mb == fx_abs(b as int));
        assert(ma as int * mb as int <= FX_LIMIT as int * FX_LIMIT as int) by (nonlinear_arith)
            requires
                0 <= ma as int <= FX_LIMIT as int,
                0 <= mb as int <= FX_LIMIT as int,
        ;
    }
    let prod: u128 = (ma as u128) * (mb as u128);
    let q: u128 = prod / (FX_ONE as u128);
    proof {
        lemma_div_is_ordered(
            prod as int,
            FX_LIMIT as int * FX_LIMIT as int,
            FX_ONE as int,
        );
        assert(q <= 1_000_000_000_000_000_000);
    }
    if (a >= 0) == (b >= 0) {
        q as i64
    } else {
        -(q as i64)
    }
}

/// Multiplying by the fixed-point unit is exact.
pub proof fn lemma_fx_mul_one(a: int)
    ensures
        fx_mul_s(a, FX_ONE as int) == a,
{
    assert(fx_abs(a) * (FX_ONE as int) == (FX_ONE as int) * fx_abs(a));
    lemma_div_multiples_vanish(fx_abs(a), FX_ONE as int);
}

/// A zero factor gives a zero product.
pub proof fn lemma_fx_mul_zero(a: int)
    ensures
        fx_mul_s(a, 0) == 0,
        fx_mul_s(0, a) == 0,
{
    assert(fx_abs(a) * 0 == 0);
    assert(0 * fx_abs(a) == 0);
}

/// The product of nonnegative values is nonnegative.
pub proof fn lemma_fx_mul_nonneg(a: int, b: int)
    requires
        0 <= a,
        0 <= b,
    ensures
        0 <= fx_mul_s(a, b),
{
    assert(0 <= a * b) by (nonlinear_arith)
        requires
            0 <= a,
            0 <= b,
    ;
    lemma_div_pos_is_pos(a * b, FX_ONE as int);
}

/// A factor of magnitude at most one cannot increase the magnitude.
pub proof fn lemma_fx_mul_contracts(a: int, b: int)
    requires
        fx_abs(b) <= FX_ONE as int,
    ensures
        fx_abs(fx_mul_s(a, b)) <= fx_abs(a),
{
    assert(0 <= fx_abs(a) * fx_abs(b) && fx_abs(a) * fx_abs(b) <= fx_abs(a) * (FX_ONE as int))
        by (nonlinear_arith)
        requires
            0 <= fx_abs(a),
            0 <= fx_abs(b) <= FX_ONE as int,
    ;
    lemma_div_pos_is_pos(fx_abs(a) * fx_abs(b), FX_ONE as int);
    lemma_div_is_ordered(fx_abs(a) * fx_abs(b), fx_abs(a) * (FX_ONE as int), FX_ONE as int);
    assert(fx_abs(a) * (FX_ONE as int) == (FX_ONE as int) * fx_abs(a));
    lemma_div_multiples_vanish(fx_abs(a), FX_ONE as int);
}

/// Fixed-point products of nonnegative values are monotone in both
/// factors.
pub proof fn lemma_fx_mul_mono(a1: int, a2: int, b1: int, b2: int)
    requires
        0 <= a1 <= a2,
        0 <= b1 <= b2,
    ensures
        fx_mul_s(a1, b1) <= fx_mul_s(a2, b2),
{
    assert(a1 * b1 <= a2 * b2) by (nonlinear_arith)
        requires
            0 <= a1 <= a2,
            0 <= b1 <= b2,
    ;
    lemma_div_is_ordered(a1 * b1, a2 * b2, FX_ONE as int);
}

/// The fixed-point power with a natural exponent: `p` factors of `base`,
/// each scaled back down after multiplying; the zeroth power is one.
pub open spec fn fx_pow_s(base: int, p: nat) -> int
    decreases p,
{
    if p == 0 {
        FX_ONE as int
    } else {
        fx_mul_s(fx_pow_s(base, (p - 1) as nat), base)
    }
}

/// Powers of a value in the unit interval stay in the unit interval.
pub proof fn lemma_fx_pow_unit_range(base: int, p: nat)
    requires
        0 <= base <= FX_ONE as int,
    ensures
        0 <= fx_pow_s(base, p) <= FX_ONE as int,
    decreases p,
{
    if p > 0 {
        lemma_fx_pow_unit_range(base, (p - 1) as nat);
        lemma_fx_mul_nonneg(fx_pow_s(base, (p - 1) as nat), base);
        lemma_fx_mul_contracts(fx_pow_s(base, (p - 1) as nat), base);
    }
}

/// The power function is monotone in its base over the unit interval.
pub proof fn lemma_fx_pow_mono(a: int, b: int, p: nat)
    requires
        0 <= a <= b <= FX_ONE as int,
    ensures
        fx_pow_s(a, p) <= fx_pow_s(b, p),
    decreases p,
{
    if p > 0 {
        lemma_fx_pow_mono(a, b, (p - 1) as nat);
        lemma_fx_pow_unit_range(a, (p - 1) as nat);
        lemma_fx_pow_unit_range(b, (p - 1) as nat);
        lemma_fx_mul_mono(fx_pow_s(a, (p - 1) as nat), fx_pow_s(b, (p - 1) as nat), a, b);
    }
}

/// Any positive power of zero is zero.
pub proof fn lemma_fx_pow_zero_base(p: nat)
    requires
        p >= 1,
    ensures
        fx_pow_s(0, p) == 0,
{
    lemma_fx_mul_zero(fx_pow_s(0, (p - 1) as nat));
}

} // verus!
