//! Trauma decay and the trauma amount.
//!
//! Each frame a shake configuration loses `decay * dt` trauma, clamped
//! below at zero; the shake intensity for the frame is the remaining
//! trauma raised to the configured power.  The power shapes the falloff
//! curve: a quadratic or cubic power gives a sharp initial kick and a
//! gentle tail instead of a linear cutoff.

use crate::channel::channel_value_s;
use crate::fixed::fx_abs;
use crate::fixed::fx_mul;
use crate::fixed::fx_mul_s;
use crate::fixed::fx_pow_s;
use crate::fixed::lemma_fx_mul_contracts;
use crate::fixed::lemma_fx_mul_nonneg;
use crate::fixed::lemma_fx_mul_zero;
use crate::fixed::lemma_fx_pow_mono;
use crate::fixed::lemma_fx_pow_zero_base;
use crate::fixed::FX_LIMIT;
use crate::fixed::FX_ONE;
use vstd::prelude::*;

verus! {

/// The trauma left after one frame: `max(trauma - decay * dt, 0)`.
/// Nothing clamps the result above: a negative decay rate makes trauma
/// grow over time.
pub open spec fn decayed_trauma_s(trauma: int, decay: int, dt: int) -> int {
    if trauma - fx_mul_s(decay, dt) >= 0 {
        trauma - fx_mul_s(decay, dt)
    } else {
        0
    }
}

/// One decay step over an elapsed frame duration `dt`.
pub fn decay_trauma(trauma: i64, decay: i64, dt: i64) -> (r: i64)
    requires
        0 <= trauma <= FX_ONE,
        -FX_LIMIT <= decay <= FX_LIMIT,
        0 <= dt <= FX_LIMIT,
    ensures
        r == decayed_trauma_s(trauma as int, decay as int, dt as int),
{
    let d: i64 = fx_mul(decay, dt);
    proof {
        lemma_fx_mul_bounded(decay as int, dt as int);
    }
    if trauma >= d {
        trauma - d
    } else {
        0
    }
}

/// The magnitude of a fixed-point product of two values within
/// `FX_LIMIT` stays well inside the `i64` range.
proof fn lemma_fx_mul_bounded(a: int, b: int)
    requires
        fx_abs(a) <= FX_LIMIT as int,
        fx_abs(b) <= FX_LIMIT as int,
    ensures
        fx_abs(fx_mul_s(a, b)) <= 1_000_000_000_000_000_000,
{
    assert(fx_abs(a) * fx_abs(b) <= FX_LIMIT as int * FX_LIMIT as int) by (nonlinear_arith)
        requires
            0 <= fx_abs(a) <= FX_LIMIT as int,
            0 <= fx_abs(b) <= FX_LIMIT as int,
    ;
    vstd::arithmetic::div_mod::lemma_div_pos_is_pos(fx_abs(a) * fx_abs(b), FX_ONE as int);
    vstd::arithmetic::div_mod::lemma_div_is_ordered(
        fx_abs(a) * fx_abs(b),
        FX_LIMIT as int * FX_LIMIT as int,
        FX_ONE as int,
    );
}

/// The trauma amount for a frame: the remaining trauma raised to the
/// configured power, computed by repeated fixed-point multiplication.
pub fn trauma_amount(trauma: i64, trauma_power: u32) -> (r: i64)
    requires
        0 <= trauma <= FX_ONE,
    ensures
        r == fx_pow_s(trauma as int, trauma_power as nat),
        0 <= r <= FX_ONE,
{
    let mut v: i64 = FX_ONE;
    let mut i: u32 = 0;
    while i < trauma_power
        invariant
            0 <= trauma <= FX_ONE,
            i <= trauma_power,
            v == fx_pow_s(trauma as int, i as nat),
            0 <= v <= FX_ONE,
        decreases trauma_power - i,
    {
        proof {
            lemma_fx_mul_nonneg(v as int, trauma as int);
            lemma_fx_mul_contracts(v as int, trauma as int);
        }
        v = fx_mul(v, trauma);
        i = i + 1;
    }
    v
}

/// Decay can only lower a nonnegative trauma value, never below zero:
/// for any trauma in the unit interval and nonnegative decay rate and
/// frame duration, the decayed trauma lies between zero and the old
/// trauma.
pub proof fn lemma_trauma_decay_bounds(trauma: int, decay: int, dt: int)
    requires
        0 <= trauma <= FX_ONE as int,
        0 <= decay,
        0 <= dt,
    ensures
        0 <= decayed_trauma_s(trauma, decay, dt) <= trauma,
{
    lemma_fx_mul_nonneg(decay, dt);
}

/// The trauma amount never decreases when trauma increases, and a
/// positive power of zero trauma is exactly zero.
pub proof fn lemma_trauma_amount_monotonic(t1: int, t2: int, power: nat)
    requires
        0 <= t1 <= t2 <= FX_ONE as int,
        power >= 1,
    ensures
        fx_pow_s(t1, power) <= fx_pow_s(t2, power),
        fx_pow_s(0, power) == 0,
{
    lemma_fx_pow_mono(t1, t2, power);
    lemma_fx_pow_zero_base(power);
}

/// With a zero decay rate the evaluator is steady: no frame changes the
/// trauma, every frame computes the same trauma amount whatever its
/// duration, and a channel fed the same random value therefore writes
/// the same output every frame.
pub proof fn lemma_zero_decay_steady(trauma: int, power: nat, dt1: int, dt2: int)
    requires
        0 <= trauma <= FX_ONE as int,
        0 <= dt1,
        0 <= dt2,
    ensures
        decayed_trauma_s(trauma, 0, dt1) == trauma,
        fx_pow_s(decayed_trauma_s(trauma, 0, dt1), power) == fx_pow_s(
            decayed_trauma_s(trauma, 0, dt2),
            power,
        ),
        forall|m: int, r: int|
            #[trigger] channel_value_s(m, fx_pow_s(decayed_trauma_s(trauma, 0, dt1), power), r)
                == channel_value_s(m, fx_pow_s(trauma, power), r),
{
    lemma_fx_mul_zero(dt1);
    lemma_fx_mul_zero(dt2);
}

} // verus!
