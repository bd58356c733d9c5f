//! The output of a single shake channel.
//!
//! Every translation axis and rotation angle the evaluators write is the
//! channel's configured maximum, scaled by the frame's trauma amount and
//! by the channel's random value.

use crate::fixed::fx_abs;
use crate::fixed::fx_mul;
use crate::fixed::fx_mul_s;
use crate::fixed::lemma_fx_mul_contracts;
use crate::fixed::FX_LIMIT;
use crate::fixed::FX_ONE;
use vstd::prelude::*;

verus! {

/// One channel's output: `max * amount * r` in fixed point, multiplied
/// left to right.
pub open spec fn channel_value_s(max: int, amount: int, r: int) -> int {
    fx_mul_s(fx_mul_s(max, amount), r)
}

/// Computes one channel's output.  Since the trauma amount and the
/// random value both have magnitude at most one, the result never
/// exceeds the channel's configured maximum in magnitude.
pub fn channel_value(max: i64, amount: i64, r: i64) -> (v: i64)
    requires
        fx_abs(max as int) <= FX_LIMIT as int,
        0 <= amount <= FX_ONE,
        -FX_ONE <= r <= FX_ONE,
    ensures
        v == channel_value_s(max as int, amount as int, r as int),
        fx_abs(v as int) <= fx_abs(max as int),
{
    proof {
        lemma_fx_mul_contracts(max as int, amount as int);
    }
    let m: i64 = fx_mul(max, amount);
    proof {
        lemma_fx_mul_contracts(m as int, r as int);
    }
    fx_mul(m, r)
}

} // verus!
