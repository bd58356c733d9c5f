//! The two-dimensional shake configuration and its per-frame evaluator.

use crate::channel::channel_value;
use crate::channel::channel_value_s;
use crate::fixed::fx_abs;
use crate::fixed::fx_pow_s;
use crate::fixed::lemma_fx_mul_one;
use crate::fixed::lemma_fx_mul_zero;
use crate::fixed::FX_LIMIT;
use crate::fixed::FX_ONE;
use crate::random::NotRandom;
use crate::random::RandomSource;
use crate::transform::EulerYxz;
use crate::transform::FxVec2;
use crate::transform::FxVec3;
use crate::transform::ShakeTransform;
use crate::trauma::decay_trauma;
use crate::trauma::decayed_trauma_s;
use crate::trauma::trauma_amount;
use vstd::prelude::*;

verus! {

/// The configuration and state for shaking something in two dimensions.
/// An entity carrying it must also carry a transform for the evaluator
/// to write.
pub struct Shake2d<S: RandomSource> {
    /// The maximum amount of offset in the X and Y dimensions.
    pub max_offset: FxVec2,
    /// The maximum amount of roll allowed, in fixed-point radians.
    pub max_roll: i64,
    /// The current trauma, in the unit interval.  Callers raise it on an
    /// impact event, clamping to at most one themselves; the evaluator
    /// only ever decreases it.
    pub trauma: i64,
    /// The exponent of the trauma used when calculating offset and
    /// rotational shakiness; two or three gives a sharp kick with a
    /// gentle tail.
    pub trauma_power: u32,
    /// The fraction of trauma to remove per second.  One means no trauma
    /// is left after a second; zero means trauma never decays; a
    /// negative value makes trauma grow over time.
    pub decay: i64,
    /// The random sources for all 3 channels: X and Y lateral motion,
    /// then roll.
    pub random_sources: [S; 3],
}

impl<S: RandomSource> Shake2d<S> {
    /// Field bounds under which every step of the evaluator stays in
    /// range: trauma in the unit interval, and every other magnitude
    /// within `FX_LIMIT`.
    pub open spec fn wf(&self) -> bool {
        &&& 0 <= self.trauma <= FX_ONE
        &&& fx_abs(self.max_offset.x as int) <= FX_LIMIT as int
        &&& fx_abs(self.max_offset.y as int) <= FX_LIMIT as int
        &&& fx_abs(self.max_roll as int) <= FX_LIMIT as int
        &&& fx_abs(self.decay as int) <= FX_LIMIT as int
    }
}

impl Default for Shake2d<NotRandom> {
    /// The stock configuration: one hundred whole units of maximum
    /// offset per axis, a tenth of a radian of maximum roll, no trauma,
    /// a quadratic falloff, and eight tenths of the trauma removed per
    /// second; every channel reads from `NotRandom`.
    fn default() -> (s: Self)
        ensures
            s.max_offset.x == 100 * FX_ONE,
            s.max_offset.y == 100 * FX_ONE,
            s.max_roll == FX_ONE / 10,
            s.trauma == 0,
            s.trauma_power == 2,
            s.decay == 8 * FX_ONE / 10,
            s.wf(),
    {
        Shake2d {
            max_offset: FxVec2 { x: 100 * FX_ONE, y: 100 * FX_ONE },
            max_roll: FX_ONE / 10,
            trauma: 0,
            trauma_power: 2,
            decay: 8 * FX_ONE / 10,
            random_sources: [NotRandom, NotRandom, NotRandom],
        }
    }
}

/// Builds the transform the 2d evaluator writes for a given trauma
/// amount and random channel values: the offset is `max_offset` scaled
/// per axis, the roll is `max_roll` scaled, and a zero amount yields
/// exactly the identity pose whatever the channels returned.
pub fn shake2d_transform(
    max_offset: FxVec2,
    max_roll: i64,
    amount: i64,
    rx: i64,
    ry: i64,
    rr: i64,
) -> (out: ShakeTransform)
    requires
        fx_abs(max_offset.x as int) <= FX_LIMIT as int,
        fx_abs(max_offset.y as int) <= FX_LIMIT as int,
        fx_abs(max_roll as int) <= FX_LIMIT as int,
        0 <= amount <= FX_ONE,
        -FX_ONE <= rx <= FX_ONE,
        -FX_ONE <= ry <= FX_ONE,
        -FX_ONE <= rr <= FX_ONE,
    ensures
        out.translation.x == channel_value_s(max_offset.x as int, amount as int, rx as int),
        out.translation.y == channel_value_s(max_offset.y as int, amount as int, ry as int),
        out.translation.z == 0,
        out.rotation.yaw == 0,
        out.rotation.pitch == 0,
        out.rotation.roll == channel_value_s(max_roll as int, amount as int, rr as int),
        amount == 0 ==> out == ShakeTransform::identity_s(),
        fx_abs(out.translation.x as int) <= fx_abs(max_offset.x as int),
        fx_abs(out.translation.y as int) <= fx_abs(max_offset.y as int),
        fx_abs(out.rotation.roll as int) <= fx_abs(max_roll as int),
{
    if amount > 0 {
        let ox: i64 = channel_value(max_offset.x, amount, rx);
        let oy: i64 = channel_value(max_offset.y, amount, ry);
        let roll: i64 = channel_value(max_roll, amount, rr);
        ShakeTransform {
            translation: FxVec3 { x: ox, y: oy, z: 0 },
            rotation: EulerYxz { yaw: 0, pitch: 0, roll },
        }
    } else {
        proof {
            lemma_fx_mul_zero(max_offset.x as int);
            lemma_fx_mul_zero(max_offset.y as int);
            lemma_fx_mul_zero(max_roll as int);
            lemma_fx_mul_zero(rx as int);
            lemma_fx_mul_zero(ry as int);
            lemma_fx_mul_zero(rr as int);
        }
        ShakeTransform::identity()
    }
}

/// One frame of the 2d evaluator.  It removes `decay * dt` trauma
/// (never dropping below zero), raises what remains to the configured
/// power, samples the three random channels at `elapsed`, and overwrites
/// `transform` with the resulting pose; a zero trauma amount writes
/// exactly the identity pose.
pub fn apply_shake_2d<S: RandomSource>(
    shake: &mut Shake2d<S>,
    transform: &mut ShakeTransform,
    elapsed: i64,
    dt: i64,
)
    requires
        old(shake).wf(),
        0 <= dt <= FX_LIMIT,
        decayed_trauma_s(old(shake).trauma as int, old(shake).decay as int, dt as int)
            <= FX_ONE as int,
    ensures
        final(shake).trauma == decayed_trauma_s(
            old(shake).trauma as int,
            old(shake).decay as int,
            dt as int,
        ),
        final(shake).max_offset == old(shake).max_offset,
        final(shake).max_roll == old(shake).max_roll,
        final(shake).trauma_power == old(shake).trauma_power,
        final(shake).decay == old(shake).decay,
        final(shake).random_sources == old(shake).random_sources,
        final(shake).wf(),
        fx_pow_s(final(shake).trauma as int, old(shake).trauma_power as nat) == 0
            ==> *final(transform) == ShakeTransform::identity_s(),
        exists|rx: int, ry: int, rr: int|
            {
                &&& -(FX_ONE as int) <= rx <= FX_ONE as int
                &&& -(FX_ONE as int) <= ry <= FX_ONE as int
                &&& -(FX_ONE as int) <= rr <= FX_ONE as int
                &&& final(transform).translation.x == channel_value_s(
                    old(shake).max_offset.x as int,
                    fx_pow_s(final(shake).trauma as int, old(shake).trauma_power as nat),
                    rx,
                )
                &&& final(transform).translation.y == channel_value_s(
                    old(shake).max_offset.y as int,
                    fx_pow_s(final(shake).trauma as int, old(shake).trauma_power as nat),
                    ry,
                )
                &&& final(transform).rotation.roll == channel_value_s(
                    old(shake).max_roll as int,
                    fx_pow_s(final(shake).trauma as int, old(shake).trauma_power as nat),
                    rr,
                )
            },
        final(transform).translation.z == 0,
        final(transform).rotation.yaw == 0,
        final(transform).rotation.pitch == 0,
        fx_abs(final(transform).translation.x as int) <= fx_abs(old(shake).max_offset.x as int),
        fx_abs(final(transform).translation.y as int) <= fx_abs(old(shake).max_offset.y as int),
        fx_abs(final(transform).rotation.roll as int) <= fx_abs(old(shake).max_roll as int),
{
    let new_trauma: i64 = decay_trauma(shake.trauma, shake.decay, dt);
    shake.trauma = new_trauma;
    let amount: i64 = trauma_amount(new_trauma, shake.trauma_power);
    let r0: i64 = shake.random_sources[0].rand(elapsed);
    let r1: i64 = shake.random_sources[1].rand(elapsed);
    let r2: i64 = shake.random_sources[2].rand(elapsed);
    let out: ShakeTransform = shake2d_transform(
        shake.max_offset,
        shake.max_roll,
        amount,
        r0,
        r1,
        r2,
    );
    *transform = out;
    proof {
        assert((*transform).translation.x == channel_value_s(
            old(shake).max_offset.x as int,
            fx_pow_s(shake.trauma as int, old(shake).trauma_power as nat),
            r0 as int,
        ));
        assert((*transform).translation.y == channel_value_s(
            old(shake).max_offset.y as int,
            fx_pow_s(shake.trauma as int, old(shake).trauma_power as nat),
            r1 as int,
        ));
        assert((*transform).rotation.roll == channel_value_s(
            old(shake).max_roll as int,
            fx_pow_s(shake.trauma as int, old(shake).trauma_power as nat),
            r2 as int,
        ));
    }
}

/// With full trauma amount and every channel returning exactly one, the
/// 2d offset equals `max_offset` exactly and the roll equals `max_roll`
/// exactly.
pub proof fn lemma_full_shake_exact_2d(max_offset: FxVec2, max_roll: int)
    ensures
        channel_value_s(max_offset.x as int, FX_ONE as int, FX_ONE as int) == max_offset.x,
        channel_value_s(max_offset.y as int, FX_ONE as int, FX_ONE as int) == max_offset.y,
        channel_value_s(max_roll, FX_ONE as int, FX_ONE as int) == max_roll,
{
    lemma_fx_mul_one(max_offset.x as int);
    lemma_fx_mul_one(max_offset.y as int);
    lemma_fx_mul_one(max_roll);
}

} // verus!
