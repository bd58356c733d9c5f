//! The three-dimensional shake configuration and its per-frame
//! evaluator.

use crate::channel::channel_value;
use crate::channel::channel_value_s;
use crate::fixed::fx_abs;
use crate::fixed::fx_pow_s;
use crate::fixed::lemma_fx_mul_zero;
use crate::fixed::FX_LIMIT;
use crate::fixed::FX_ONE;
use crate::random::NotRandom;
use crate::random::RandomSource;
use crate::transform::EulerYxz;
use crate::transform::FxVec3;
use crate::transform::ShakeTransform;
use crate::trauma::decay_trauma;
use crate::trauma::decayed_trauma_s;
use crate::trauma::trauma_amount;
use vstd::prelude::*;

verus! {

/// The configuration and state for shaking something in three
/// dimensions.  An entity carrying it must also carry a transform for
/// the evaluator to write.
pub struct Shake3d<S: RandomSource> {
    /// The maximum amount to translate laterally in all 3 dimensions.
    /// A non-zero value can make a camera poke through walls.
    pub max_offset: FxVec3,
    /// The maximum amount to rotate in yaw, pitch and roll, in
    /// fixed-point radians.
    pub max_yaw_pitch_roll: FxVec3,
    /// The current trauma, in the unit interval.  Callers raise it on an
    /// impact event, clamping to at most one themselves; the evaluator
    /// only ever decreases it.
    pub trauma: i64,
    /// The exponent of the trauma used when calculating offset and
    /// rotational shakiness; two or three gives a sharp kick with a
    /// gentle tail.
    pub trauma_power: u32,
    /// The fraction of trauma to remove per second.  One means no trauma
    /// is left after a second; zero means trauma never decays; a
    /// negative value makes trauma grow over time.
    pub decay: i64,
    /// The random sources for all 6 channels: X, Y and Z lateral motion,
    /// then yaw, pitch and roll.
    pub random_sources: [S; 6],
}

impl<S: RandomSource> Shake3d<S> {
    /// Field bounds under which every step of the evaluator stays in
    /// range: trauma in the unit interval, and every other magnitude
    /// within `FX_LIMIT`.
    pub open spec fn wf(&self) -> bool {
        &&& 0 <= self.trauma <= FX_ONE
        &&& fx_abs(self.max_offset.x as int) <= FX_LIMIT as int
        &&& fx_abs(self.max_offset.y as int) <= FX_LIMIT as int
        &&& fx_abs(self.max_offset.z as int) <= FX_LIMIT as int
        &&& fx_abs(self.max_yaw_pitch_roll.x as int) <= FX_LIMIT as int
        &&& fx_abs(self.max_yaw_pitch_roll.y as int) <= FX_LIMIT as int
        &&& fx_abs(self.max_yaw_pitch_roll.z as int) <= FX_LIMIT as int
        &&& fx_abs(self.decay as int) <= FX_LIMIT as int
    }
}

impl Default for Shake3d<NotRandom> {
    /// The stock configuration: no lateral offset, a tenth of a radian
    /// of maximum rotation on each axis, no trauma, a quadratic falloff,
    /// and eight tenths of the trauma removed per second; every channel
    /// reads from `NotRandom`.
    fn default() -> (s: Self)
        ensures
            s.max_offset.x == 0,
            s.max_offset.y == 0,
            s.max_offset.z == 0,
            s.max_yaw_pitch_roll.x == FX_ONE / 10,
            s.max_yaw_pitch_roll.y == FX_ONE / 10,
            s.max_yaw_pitch_roll.z == FX_ONE / 10,
            s.trauma == 0,
            s.trauma_power == 2,
            s.decay == 8 * FX_ONE / 10,
            s.wf(),
    {
        Shake3d {
            max_offset: FxVec3 { x: 0, y: 0, z: 0 },
            max_yaw_pitch_roll: FxVec3 { x: FX_ONE / 10, y: FX_ONE / 10, z: FX_ONE / 10 },
            trauma: 0,
            trauma_power: 2,
            decay: 8 * FX_ONE / 10,
            random_sources: [
                NotRandom,
                NotRandom,
                NotRandom,
                NotRandom,
                NotRandom,
                NotRandom,
            ],
        }
    }
}

/// Builds the transform the 3d evaluator writes for a given trauma
/// amount and random channel values: the offset is `max_offset` scaled
/// per axis, the rotation is `max_yaw_pitch_roll` scaled per angle, and
/// a zero amount yields exactly the identity pose whatever the channels
/// returned.
pub fn shake3d_transform(
    max_offset: FxVec3,
    max_yaw_pitch_roll: FxVec3,
    amount: i64,
    r: [i64; 6],
) -> (out: ShakeTransform)
    requires
        fx_abs(max_offset.x as int) <= FX_LIMIT as int,
        fx_abs(max_offset.y as int) <= FX_LIMIT as int,
        fx_abs(max_offset.z as int) <= FX_LIMIT as int,
        fx_abs(max_yaw_pitch_roll.x as int) <= FX_LIMIT as int,
        fx_abs(max_yaw_pitch_roll.y as int) <= FX_LIMIT as int,
        fx_abs(max_yaw_pitch_roll.z as int) <= FX_LIMIT as int,
        0 <= amount <= FX_ONE,
        forall|i: int| 0 <= i < 6 ==> -FX_ONE <= #[trigger] r[i] <= FX_ONE,
    ensures
        out.translation.x == channel_value_s(max_offset.x as int, amount as int, r[0] as int),
        out.translation.y == channel_value_s(max_offset.y as int, amount as int, r[1] as int),
        out.translation.z == channel_value_s(max_offset.z as int, amount as int, r[2] as int),
        out.rotation.yaw == channel_value_s(
            max_yaw_pitch_roll.x as int,
            amount as int,
            r[3] as int,
        ),
        out.rotation.pitch == channel_value_s(
            max_yaw_pitch_roll.y as int,
            amount as int,
            r[4] as int,
        ),
        out.rotation.roll == channel_value_s(
            max_yaw_pitch_roll.z as int,
            amount as int,
            r[5] as int,
        ),
        amount == 0 ==> out == ShakeTransform::identity_s(),
        fx_abs(out.translation.x as int) <= fx_abs(max_offset.x as int),
        fx_abs(out.translation.y as int) <= fx_abs(max_offset.y as int),
        fx_abs(out.translation.z as int) <= fx_abs(max_offset.z as int),
        fx_abs(out.rotation.yaw as int) <= fx_abs(max_yaw_pitch_roll.x as int),
        fx_abs(out.rotation.pitch as int) <= fx_abs(max_yaw_pitch_roll.y as int),
        fx_abs(out.rotation.roll as int) <= fx_abs(max_yaw_pitch_roll.z as int),
{
    if amount > 0 {
        let ox: i64 = channel_value(max_offset.x, amount, r[0]);
        let oy: i64 = channel_value(max_offset.y, amount, r[1]);
        let oz: i64 = channel_value(max_offset.z, amount, r[2]);
        let yaw: i64 = channel_value(max_yaw_pitch_roll.x, amount, r[3]);
        let pitch: i64 = channel_value(max_yaw_pitch_roll.y, amount, r[4]);
        let roll: i64 = channel_value(max_yaw_pitch_roll.z, amount, r[5]);
        ShakeTransform {
            translation: FxVec3 { x: ox, y: oy, z: oz },
            rotation: EulerYxz { yaw, pitch, roll },
        }
    } else {
        proof {
            lemma_fx_mul_zero(max_offset.x as int);
            lemma_fx_mul_zero(max_offset.y as int);
            lemma_fx_mul_zero(max_offset.z as int);
            lemma_fx_mul_zero(max_yaw_pitch_roll.x as int);
            lemma_fx_mul_zero(max_yaw_pitch_roll.y as int);
            lemma_fx_mul_zero(max_yaw_pitch_roll.z as int);
            lemma_fx_mul_zero(r[0] as int);
            lemma_fx_mul_zero(r[1] as int);
            lemma_fx_mul_zero(r[2] as int);
            lemma_fx_mul_zero(r[3] as int);
            lemma_fx_mul_zero(r[4] as int);
            lemma_fx_mul_zero(r[5] as int);
        }
        ShakeTransform::identity()
    }
}

/// One frame of the 3d evaluator.  It removes `decay * dt` trauma
/// (never dropping below zero), raises what remains to the configured
/// power, samples the six random channels at `elapsed`, and overwrites
/// `transform` with the resulting pose; a zero trauma amount writes
/// exactly the identity pose.
pub fn apply_shake_3d<S: RandomSource>(
    shake: &mut Shake3d<S>,
    transform: &mut ShakeTransform,
    elapsed: i64,
    dt: i64,
)
    requires
        old(shake).wf(),
        0 <= dt <= FX_LIMIT,
        decayed_trauma_s(old(shake).trauma as int, old(shake).decay as int, dt as int)
            <= FX_ONE as int,
    ensures
        final(shake).trauma == decayed_trauma_s(
            old(shake).trauma as int,
            old(shake).decay as int,
            dt as int,
        ),
        final(shake).max_offset == old(shake).max_offset,
        final(shake).max_yaw_pitch_roll == old(shake).max_yaw_pitch_roll,
        final(shake).trauma_power == old(shake).trauma_power,
        final(shake).decay == old(shake).decay,
        final(shake).random_sources == old(shake).random_sources,
        final(shake).wf(),
        fx_pow_s(final(shake).trauma as int, old(shake).trauma_power as nat) == 0
            ==> *final(transform) == ShakeTransform::identity_s(),
        exists|r0: int, r1: int, r2: int, r3: int, r4: int, r5: int|
            {
                &&& -(FX_ONE as int) <= r0 <= FX_ONE as int
                &&& -(FX_ONE as int) <= r1 <= FX_ONE as int
                &&& -(FX_ONE as int) <= r2 <= FX_ONE as int
                &&& -(FX_ONE as int) <= r3 <= FX_ONE as int
                &&& -(FX_ONE as int) <= r4 <= FX_ONE as int
                &&& -(FX_ONE as int) <= r5 <= FX_ONE as int
                &&& final(transform).translation.x == channel_value_s(
                    old(shake).max_offset.x as int,
                    fx_pow_s(final(shake).trauma as int, old(shake).trauma_power as nat),
                    r0,
                )
                &&& final(transform).translation.y == channel_value_s(
                    old(shake).max_offset.y as int,
                    fx_pow_s(final(shake).trauma as int, old(shake).trauma_power as nat),
                    r1,
                )
                &&& final(transform).translation.z == channel_value_s(
                    old(shake).max_offset.z as int,
                    fx_pow_s(final(shake).trauma as int, old(shake).trauma_power as nat),
                    r2,
                )
                &&& final(transform).rotation.yaw == channel_value_s(
                    old(shake).max_yaw_pitch_roll.x as int,
                    fx_pow_s(final(shake).trauma as int, old(shake).trauma_power as nat),
                    r3,
                )
                &&& final(transform).rotation.pitch == channel_value_s(
                    old(shake).max_yaw_pitch_roll.y as int,
                    fx_pow_s(final(shake).trauma as int, old(shake).trauma_power as nat),
                    r4,
                )
                &&& final(transform).rotation.roll == channel_value_s(
                    old(shake).max_yaw_pitch_roll.z as int,
                    fx_pow_s(final(shake).trauma as int, old(shake).trauma_power as nat),
                    r5,
                )
            },
        fx_abs(final(transform).translation.x as int) <= fx_abs(old(shake).max_offset.x as int),
        fx_abs(final(transform).translation.y as int) <= fx_abs(old(shake).max_offset.y as int),
        fx_abs(final(transform).translation.z as int) <= fx_abs(old(shake).max_offset.z as int),
        fx_abs(final(transform).rotation.yaw as int) <= fx_abs(
            old(shake).max_yaw_pitch_roll.x as int,
        ),
        fx_abs(final(transform).rotation.pitch as int) <= fx_abs(
            old(shake).max_yaw_pitch_roll.y as int,
        ),
        fx_abs(final(transform).rotation.roll as int) <= fx_abs(
            old(shake).max_yaw_pitch_roll.z as int,
        ),
{
    let new_trauma: i64 = decay_trauma(shake.trauma, shake.decay, dt);
    shake.trauma = new_trauma;
    let amount: i64 = trauma_amount(new_trauma, shake.trauma_power);
    let r: [i64; 6] = [
        shake.random_sources[0].rand(elapsed),
        shake.random_sources[1].rand(elapsed),
        shake.random_sources[2].rand(elapsed),
        shake.random_sources[3].rand(elapsed),
        shake.random_sources[4].rand(elapsed),
        shake.random_sources[5].rand(elapsed),
    ];
    let out: ShakeTransform = shake3d_transform(
        shake.max_offset,
        shake.max_yaw_pitch_roll,
        amount,
        r,
    );
    *transform = out;
    proof {
        assert((*transform).translation.x == channel_value_s(
            old(shake).max_offset.x as int,
            fx_pow_s(shake.trauma as int, old(shake).trauma_power as nat),
            r[0] as int,
        ));
        assert((*transform).translation.y == channel_value_s(
            old(shake).max_offset.y as int,
            fx_pow_s(shake.trauma as int, old(shake).trauma_power as nat),
            r[1] as int,
        ));
        assert((*transform).translation.z == channel_value_s(
            old(shake).max_offset.z as int,
            fx_pow_s(shake.trauma as int, old(shake).trauma_power as nat),
            r[2] as int,
        ));
        assert((*transform).rotation.yaw == channel_value_s(
            old(shake).max_yaw_pitch_roll.x as int,
            fx_pow_s(shake.trauma as int, old(shake).trauma_power as nat),
            r[3] as int,
        ));
        assert((*transform).rotation.pitch == channel_value_s(
            old(shake).max_yaw_pitch_roll.y as int,
            fx_pow_s(shake.trauma as int, old(shake).trauma_power as nat),
            r[4] as int,
        ));
        assert((*transform).rotation.roll == channel_value_s(
            old(shake).max_yaw_pitch_roll.z as int,
            fx_pow_s(shake.trauma as int, old(shake).trauma_power as nat),
            r[5] as int,
        ));
    }
}

} // verus!
