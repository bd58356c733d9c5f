//! Tests for the shake evaluators, the random sources and the stock
//! configurations.

use camera_shake::apply_shake_2d;
use camera_shake::apply_shake_3d;
use camera_shake::shake2d_transform;
use camera_shake::shake3d_transform;
use camera_shake::ConstantSource;
use camera_shake::EulerYxz;
use camera_shake::FxVec2;
use camera_shake::FxVec3;
use camera_shake::NotRandom;
use camera_shake::RandomSource;
use camera_shake::Shake2d;
use camera_shake::Shake3d;
use camera_shake::ShakeTransform;
use camera_shake::FX_ONE;

fn constant_2d(trauma: i64, trauma_power: u32, decay: i64, value: i64) -> Shake2d<ConstantSource> {
    Shake2d {
        max_offset: FxVec2 { x: 100 * FX_ONE, y: 100 * FX_ONE },
        max_roll: 100_000,
        trauma,
        trauma_power,
        decay,
        random_sources: [
            ConstantSource { value },
            ConstantSource { value },
            ConstantSource { value },
        ],
    }
}

fn messy_transform() -> ShakeTransform {
    ShakeTransform {
        translation: FxVec3 { x: 7, y: -8, z: 9 },
        rotation: EulerYxz { yaw: 1, pitch: 2, roll: 3 },
    }
}

#[test]
fn not_random_returns_half() {
    assert_eq!(NotRandom.rand(0), 500_000);
    assert_eq!(NotRandom.rand(-3_000_000), 500_000);
}

#[test]
fn constant_source_clamps() {
    assert_eq!(ConstantSource { value: 5_000_000 }.rand(0), 1_000_000);
    assert_eq!(ConstantSource { value: -2_000_000 }.rand(17), -1_000_000);
    assert_eq!(ConstantSource { value: 123_456 }.rand(9), 123_456);
    assert_eq!(ConstantSource { value: -1_000_000 }.rand(9), -1_000_000);
}

#[test]
fn default_shake2d_fields() {
    let s: Shake2d<NotRandom> = Shake2d::default();
    assert_eq!(s.max_offset, FxVec2 { x: 100_000_000, y: 100_000_000 });
    assert_eq!(s.max_roll, 100_000);
    assert_eq!(s.trauma, 0);
    assert_eq!(s.trauma_power, 2);
    assert_eq!(s.decay, 800_000);
}

#[test]
fn default_shake3d_fields() {
    let s: Shake3d<NotRandom> = Shake3d::default();
    assert_eq!(s.max_offset, FxVec3 { x: 0, y: 0, z: 0 });
    assert_eq!(s.max_yaw_pitch_roll, FxVec3 { x: 100_000, y: 100_000, z: 100_000 });
    assert_eq!(s.trauma, 0);
    assert_eq!(s.trauma_power, 2);
    assert_eq!(s.decay, 800_000);
}

#[test]
fn identity_pose_is_all_zero() {
    let t = ShakeTransform::identity();
    assert_eq!(t.translation, FxVec3 { x: 0, y: 0, z: 0 });
    assert_eq!(t.rotation, EulerYxz { yaw: 0, pitch: 0, roll: 0 });
}

#[test]
fn transform_2d_exact_channel_values() {
    // max 100.0, amount 0.04, random 0.5: offset 2.0 exactly.
    let out = shake2d_transform(
        FxVec2 { x: 100_000_000, y: 100_000_000 },
        100_000,
        40_000,
        500_000,
        500_000,
        500_000,
    );
    assert_eq!(out.translation, FxVec3 { x: 2_000_000, y: 2_000_000, z: 0 });
    assert_eq!(out.rotation.yaw, 0);
    assert_eq!(out.rotation.pitch, 0);
    // max roll 0.1, amount 0.04, random 0.5: roll 0.002 exactly.
    assert_eq!(out.rotation.roll, 2_000);
}

#[test]
fn transform_2d_full_amount_full_random_hits_maxima() {
    // Amount one and every channel at one reproduce the maxima exactly.
    let out = shake2d_transform(
        FxVec2 { x: 123_456_789, y: -987_654 },
        424_242,
        FX_ONE,
        FX_ONE,
        FX_ONE,
        FX_ONE,
    );
    assert_eq!(out.translation, FxVec3 { x: 123_456_789, y: -987_654, z: 0 });
    assert_eq!(out.rotation.roll, 424_242);
}

#[test]
fn transform_2d_zero_amount_is_identity() {
    let out = shake2d_transform(
        FxVec2 { x: 100_000_000, y: 100_000_000 },
        100_000,
        0,
        FX_ONE,
        -FX_ONE,
        FX_ONE,
    );
    assert_eq!(out, ShakeTransform::identity());
}

#[test]
fn apply_2d_standard_frame() {
    // trauma 1.0, decay 0.8, dt 1.0, power 2, channels at 1.0:
    // trauma decays to 0.2, the amount is 0.04, and the offsets are the
    // maxima scaled by 0.04.
    let mut shake = constant_2d(FX_ONE, 2, 800_000, FX_ONE);
    let mut out = messy_transform();
    apply_shake_2d(&mut shake, &mut out, 0, FX_ONE);
    assert_eq!(shake.trauma, 200_000);
    assert_eq!(out.translation, FxVec3 { x: 4_000_000, y: 4_000_000, z: 0 });
    assert_eq!(out.rotation, EulerYxz { yaw: 0, pitch: 0, roll: 4_000 });
}

#[test]
fn apply_2d_decayed_out_writes_identity() {
    // trauma 0.5, decay 1.0, dt 1.0: trauma hits zero and the pose it
    // writes is exactly the identity, replacing whatever was there.
    let mut shake = constant_2d(500_000, 2, FX_ONE, FX_ONE);
    let mut out = messy_transform();
    apply_shake_2d(&mut shake, &mut out, 123, FX_ONE);
    assert_eq!(shake.trauma, 0);
    assert_eq!(out, ShakeTransform::identity());
}

#[test]
fn apply_2d_zero_trauma_ignores_channels() {
    let mut shake = constant_2d(0, 2, 800_000, FX_ONE);
    let mut out = messy_transform();
    apply_shake_2d(&mut shake, &mut out, 55, 16_667);
    assert_eq!(shake.trauma, 0);
    assert_eq!(out, ShakeTransform::identity());
}

#[test]
fn apply_2d_negative_decay_grows_trauma() {
    let mut shake = constant_2d(100_000, 1, -100_000, 0);
    let mut out = ShakeTransform::identity();
    apply_shake_2d(&mut shake, &mut out, 0, FX_ONE);
    assert_eq!(shake.trauma, 200_000);
}

#[test]
fn apply_2d_zero_decay_is_steady() {
    // With decay zero and constant channels, every frame leaves the
    // trauma alone and writes the same pose.
    let mut shake = constant_2d(400_000, 2, 0, 300_000);
    let mut first = ShakeTransform::identity();
    apply_shake_2d(&mut shake, &mut first, 0, FX_ONE);
    assert_eq!(shake.trauma, 400_000);
    assert_eq!(first.translation, FxVec3 { x: 4_800_000, y: 4_800_000, z: 0 });
    assert_eq!(first.rotation, EulerYxz { yaw: 0, pitch: 0, roll: 4_800 });
    let mut second = messy_transform();
    for _ in 0..5 {
        apply_shake_2d(&mut shake, &mut second, 9_000_000, 250_000);
        assert_eq!(shake.trauma, 400_000);
        assert_eq!(second, first);
    }
}

#[test]
fn apply_2d_not_random_uses_half() {
    // The fallback source pins every channel at 0.5.
    let mut shake: Shake2d<NotRandom> = Shake2d::default();
    shake.trauma = FX_ONE;
    let mut out = ShakeTransform::identity();
    apply_shake_2d(&mut shake, &mut out, 0, 0);
    assert_eq!(shake.trauma, FX_ONE);
    assert_eq!(out.translation, FxVec3 { x: 50_000_000, y: 50_000_000, z: 0 });
    assert_eq!(out.rotation, EulerYxz { yaw: 0, pitch: 0, roll: 50_000 });
}

#[test]
fn apply_2d_power_zero_keeps_full_amount() {
    // The zeroth power of any trauma is one, so even zero trauma shakes
    // at full strength under a zero power.
    let mut shake = constant_2d(0, 0, 0, 500_000);
    let mut out = ShakeTransform::identity();
    apply_shake_2d(&mut shake, &mut out, 0, FX_ONE);
    assert_eq!(shake.trauma, 0);
    assert_eq!(out.translation, FxVec3 { x: 50_000_000, y: 50_000_000, z: 0 });
    assert_eq!(out.rotation, EulerYxz { yaw: 0, pitch: 0, roll: 50_000 });
}

#[test]
fn transform_3d_zero_amount_is_identity() {
    let out = shake3d_transform(
        FxVec3 { x: 1_000_000, y: 2_000_000, z: 3_000_000 },
        FxVec3 { x: 100_000, y: 200_000, z: 300_000 },
        0,
        [FX_ONE, FX_ONE, FX_ONE, -FX_ONE, -FX_ONE, -FX_ONE],
    );
    assert_eq!(out, ShakeTransform::identity());
}

#[test]
fn transform_3d_channel_order() {
    // The first three channels drive XYZ, the last three yaw, pitch and
    // roll, in that order.
    let out = shake3d_transform(
        FxVec3 { x: 1_000_000, y: 2_000_000, z: 3_000_000 },
        FxVec3 { x: 100_000, y: 200_000, z: 300_000 },
        FX_ONE,
        [FX_ONE, 0, 0, -FX_ONE, 0, 500_000],
    );
    assert_eq!(out.translation, FxVec3 { x: 1_000_000, y: 0, z: 0 });
    assert_eq!(out.rotation, EulerYxz { yaw: -100_000, pitch: 0, roll: 150_000 });
}

#[test]
fn apply_3d_standard_frame() {
    let mut shake = Shake3d {
        max_offset: FxVec3 { x: 1_000_000, y: 2_000_000, z: 3_000_000 },
        max_yaw_pitch_roll: FxVec3 { x: 100_000, y: 200_000, z: 300_000 },
        trauma: FX_ONE,
        trauma_power: 2,
        decay: 800_000,
        random_sources: [
            ConstantSource { value: FX_ONE },
            ConstantSource { value: FX_ONE },
            ConstantSource { value: FX_ONE },
            ConstantSource { value: FX_ONE },
            ConstantSource { value: FX_ONE },
            ConstantSource { value: FX_ONE },
        ],
    };
    let mut out = messy_transform();
    apply_shake_3d(&mut shake, &mut out, 42, FX_ONE);
    assert_eq!(shake.trauma, 200_000);
    assert_eq!(out.translation, FxVec3 { x: 40_000, y: 80_000, z: 120_000 });
    assert_eq!(out.rotation, EulerYxz { yaw: 4_000, pitch: 8_000, roll: 12_000 });
}

#[test]
fn apply_3d_negative_channels_negate_the_pose() {
    let mut shake = Shake3d {
        max_offset: FxVec3 { x: 1_000_000, y: 2_000_000, z: 3_000_000 },
        max_yaw_pitch_roll: FxVec3 { x: 100_000, y: 200_000, z: 300_000 },
        trauma: FX_ONE,
        trauma_power: 3,
        decay: 0,
        random_sources: [
            ConstantSource { value: -FX_ONE },
            ConstantSource { value: -FX_ONE },
            ConstantSource { value: -FX_ONE },
            ConstantSource { value: -FX_ONE },
            ConstantSource { value: -FX_ONE },
            ConstantSource { value: -FX_ONE },
        ],
    };
    let mut out = ShakeTransform::identity();
    apply_shake_3d(&mut shake, &mut out, 0, 500_000);
    assert_eq!(shake.trauma, FX_ONE);
    assert_eq!(out.translation, FxVec3 { x: -1_000_000, y: -2_000_000, z: -3_000_000 });
    assert_eq!(out.rotation, EulerYxz { yaw: -100_000, pitch: -200_000, roll: -300_000 });
}
