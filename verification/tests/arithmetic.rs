//! Tests for the fixed-point arithmetic and the trauma computations.

use camera_shake::decay_trauma;
use camera_shake::fixed::fx_mul;
use camera_shake::trauma_amount;
use camera_shake::FX_ONE;

#[test]
fn fx_mul_exact_products() {
    assert_eq!(fx_mul(1_500_000, 500_000), 750_000);
    assert_eq!(fx_mul(-1_500_000, 500_000), -750_000);
    assert_eq!(fx_mul(1_500_000, -500_000), -750_000);
    assert_eq!(fx_mul(-1_500_000, -500_000), 750_000);
    assert_eq!(fx_mul(100_000_000, FX_ONE), 100_000_000);
    assert_eq!(fx_mul(0, 123_456), 0);
}

#[test]
fn fx_mul_truncates_toward_zero() {
    assert_eq!(fx_mul(1, 1), 0);
    assert_eq!(fx_mul(999_999, 1), 0);
    assert_eq!(fx_mul(-1, 999_999), 0);
    assert_eq!(fx_mul(1_999_999, 1), 1);
    assert_eq!(fx_mul(-1_999_999, 1), -1);
}

#[test]
fn decay_scenario_standard() {
    // trauma 1.0, decay 0.8, dt 1.0 leaves trauma 0.2.
    assert_eq!(decay_trauma(1_000_000, 800_000, 1_000_000), 200_000);
}

#[test]
fn decay_scenario_to_zero() {
    // trauma 0.5, decay 1.0, dt 1.0 clamps at zero.
    assert_eq!(decay_trauma(500_000, 1_000_000, 1_000_000), 0);
}

#[test]
fn decay_scenario_negative_rate_grows() {
    // trauma 0.1, decay -0.1, dt 1.0 grows to 0.2: nothing clamps above.
    assert_eq!(decay_trauma(100_000, -100_000, 1_000_000), 200_000);
}

#[test]
fn decay_zero_rate_keeps_trauma() {
    assert_eq!(decay_trauma(400_000, 0, 7_000_000), 400_000);
}

#[test]
fn decay_zero_dt_keeps_trauma() {
    assert_eq!(decay_trauma(400_000, 800_000, 0), 400_000);
}

#[test]
fn decay_never_negative_and_never_grows_for_nonnegative_rate() {
    let traumas: [i64; 4] = [0, 1, 437_211, 1_000_000];
    let decays: [i64; 4] = [0, 250_000, 1_000_000, 3_000_000];
    let dts: [i64; 4] = [0, 16_667, 1_000_000, 2_500_000];
    for &t in traumas.iter() {
        for &d in decays.iter() {
            for &dt in dts.iter() {
                let r: i64 = decay_trauma(t, d, dt);
                assert!(0 <= r && r <= t);
            }
        }
    }
}

#[test]
fn decay_product_truncates_toward_zero() {
    // 0.333333 * 0.5 is 0.1666665; the removed trauma truncates to
    // 0.166666, so 0.833334 remains.
    assert_eq!(decay_trauma(1_000_000, 333_333, 500_000), 833_334);
}

#[test]
fn amount_scenario_standard() {
    // trauma 0.2 with power 2 gives amount 0.04.
    assert_eq!(trauma_amount(200_000, 2), 40_000);
}

#[test]
fn amount_power_shapes() {
    assert_eq!(trauma_amount(400_000, 1), 400_000);
    assert_eq!(trauma_amount(400_000, 2), 160_000);
    assert_eq!(trauma_amount(400_000, 3), 64_000);
    assert_eq!(trauma_amount(1_000_000, 5), 1_000_000);
    assert_eq!(trauma_amount(700_000, 0), FX_ONE);
}

#[test]
fn amount_zero_trauma_is_zero() {
    assert_eq!(trauma_amount(0, 1), 0);
    assert_eq!(trauma_amount(0, 2), 0);
    assert_eq!(trauma_amount(0, 3), 0);
}

#[test]
fn amount_monotonic_in_trauma() {
    let samples: [i64; 6] = [0, 100_000, 300_000, 600_000, 900_000, 1_000_000];
    for p in 1u32..4 {
        for w in samples.windows(2) {
            assert!(trauma_amount(w[0], p) <= trauma_amount(w[1], p));
        }
    }
}
