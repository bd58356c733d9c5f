//! Trauma-driven procedural camera shake.
//!
//! A shake configuration holds a scalar `trauma` in the unit interval that
//! decays every frame; the shake intensity is `trauma` raised to a
//! configurable power, and the per-frame offset and rotation are the
//! configured maxima scaled by that intensity and by independent random
//! channels.  All values are fixed-point numbers with six fractional
//! decimal digits, so every step of the evaluators carries an exact
//! arithmetic contract.

use vstd::prelude::*;

pub mod channel;
pub mod fixed;
pub mod random;
pub mod shake2d;
pub mod shake3d;
pub mod transform;
pub mod trauma;

pub use fixed::FX_LIMIT;
pub use fixed::FX_ONE;
pub use random::ConstantSource;
pub use random::NotRandom;
pub use random::RandomSource;
pub use shake2d::apply_shake_2d;
pub use shake2d::shake2d_transform;
pub use shake2d::Shake2d;
pub use shake3d::apply_shake_3d;
pub use shake3d::shake3d_transform;
pub use shake3d::Shake3d;
pub use transform::EulerYxz;
pub use transform::FxVec2;
pub use transform::FxVec3;
pub use transform::ShakeTransform;
pub use trauma::decay_trauma;
pub use trauma::trauma_amount;

verus! {

/// Identifies the camera-shake add-on to a host engine.  Registration is
/// host glue: a host schedules the two per-frame evaluators,
/// `apply_shake_2d` and `apply_shake_3d`, for every entity that carries a
/// shake configuration next to a transform.
pub struct CameraShakePlugin;

} // verus!
