//! Constants of the simulation. Real quantities are given in raw units of
//! [`crate::fixed::Fixed`], of which 1,200,000 make one whole.

use vstd::prelude::*;

verus! {

/// Angular rate of every particle: one radian per second.
pub const ROTATION_STEP: i64 = 1_200_000;

/// Number of particles of the demo.
pub const MAX_PARTICLES: u32 = 1024;

/// Vertical acceleration of gravity: -9.8.
pub const GRAVITY_ACCEL: i64 = -11_760_000;

/// One full turn, in radians.
pub const TWO_PI: i64 = 7_539_822;

/// Simulation rate, in steps per second.
pub const TARGET_FPS: i32 = 120;

/// Duration of one fixed step, in seconds: one second over the simulation
/// rate.
pub const FIXED_STEP: i64 = 10_000;

/// The longest frame time that one update accepts: a quarter of a second,
/// which is thirty fixed steps.
pub const MAX_FRAME_TIME: i64 = 300_000;

/// Mass of a particle per unit of radius: 0.001.
pub const PARTICLE_MASS_MULTIPLIER: i64 = 1_200;

/// Smallest radius of a particle: 16.
pub const MIN_RADIUS: i64 = 19_200_000;

/// Upper bound, not reached, of the radius of a particle: 64.
pub const MAX_RADIUS: i64 = 76_800_000;

/// Number of sprites a particle chooses from.
pub const SPRITE_COUNT: u32 = 3;

} // verus!
