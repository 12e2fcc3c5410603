//! Defaults and fixed parameters of the snowfall, in millionths.

use vstd::prelude::*;

verus! {

// Particles
pub const DEFAULT_PARTICLE_COUNT: u32 = 130_000;

pub const DEFAULT_GRAVITY: i64 = 6_000_000;

pub const DEFAULT_DEPTH: i64 = 110_000_000;

pub const DEFAULT_MIN_SIZE: i64 = 3_000_000;

pub const DEFAULT_MIN_ALPHA: i64 = 500_000;

pub const DEFAULT_SPEED_X: i64 = 200_000;

pub const DEFAULT_SPEED_Y: i64 = 600_000;

pub const DEFAULT_DIRECTION_X: i64 = 1_000_000;

pub const DEFAULT_DIRECTION_Y: i64 = 1_000_000;

pub const DEFAULT_ROTATION_SPEED: i64 = 1_700_000;

/// Half-extents in the span of an axis.
pub const SPAN_FACTOR: i64 = 2_000_000;

// Spread that a draw adds to a particle's attributes
pub const SPEED_X_SPREAD: i64 = 400_000;

pub const SPEED_Y_SPREAD: i64 = 500_000;

pub const SPEED_Z_SPREAD: i64 = 2_000_000;

/// A full turn, two pi, rounded down.
pub const FULL_TURN: i64 = 6_283_185;

pub const ANGULAR_RATE_SPREAD: i64 = 5_000_000;

pub const SWING_SPREAD: i64 = 3_000_000;

pub const SIZE_SPREAD: i64 = 4_500_000;

// Motion
/// World units that every particle drifts sideways in a second.
pub const DRIFT_RATE: i64 = 500_000;

/// The share of swing speed times rotation speed that turns the swing.
pub const OSCILLATION_RATE: i64 = 300_000;

/// The share of angular rate times rotation speed that turns the sprite.
pub const ROTATION_RATE: i64 = 100_000;

// Wind
pub const WIND_FORCE_INITIAL: i64 = 90_000;

pub const WIND_TARGET_INITIAL: i64 = 50_000;

pub const WIND_MIN: i64 = 50_000;

pub const WIND_MAX: i64 = 150_000;

pub const WIND_EASING: i64 = 3_000;

/// A draw above this brings a new wind target.
pub const GUST_THRESHOLD: u32 = 990_000;

/// A draw above this turns the new wind target positive.
pub const SIGN_THRESHOLD: u32 = 500_000;

/// The share of the wind force that a second adds to the wind.
pub const WIND_GAIN: i64 = 500_000;

// Camera
/// The field of view, in degrees.
pub const FOV_DEGREES: i64 = 45_000_000;

/// The cotangent of half the field of view of `FOV_DEGREES`, which is one
/// plus the square root of two, rounded down.
pub const FOCAL_LENGTH: i64 = 2_414_213;

/// The projection's entry that hands the depth, negated, to the fourth clip
/// coordinate.
pub const DEPTH_TO_W: i64 = -1_000_000;

pub const NEAR_PLANE: i64 = 100_000;

pub const FAR_PLANE: i64 = 200_000_000;

pub const WORLD_HEIGHT: i64 = 110_000_000;

/// Point size in device pixels per pixel of canvas height.
pub const POINT_SCALE_FACTOR: i64 = 15_000;

// Clock
/// Seconds in a millisecond.
pub const SECONDS_PER_MILLISECOND: i64 = 1_000;

/// Length of the window over which frames are counted, in milliseconds.
pub const FPS_WINDOW: i64 = 1_000_000_000;

/// `FOCAL_LENGTH` is one plus the square root of two to six places: its
/// fraction squared is the last square of millionths below two.
pub proof fn focal_length_brackets_root()
    ensures
        (FOCAL_LENGTH - 1_000_000) * (FOCAL_LENGTH - 1_000_000) < 2 * 1_000_000 * 1_000_000,
        2 * 1_000_000 * 1_000_000 < (FOCAL_LENGTH - 999_999) * (FOCAL_LENGTH - 999_999),
{
}

} // verus!
