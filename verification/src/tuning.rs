//! The constants of the movement model, in thousandths unless said otherwise.
use vstd::prelude::*;

verus! {

/// Jumps an actor may chain before it has to touch ground or kick off a wall.
pub const TOTAL_NUMBER_OF_JUMPS: usize = 2;

/// While falling, gravity counts this many times (2.5).
pub const FALL_MULTIPLIER: i64 = 2500;

/// While rising with the jump button released, gravity counts this many times (2.0).
pub const LOW_JUMP_MULTIPLIER: i64 = 2000;

/// Gap left between an actor and the surface it is snapped to (0.1).
pub const SNAP_EPSILON: i64 = 100;

/// How far below its true place an actor's box is tested against obstacles (0.2).
pub const GROUND_PROBE: i64 = 200;

/// How far an actor is lifted when it jumps off the ground (0.2).
pub const JUMP_NUDGE: i64 = 200;

/// How far an actor is pushed away from the wall it kicks off (4.0).
pub const WALL_NUDGE: i64 = 4000;

/// A jump's upward speed is the jump force times this (20.0).
pub const JUMP_SCALE: i64 = 20000;

/// Share of the full jump speed that a jump made in the air gets (0.7).
pub const AIR_JUMP_ADJUSTER: i64 = 700;

/// A wall jump's speed is the jump force times this, per unit of direction (10.0).
pub const WALL_JUMP_SCALE: i64 = 10000;

/// Vertical component of the direction of a wall jump (3.0).
pub const WALL_JUMP_LIFT: i64 = 3000;

/// Upward speed while climbing a wall (64.0).
pub const CLIMB_UP_SPEED: i64 = 64000;

/// Downward speed while sliding down a wall on purpose (84.0).
pub const CLIMB_DOWN_SPEED: i64 = 84000;

/// Width of the screen where no window tells otherwise (800.0).
pub const SCR_WIDTH: i64 = 800000;

/// Height of the screen where no window tells otherwise (600.0).
pub const SCR_HEIGHT: i64 = 600000;

/// How far below a surface an actor's feet may be for the surface to be
/// stepped onto (10.0).
pub const STEP_HEIGHT: i64 = 10000;

/// How far below the top of an obstacle that it meets sideways an actor's
/// feet may be for the actor to count as standing on it (2.0).
pub const EDGE_TOLERANCE: i64 = 2000;

} // verus!
