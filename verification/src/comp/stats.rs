//! Tunable numbers and markers of an actor.
use vstd::prelude::*;
use crate::fixed::Fixed;
use crate::timer::Timer;

verus! {

/// How fast an actor gains horizontal speed, and the speed it may reach.
#[derive(Clone, Copy, Debug, PartialEq, Eq, Structural)]
pub struct MovementSpeed {
    /// Speed gained per tick of held input.
    pub accel: Fixed,
    /// Largest horizontal speed.
    pub max: Fixed,
}

/// Upward speed that a jump gives.
#[derive(Clone, Copy, Debug, PartialEq, Eq, Structural)]
pub struct JumpForce(pub Fixed);

/// Whether the actor stands on something.
#[derive(Clone, Copy, Debug, PartialEq, Eq, Structural)]
pub struct Grounded(pub bool);

/// Marks an obstacle that can be slid along and kicked off.
#[derive(Clone, Copy, Debug, PartialEq, Eq, Structural)]
pub struct Wall;

/// Marks an obstacle that can be stood on.
#[derive(Clone, Copy, Debug, PartialEq, Eq, Structural)]
pub struct Ground;

/// The way an actor looks: `1` right, `-1` left.
#[derive(Clone, Copy, Debug, PartialEq, Eq, Structural)]
pub struct Facing(pub i8);

/// Time after which an entity is removed.
#[derive(Clone, Copy, Debug, PartialEq, Eq, Structural)]
pub struct TimeToLive(pub Timer);

/// Time for which an actor may cling to a wall.
#[derive(Clone, Copy, Debug, PartialEq, Eq, Structural)]
pub struct WallStickTimer(pub Timer);

/// Time for which a sprite stays stretched after a jump.
#[derive(Clone, Copy, Debug, PartialEq, Eq, Structural)]
pub struct StretchTimer(pub Timer);

/// Time until the next piece of furniture comes.
#[derive(Clone, Copy, Debug, PartialEq, Eq, Structural)]
pub struct SpawnTimer(pub Timer);

} // verus!
