//! The messages that the steps of a tick pass to each other.
use vstd::prelude::*;
use crate::collide_aabb::Collision;
use crate::comp::physics::Velocity;
use crate::furniture::Rgb;
use crate::vec2::Vec2;

verus! {

/// The actor's probed box met an obstacle.
#[derive(Clone, Copy, Debug, PartialEq, Eq, Structural)]
pub struct GroundCollisionEvent {
    /// The side of the actor on which the obstacle lies.
    pub hit_collision: Collision,
    /// Centre of the obstacle.
    pub hit_transform: Vec2,
    /// Extents of the obstacle.
    pub hit_size: Vec2,
    /// Velocity of the obstacle.
    pub hit_velocity: Velocity,
}

/// A request to fire a projectile.
#[derive(Clone, Copy, Debug, PartialEq, Eq, Structural)]
pub struct ShootEvent;

/// A request to jump.
#[derive(Clone, Copy, Debug, PartialEq, Eq, Structural)]
pub struct JumpEvent;

/// A request to kick off a wall.
#[derive(Clone, Copy, Debug, PartialEq, Eq, Structural)]
pub struct WallJumpEvent;

/// The colours of the game.
#[derive(Clone, Copy, Debug, PartialEq, Eq, Structural)]
pub struct Colors;

impl Colors {
    /// The colour of water.
    pub fn water() -> (c: Rgb)
        ensures
            c == (Rgb { r: 212, g: 241, b: 249 }),
    {
        Rgb { r: 212, g: 241, b: 249 }
    }

    /// The colour of lava.
    pub fn lava() -> (c: Rgb)
        ensures
            c == (Rgb { r: 207, g: 16, b: 32 }),
    {
        Rgb { r: 207, g: 16, b: 32 }
    }

    /// The colour of lava at its hottest.
    pub fn intense_lava() -> (c: Rgb)
        ensures
            c == (Rgb { r: 238, g: 18, b: 66 }),
    {
        Rgb { r: 238, g: 18, b: 66 }
    }

    /// The colour of linen, for dust.
    pub fn linen() -> (c: Rgb)
        ensures
            c == (Rgb { r: 246, g: 242, b: 237 }),
    {
        Rgb { r: 246, g: 242, b: 237 }
    }
}

} // verus!
