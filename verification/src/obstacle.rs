//! The solid things of a level, as the resolver sees them each tick.
use vstd::prelude::*;
use crate::collide_aabb::left_edge;
use crate::collide_aabb::right_edge;
use crate::collide_aabb::spec_collide;
use crate::collide_aabb::top_edge;
use crate::collide_aabb::Collision;
use crate::comp::physics::ColliderBox;
use crate::comp::physics::Velocity;
use crate::fixed::Fixed;
use crate::tuning::GROUND_PROBE;
use crate::vec2::Vec2;

verus! {

/// What an obstacle is for.
#[derive(Clone, Copy, Debug, PartialEq, Eq, Structural)]
pub enum ObstacleKind {
    /// A surface to stand on.
    Ground,
    /// A surface to stand on that can also be slid along and kicked off.
    Wall,
}

/// Why an obstacle was not accepted.
#[derive(Clone, Copy, Debug, PartialEq, Eq, Structural)]
pub enum ConfigError {
    /// The width is zero or negative.
    NonPositiveWidth,
    /// The height is zero or negative.
    NonPositiveHeight,
}

/// A box in the level, with the velocity it moves at.
#[derive(Clone, Copy, Debug, PartialEq, Eq, Structural)]
pub struct Obstacle {
    /// Centre of the box.
    pub position: Vec2,
    /// Extents of the box.
    pub collider: ColliderBox,
    /// Velocity of the box; zero for a static obstacle.
    pub velocity: Velocity,
    /// What the box is for.
    pub kind: ObstacleKind,
}

impl Obstacle {
    /// Registers an obstacle. A box without positive width and height is
    /// refused; the width is looked at first.
    pub fn new(position: Vec2, collider: ColliderBox, velocity: Velocity, kind: ObstacleKind) -> (r:
        Result<Obstacle, ConfigError>)
        ensures
            collider.w@ <= 0 ==> r == Err::<Obstacle, ConfigError>(ConfigError::NonPositiveWidth),
            collider.w@ > 0 && collider.h@ <= 0 ==> r == Err::<Obstacle, ConfigError>(
                ConfigError::NonPositiveHeight,
            ),
            collider.is_solid() ==> r == Ok::<Obstacle, ConfigError>(
                Obstacle { position, collider, velocity, kind },
            ),
    {
        if collider.w.raw <= 0 {
            Err(ConfigError::NonPositiveWidth)
        } else if collider.h.raw <= 0 {
            Err(ConfigError::NonPositiveHeight)
        } else {
            Ok(Obstacle { position, collider, velocity, kind })
        }
    }

    /// Top edge of the box, in thousandths.
    pub open spec fn top(&self) -> int {
        top_edge(self.position, self.collider.get_size())
    }

    /// Left edge of the box, in thousandths.
    pub open spec fn left(&self) -> int {
        left_edge(self.position, self.collider.get_size())
    }

    /// Right edge of the box, in thousandths.
    pub open spec fn right(&self) -> int {
        right_edge(self.position, self.collider.get_size())
    }

    /// Top edge of the box.
    pub fn top_wide(&self) -> (t: i128)
        ensures
            t == self.top(),
            -0x1_0000_0000_0000_0000 <= t <= 0x1_0000_0000_0000_0000,
    {
        self.position.y.wide() + self.collider.h.half().wide()
    }

    /// Left edge of the box.
    pub fn left_wide(&self) -> (t: i128)
        ensures
            t == self.left(),
            -0x1_0000_0000_0000_0000 <= t <= 0x1_0000_0000_0000_0000,
    {
        self.position.x.wide() - self.collider.w.half().wide()
    }

    /// Right edge of the box.
    pub fn right_wide(&self) -> (t: i128)
        ensures
            t == self.right(),
            -0x1_0000_0000_0000_0000 <= t <= 0x1_0000_0000_0000_0000,
    {
        self.position.x.wide() + self.collider.w.half().wide()
    }
}

/// Where an actor's box is tested: its position, moved down by the ground
/// probe so that an actor resting just above a surface still meets it.
pub open spec fn spec_probe_position(position: Vec2) -> Vec2 {
    Vec2 { x: position.x, y: position.y.minus(Fixed { raw: GROUND_PROBE }) }
}

/// Where an actor's box is tested against obstacles.
#[verifier::when_used_as_spec(spec_probe_position)]
pub fn probe_position(position: Vec2) -> (probe: Vec2)
    ensures
        probe == spec_probe_position(position),
{
    Vec2 { x: position.x, y: position.y.minus(Fixed { raw: GROUND_PROBE }) }
}

/// The side of an actor's probed box that the obstacle lies on; `None` for
/// an obstacle without positive extents, and where the boxes do not overlap.
pub open spec fn contact_side(position: Vec2, size: Vec2, obstacle: Obstacle) -> Option<Collision> {
    if obstacle.collider.is_solid() {
        spec_collide(obstacle.position, obstacle.collider.get_size(), probe_position(position), size)
    } else {
        None
    }
}

} // verus!
