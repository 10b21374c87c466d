//! Kinematic state, collider boxes, contact flags and probes.
use vstd::prelude::*;
use crate::fixed::Fixed;
use crate::fixed::SCALE;
use crate::vec2::Vec2;

verus! {

/// Displacement per second.
#[derive(Clone, Copy, Debug, PartialEq, Eq, Structural)]
pub struct Velocity(pub Vec2);

impl Velocity {
    /// The velocity `(x, y)`.
    pub fn new(x: Fixed, y: Fixed) -> (v: Velocity)
        ensures
            v.0.x == x,
            v.0.y == y,
    {
        Velocity(Vec2 { x, y })
    }
}

impl Default for Velocity {
    /// At rest.
    fn default() -> (v: Velocity)
        ensures
            v.0@ == (0int, 0int),
    {
        Velocity(Vec2::zero())
    }
}

/// How strongly a body's velocity decays, per second.
#[derive(Clone, Copy, Debug, PartialEq, Eq, Structural)]
pub struct Drag(pub Fixed);

impl Default for Drag {
    /// No decay.
    fn default() -> (d: Drag)
        ensures
            d.0@ == 0,
    {
        Drag(Fixed::zero())
    }
}

/// Downward acceleration, in units per second squared.
#[derive(Clone, Copy, Debug, PartialEq, Eq, Structural)]
pub struct Gravity(pub Fixed);

/// Whether gravity pulls on a body at the moment.
#[derive(Clone, Copy, Debug, PartialEq, Eq, Structural)]
pub struct GravitationalAttraction {
    /// Gravity is applied this tick.
    pub is_active: bool,
}

impl Default for GravitationalAttraction {
    /// Gravity pulls until something switches it off.
    fn default() -> (a: GravitationalAttraction)
        ensures
            a.is_active,
    {
        GravitationalAttraction { is_active: true }
    }
}

/// An axis-aligned box around an entity's position.
#[derive(Clone, Copy, Debug, PartialEq, Eq, Structural)]
pub struct ColliderBox {
    /// Full width.
    pub w: Fixed,
    /// Full height.
    pub h: Fixed,
}

impl ColliderBox {
    /// Width and height as a vector, as a value.
    pub open spec fn spec_get_size(&self) -> Vec2 {
        Vec2 { x: self.w, y: self.h }
    }

    /// Width and height as a vector.
    #[verifier::when_used_as_spec(spec_get_size)]
    pub fn get_size(&self) -> (size: Vec2)
        ensures
            size == self.spec_get_size(),
    {
        Vec2 { x: self.w, y: self.h }
    }

    /// Both extents are positive.
    pub open spec fn spec_is_solid(&self) -> bool {
        self.w@ > 0 && self.h@ > 0
    }

    /// Tells whether both extents are positive.
    #[verifier::when_used_as_spec(spec_is_solid)]
    pub fn is_solid(&self) -> (solid: bool)
        ensures
            solid == self.spec_is_solid(),
    {
        self.w.raw > 0 && self.h.raw > 0
    }
}

impl Default for ColliderBox {
    /// The empty box.
    fn default() -> (b: ColliderBox)
        ensures
            b.w@ == 0,
            b.h@ == 0,
    {
        ColliderBox { w: Fixed::zero(), h: Fixed::zero() }
    }
}

/// Position, velocity and the two switches of the integrator.
#[derive(Clone, Copy, Debug, PartialEq, Eq, Structural)]
pub struct Body {
    /// Centre of the body.
    pub position: Vec2,
    /// Current velocity.
    pub velocity: Velocity,
    /// Decay of the velocity.
    pub drag: Drag,
    /// Whether gravity pulls.
    pub attraction: GravitationalAttraction,
}

impl Body {
    /// A body at `position`, at rest, without drag, with gravity on.
    pub fn new(position: Vec2) -> (body: Body)
        ensures
            body.position == position,
            body.velocity.0@ == (0int, 0int),
            body.drag.0@ == 0,
            body.attraction.is_active,
    {
        Body {
            position,
            velocity: Velocity(Vec2::zero()),
            drag: Drag(Fixed::zero()),
            attraction: GravitationalAttraction { is_active: true },
        }
    }
}

/// What an actor touches, and which way it looks.
#[derive(Clone, Copy, Debug, PartialEq, Eq, Structural)]
pub struct CollisionData {
    /// An obstacle is pressed against the left side.
    pub left: bool,
    /// An obstacle is pressed against the right side.
    pub right: bool,
    /// An obstacle is overhead.
    pub above: bool,
    /// The actor stands on an obstacle.
    pub below: bool,
    /// The wall probe reaches a wall.
    pub touching_wall: bool,
    /// `1` looking right, `-1` looking left.
    pub facing_direction: i8,
    /// The actor stood on an obstacle when contacts were last resolved.
    pub prev_below: bool,
    /// The actor kicked off a wall and has not landed since.
    pub is_wall_jumping: bool,
}

impl CollisionData {
    /// A wall is pressed against either side, as a value.
    pub open spec fn spec_either_side(&self) -> bool {
        self.left || self.right
    }

    /// Tells whether a wall is pressed against either side.
    #[verifier::when_used_as_spec(spec_either_side)]
    pub fn either_side(&self) -> (hit: bool)
        ensures
            hit == self.spec_either_side(),
    {
        self.left || self.right
    }

    /// Tells whether a wall is pressed against either side.
    pub fn either_side_collision(&self) -> (hit: bool)
        ensures
            hit == self.either_side(),
    {
        self.either_side()
    }

    /// The contact state with the four directional flags cleared.
    pub open spec fn cleared(self) -> CollisionData {
        CollisionData { left: false, right: false, above: false, below: false, ..self }
    }

    /// Clears the four directional flags. The facing direction and what is
    /// carried from tick to tick stay.
    pub fn reset(&mut self)
        ensures
            *final(self) == old(self).cleared(),
    {
        self.left = false;
        self.right = false;
        self.above = false;
        self.below = false;
    }

    /// The facing direction is one of the two it can be.
    pub open spec fn wf(&self) -> bool {
        self.facing_direction == 1 || self.facing_direction == -1
    }
}

impl Default for CollisionData {
    /// Nothing touched, looking right.
    fn default() -> (data: CollisionData)
        ensures
            data == (CollisionData {
                left: false,
                right: false,
                above: false,
                below: false,
                touching_wall: false,
                facing_direction: 1,
                prev_below: false,
                is_wall_jumping: false,
            }),
    {
        CollisionData {
            left: false,
            right: false,
            above: false,
            below: false,
            touching_wall: false,
            facing_direction: 1,
            prev_below: false,
            is_wall_jumping: false,
        }
    }
}

/// One of the four axis directions.
#[derive(Clone, Copy, Debug, PartialEq, Eq, Structural)]
pub enum Direction {
    /// Toward negative `x`.
    Left,
    /// Toward positive `x`.
    Right,
    /// Toward positive `y`.
    Up,
    /// Toward negative `y`.
    Down,
}

impl Direction {
    /// The direction of a unit vector, as a value; `Down` for every other
    /// vector.
    pub open spec fn spec_into_direction(dir: Vec2) -> Direction {
        if dir@ == (-(SCALE as int), 0int) {
            Direction::Left
        } else if dir@ == (SCALE as int, 0int) {
            Direction::Right
        } else if dir@ == (0int, SCALE as int) {
            Direction::Up
        } else {
            Direction::Down
        }
    }

    /// The direction that the unit vector `dir` points in; `Down` for every
    /// vector that is not one of the other three unit vectors.
    #[verifier::when_used_as_spec(spec_into_direction)]
    pub fn into_direction(dir: Vec2) -> (d: Direction)
        ensures
            d == Direction::spec_into_direction(dir),
    {
        if dir.x.raw == -SCALE && dir.y.raw == 0 {
            Direction::Left
        } else if dir.x.raw == SCALE && dir.y.raw == 0 {
            Direction::Right
        } else if dir.x.raw == 0 && dir.y.raw == SCALE {
            Direction::Up
        } else {
            Direction::Down
        }
    }

    /// The unit vector of a direction, as a value.
    pub open spec fn spec_get_vector(&self) -> Vec2 {
        match self {
            Direction::Left => Vec2 { x: Fixed { raw: -1000i64 }, y: Fixed { raw: 0 } },
            Direction::Right => Vec2 { x: Fixed { raw: 1000 }, y: Fixed { raw: 0 } },
            Direction::Up => Vec2 { x: Fixed { raw: 0 }, y: Fixed { raw: 1000 } },
            Direction::Down => Vec2 { x: Fixed { raw: 0 }, y: Fixed { raw: -1000i64 } },
        }
    }

    /// The unit vector that points in this direction.
    #[verifier::when_used_as_spec(spec_get_vector)]
    pub fn get_vector(&self) -> (v: Vec2)
        ensures
            v == self.spec_get_vector(),
    {
        match self {
            Direction::Left => Vec2 { x: Fixed { raw: -1000i64 }, y: Fixed { raw: 0 } },
            Direction::Right => Vec2 { x: Fixed { raw: 1000 }, y: Fixed { raw: 0 } },
            Direction::Up => Vec2 { x: Fixed { raw: 0 }, y: Fixed { raw: 1000 } },
            Direction::Down => Vec2 { x: Fixed { raw: 0 }, y: Fixed { raw: -1000i64 } },
        }
    }

    /// A direction is found again from its unit vector.
    pub proof fn law_vector_round_trip(d: Direction)
        ensures
            Direction::into_direction(d.get_vector()) == d,
    {
    }
}

/// A thin box fired from an actor to feel for a surface before the body
/// itself overlaps it.
#[derive(Clone, Copy, Debug, PartialEq, Eq, Structural)]
pub struct Raycast {
    /// Where the probe starts.
    pub origin: Vec2,
    /// Unit vector along which it looks.
    pub direction: Vec2,
    /// Distance from the actor's centre at which the probe starts.
    pub t_min: Fixed,
    /// Length of the probe.
    pub t_max: Fixed,
}

impl Raycast {
    /// A probe that looks down from the origin.
    pub fn down() -> (ray: Raycast)
        ensures
            ray.origin@ == (0int, 0int),
            ray.direction@ == (0int, -(SCALE as int)),
            ray.t_min@ == 8 * SCALE,
            ray.t_max@ == 12 * SCALE,
    {
        Raycast {
            origin: Vec2::zero(),
            direction: Vec2 { x: Fixed { raw: 0 }, y: Fixed { raw: -1000i64 } },
            t_min: Fixed { raw: 8000 },
            t_max: Fixed { raw: 12000 },
        }
    }

    /// The box swept by the probe, as a value: `t_max` long and one unit
    /// thick, laid along the axis of its direction and centred on the origin.
    pub open spec fn spec_probe_size(&self) -> Vec2 {
        if self.direction.x@ != 0 {
            Vec2 { x: self.t_max, y: Fixed { raw: 1000 } }
        } else {
            Vec2 { x: Fixed { raw: 1000 }, y: self.t_max }
        }
    }

    /// The box swept by the probe.
    #[verifier::when_used_as_spec(spec_probe_size)]
    pub fn probe_size(&self) -> (size: Vec2)
        ensures
            size == self.spec_probe_size(),
    {
        if self.direction.x.raw != 0 {
            Vec2 { x: self.t_max, y: Fixed { raw: 1000 } }
        } else {
            Vec2 { x: Fixed { raw: 1000 }, y: self.t_max }
        }
    }
}

} // verus!
