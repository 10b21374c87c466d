//! What a player-controlled actor carries besides its physics.
use vstd::prelude::*;
use std::collections::VecDeque;
use crate::comp::physics::Body;
use crate::comp::physics::ColliderBox;
use crate::comp::physics::CollisionData;
use crate::comp::stats::Facing;
use crate::comp::stats::Grounded;
use crate::comp::stats::JumpForce;
use crate::comp::stats::MovementSpeed;
use crate::fixed::Fixed;
use crate::vec2::Vec2;

verus! {

/// Marks the actor that the player steers.
#[derive(Clone, Copy, Debug, PartialEq, Eq, Structural)]
pub struct Player;

/// Something the actor was told to do, once.
#[derive(Clone, Copy, Debug, PartialEq, Eq, Structural)]
pub enum Action {
    /// Jump off the ground, or once more in the air.
    Jump,
    /// Kick off the wall that the actor touches.
    WallJump,
    /// Fire a projectile toward the crosshair.
    Shoot,
}

/// A request to jump, as the input layer records it.
#[derive(Clone, Copy, Debug, PartialEq, Eq, Structural)]
pub struct Jump;

impl Default for Jump {
    /// The one value there is.
    fn default() -> Jump {
        Jump
    }
}

/// Marks that a jump was triggered this tick.
#[derive(Clone, Copy, Debug, PartialEq, Eq, Structural)]
pub struct JumpTriggerState;

/// The intents gathered from the input devices since the last tick.
pub struct Controller {
    /// Where the cursor points, relative to the middle of the window.
    pub cursor_position: Vec2,
    /// Held directions: each component is `-1`, `0` or `1`.
    pub movement: Vec2,
    /// Actions waiting to be carried out, oldest first.
    pub movement_action: VecDeque<Action>,
}

impl Controller {
    /// A controller with nothing held and nothing waiting.
    pub fn new() -> (c: Controller)
        ensures
            c.movement@ == (0int, 0int),
            c.cursor_position@ == (0int, 0int),
            c.movement_action@ == Seq::<Action>::empty(),
    {
        Controller {
            cursor_position: Vec2::zero(),
            movement: Vec2::zero(),
            movement_action: VecDeque::new(),
        }
    }

    /// Forgets the held directions.
    pub fn reset_movement(&mut self)
        ensures
            final(self).movement@ == (0int, 0int),
            final(self).cursor_position == old(self).cursor_position,
            final(self).movement_action == old(self).movement_action,
    {
        self.movement = Vec2::zero();
    }
}

/// The parts of an actor that is driven by acceleration: it gains speed
/// while a direction is held and loses it to drag.
#[derive(Clone, Copy, Debug, PartialEq, Eq, Structural)]
pub struct Actor {
    /// Position, velocity, drag and the gravity switch.
    pub body: Body,
    /// Extents of the actor.
    pub collider: ColliderBox,
    /// What the actor touches.
    pub collision_data: CollisionData,
    /// Whether the actor stands on something.
    pub grounded: Grounded,
    /// Acceleration and top speed.
    pub speed: MovementSpeed,
    /// Upward speed of a jump.
    pub jump_force: JumpForce,
    /// The way the actor looks.
    pub facing: Facing,
}

impl Actor {
    /// An actor at `position` with the usual numbers, as a value.
    pub open spec fn spec_new(position: Vec2) -> Actor {
        Actor {
            body: Body {
                position,
                velocity: crate::comp::physics::Velocity(
                    Vec2 { x: Fixed { raw: 0 }, y: Fixed { raw: 0 } },
                ),
                drag: crate::comp::physics::Drag(Fixed { raw: 1850 }),
                attraction: crate::comp::physics::GravitationalAttraction { is_active: true },
            },
            collider: ColliderBox { w: Fixed { raw: 16_000 }, h: Fixed { raw: 32_000 } },
            collision_data: CollisionData {
                left: false,
                right: false,
                above: false,
                below: false,
                touching_wall: false,
                facing_direction: 1,
                prev_below: false,
                is_wall_jumping: false,
            },
            grounded: Grounded(false),
            speed: MovementSpeed { accel: Fixed { raw: 100_000 }, max: Fixed { raw: 200_000 } },
            jump_force: JumpForce(Fixed { raw: 200_000 }),
            facing: Facing(1),
        }
    }

    /// An actor at `position` with the usual numbers: sixteen by thirty-two
    /// units, drag 1.85, acceleration 100 up to a speed of 200, jump force
    /// 200, in the air, facing right.
    #[verifier::when_used_as_spec(spec_new)]
    pub fn new(position: Vec2) -> (a: Actor)
        ensures
            a == Actor::spec_new(position),
    {
        let mut body: Body = Body::new(position);
        body.drag = crate::comp::physics::Drag(Fixed { raw: 1850 });
        Actor {
            body,
            collider: ColliderBox { w: Fixed { raw: 16_000 }, h: Fixed { raw: 32_000 } },
            collision_data: CollisionData::default(),
            grounded: Grounded(false),
            speed: MovementSpeed { accel: Fixed { raw: 100_000 }, max: Fixed { raw: 200_000 } },
            jump_force: JumpForce(Fixed { raw: 200_000 }),
            facing: Facing(1),
        }
    }
}

} // verus!
