//! From the keys to the controller of an actor.
use vstd::prelude::*;
use crate::comp::actor::Action;
use crate::comp::actor::Actor;
use crate::comp::actor::Controller;
use crate::comp::physics::Body;
use crate::comp::physics::GravitationalAttraction;
use crate::comp::physics::Velocity;
use crate::fixed::Fixed;
use crate::input::InputIntents;
use crate::sys::actor::process_commands_system;
use crate::sys::actor::commanded;
use crate::sys::actor::flip_sprite;
use crate::sys::actor::heading;
use crate::sys::actor::CommandOutcome;
use crate::sys::actor::JUMP_LIFT;
use crate::animation::AnimationState;
use crate::vec2::Vec2;

verus! {

/// Upward speed of a jump that needs no jump force (200.0).
pub const LISTENER_JUMP_SPEED: i64 = 200000;

/// The held directions after the keys of a tick were added: one unit to
/// the left or right and up or down for each key that is down.
pub open spec fn held(movement: Vec2, input: InputIntents) -> Vec2 {
    let left = if input.move_left {
        movement.x.minus(Fixed { raw: 1000 })
    } else {
        movement.x
    };
    let x = if input.move_right {
        left.plus(Fixed { raw: 1000 })
    } else {
        left
    };
    let up = if input.climb_up {
        movement.y.plus(Fixed { raw: 1000 })
    } else {
        movement.y
    };
    let y = if input.climb_down {
        up.minus(Fixed { raw: 1000 })
    } else {
        up
    };
    Vec2 { x, y }
}

/// The action that a press of the jump key asks for: a wall jump for an
/// actor in the air with a wall on either side, else a jump.
pub open spec fn jump_action(a: Actor) -> Action {
    if a.collision_data.either_side() && !a.grounded.0 {
        Action::WallJump
    } else {
        Action::Jump
    }
}

/// The actions that the keys of a tick add to the queue: a shot while the
/// trigger is held, then what a press of the jump key asks for.
pub open spec fn asked(a: Actor, input: InputIntents, shoot: bool) -> Seq<Action> {
    let shots = if shoot {
        seq![Action::Shoot]
    } else {
        Seq::<Action>::empty()
    };
    if input.jump_pressed {
        shots.push(jump_action(a))
    } else {
        shots
    }
}

/// Records the keys of a tick in the controller of the actor.
pub fn handle_input(input: &InputIntents, shoot: bool, actor: &Actor, controller: &mut Controller)
    ensures
        final(controller).movement == held(old(controller).movement, *input),
        final(controller).movement_action@ == old(controller).movement_action@ + asked(
            *actor,
            *input,
            shoot,
        ),
        final(controller).cursor_position == old(controller).cursor_position,
{
    if shoot {
        controller.movement_action.push_back(Action::Shoot);
    }
    let mut x: Fixed = controller.movement.x;
    let mut y: Fixed = controller.movement.y;
    if input.move_left {
        x = x.minus(Fixed { raw: 1000 });
    }
    if input.move_right {
        x = x.plus(Fixed { raw: 1000 });
    }
    if input.climb_up {
        y = y.plus(Fixed { raw: 1000 });
    }
    if input.climb_down {
        y = y.minus(Fixed { raw: 1000 });
    }
    controller.movement = Vec2 { x, y };
    if input.jump_pressed {
        if actor.collision_data.either_side() && !actor.grounded.0 {
            controller.movement_action.push_back(Action::WallJump);
        } else {
            controller.movement_action.push_back(Action::Jump);
        }
    }
    proof {
        assert(controller.movement_action@ =~= old(controller).movement_action@ + asked(
            *actor,
            *input,
            shoot,
        ));
    }
}

/// Carries out what the controller holds for this tick.
pub fn process_input(controller: &mut Controller, actor: &mut Actor) -> (outcome: CommandOutcome)
    ensures
        *final(actor) == commanded(*old(actor), old(controller).movement),
        final(controller).movement@ == (0int, 0int),
        final(controller).movement_action@ == Seq::<Action>::empty(),
        final(controller).cursor_position == old(controller).cursor_position,
        outcome.actions@ == old(controller).movement_action@,
        heading(old(controller).movement).x@ != 0 ==> outcome.animation == AnimationState::Run
            && outcome.mirrored == Some(flip_sprite(final(actor).facing.0)),
        heading(old(controller).movement).x@ == 0 ==> outcome.animation == AnimationState::Idle
            && outcome.mirrored is None,
{
    process_commands_system(controller, actor)
}

/// The body after a jump at the speed `LISTENER_JUMP_SPEED`: lifted by
/// `JUMP_LIFT` to clear the ground, gravity on.
pub open spec fn hopped(body: Body) -> Body {
    Body {
        position: Vec2 { x: body.position.x, y: body.position.y.plus(Fixed { raw: JUMP_LIFT }) },
        velocity: Velocity(
            Vec2 { x: body.velocity.0.x, y: Fixed { raw: LISTENER_JUMP_SPEED } },
        ),
        attraction: GravitationalAttraction { is_active: true },
        ..body
    }
}

/// Makes the body jump.
pub fn jump_listener(body: &mut Body)
    ensures
        *final(body) == hopped(*old(body)),
{
    body.position = Vec2 { x: body.position.x, y: body.position.y.plus(Fixed { raw: JUMP_LIFT }) };
    body.attraction = GravitationalAttraction { is_active: true };
    body.velocity = Velocity(Vec2 { x: body.velocity.0.x, y: Fixed { raw: LISTENER_JUMP_SPEED } });
}

} // verus!
