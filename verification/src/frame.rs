//! One tick of an actor, from input to the shaped arc of its jump.
use vstd::prelude::*;
use crate::animation::AnimationState;
use crate::comp::physics::Body;
use crate::comp::physics::Gravity;
use crate::comp::physics::Raycast;
use crate::fixed::Fixed;
use crate::input::adjust_jump_system;
use crate::input::arc_shaped;
use crate::input::input_applied;
use crate::input::input_outcome;
use crate::input::player_input_system;
use crate::input::InputIntents;
use crate::input::InputOutcome;
use crate::obstacle::Obstacle;
use crate::player::collisions_resolved;
use crate::player::landing;
use crate::player::player_collision_system;
use crate::player::Landed;
use crate::player::Player;
use crate::player::WallJumped;
use crate::raycast::ground_ray_of;
use crate::raycast::raycast_hit_system;
use crate::raycast::update_raycast_system;
use crate::raycast::wall_probed;
use crate::raycast::wall_ray_of;
use crate::sys::physics::apply_drag;
use crate::sys::physics::apply_gravity;
use crate::sys::physics::apply_velocity;
use crate::sys::physics::dragged;
use crate::sys::physics::integrated;
use crate::sys::physics::pulled;

verus! {

/// What a tick hands to the layers that draw and sound.
#[derive(Clone, Copy, Debug, PartialEq, Eq, Structural)]
pub struct FrameEvents {
    /// The animation to show.
    pub animation: AnimationState,
    /// The actor landed.
    pub landed: Option<Landed>,
    /// The actor kicked off a wall.
    pub wall_jumped: Option<WallJumped>,
    /// The actor jumped off the ground.
    pub left_ground: bool,
}

/// The body after the free part of a tick: moved at its velocity, then
/// pulled by gravity, then slowed by drag.
pub open spec fn flown(body: Body, gravity: Gravity, dt: Fixed) -> Body {
    dragged(pulled(integrated(body, dt), gravity, dt), dt)
}

/// Moves the body at its velocity, then applies gravity and drag.
pub fn fly(body: &mut Body, gravity: &Gravity, dt: Fixed)
    ensures
        *final(body) == flown(*old(body), *gravity, dt),
{
    apply_velocity(body, dt);
    apply_gravity(body, gravity, dt);
    apply_drag(body, dt);
}

/// The actor after input and free flight, before contacts are resolved.
pub open spec fn advanced(p: Player, input: InputIntents, gravity: Gravity, dt: Fixed) -> Player {
    let steered = input_applied(p, input);
    Player { body: flown(steered.body, gravity, dt), ..steered }
}

/// The actor after one tick: input, integration, gravity and drag, the
/// collision pass, the wall probe, and the shaping of the jump's arc, in
/// this order.
pub open spec fn stepped(
    p: Player,
    ray: Raycast,
    input: InputIntents,
    obstacles: Seq<Obstacle>,
    gravity: Gravity,
    dt: Fixed,
) -> Player {
    let resolved = collisions_resolved(advanced(p, input, gravity, dt), obstacles);
    arc_shaped(
        wall_probed(resolved, wall_ray_of(resolved, ray), obstacles),
        gravity,
        input.jump_held,
        dt,
    )
}

/// What one tick reports.
pub open spec fn step_events(
    p: Player,
    input: InputIntents,
    obstacles: Seq<Obstacle>,
    gravity: Gravity,
    dt: Fixed,
) -> FrameEvents {
    let outcome = input_outcome(p, input);
    FrameEvents {
        animation: outcome.animation,
        landed: landing(advanced(p, input, gravity, dt), obstacles),
        wall_jumped: outcome.wall_jumped,
        left_ground: outcome.left_ground,
    }
}

/// Runs one tick of `dt` seconds for the actor. Each pass over the
/// obstacles takes them in their order as seen from the actor, so the
/// result does not depend on how they were listed.
pub fn step(
    player: &mut Player,
    raycast: &mut Raycast,
    ground_raycast: &mut Raycast,
    input: &InputIntents,
    obstacles: &Vec<Obstacle>,
    gravity: &Gravity,
    dt: Fixed,
) -> (events: FrameEvents)
    ensures
        *final(player) == stepped(*old(player), *old(raycast), *input, obstacles@, *gravity, dt),
        events == step_events(*old(player), *input, obstacles@, *gravity, dt),
        *final(raycast) == wall_ray_of(
            collisions_resolved(advanced(*old(player), *input, *gravity, dt), obstacles@),
            *old(raycast),
        ),
        *final(ground_raycast) == ground_ray_of(
            collisions_resolved(advanced(*old(player), *input, *gravity, dt), obstacles@),
            *old(ground_raycast),
        ),
        old(player).jumps.wf() ==> final(player).jumps.wf() && final(player).jumps.max_jumps == old(
            player,
        ).jumps.max_jumps,
{
    proof {
        if player.jumps.wf() {
            crate::laws::law_jump_count_invariant(
                *player,
                *raycast,
                *input,
                obstacles@,
                *gravity,
                dt,
            );
        }
    }
    let outcome: InputOutcome = player_input_system(player, input);
    let mut body: Body = player.body;
    fly(&mut body, gravity, dt);
    player.body = body;
    let landed: Option<Landed> = player_collision_system(player, obstacles);
    update_raycast_system(player, raycast, ground_raycast);
    raycast_hit_system(player, raycast, obstacles);
    adjust_jump_system(player, gravity, input.jump_held, dt);
    FrameEvents {
        animation: outcome.animation,
        landed,
        wall_jumped: outcome.wall_jumped,
        left_ground: outcome.left_ground,
    }
}

} // verus!
