//! Integration, drag, gravity and the shaping of a jump's arc.
use vstd::prelude::*;
use crate::collide_aabb::collide;
use crate::collide_aabb::Collision;
use crate::comp::physics::Body;
use crate::comp::physics::ColliderBox;
use crate::comp::physics::Gravity;
use crate::comp::physics::GravitationalAttraction;
use crate::comp::physics::Velocity;
use crate::fixed::Fixed;
use crate::fixed::SCALE;
use crate::nearest::in_order;
use crate::nearest::sort_by_distance;
use crate::obstacle::contact_side;
use crate::obstacle::probe_position;
use crate::obstacle::Obstacle;
use crate::res::GroundCollisionEvent;
use crate::tuning::FALL_MULTIPLIER;
use crate::tuning::LOW_JUMP_MULTIPLIER;
use crate::vec2::Vec2;

verus! {

/// The body after moving for `dt` seconds at its velocity.
pub open spec fn integrated(body: Body, dt: Fixed) -> Body {
    Body { position: body.position.plus(body.velocity.0.scaled(dt)), ..body }
}

/// Moves the body for `dt` seconds at its velocity.
pub fn apply_velocity(body: &mut Body, dt: Fixed)
    ensures
        *final(body) == integrated(*old(body), dt),
{
    body.position = body.position.plus(body.velocity.0.scaled(dt));
}

/// The share of its velocity that a body loses in `dt` seconds: `dt` times
/// the drag, held between nothing and all of it.
pub open spec fn drag_share(body: Body, dt: Fixed) -> Fixed {
    dt.times(body.drag.0).clamp(Fixed { raw: 0 }, Fixed { raw: SCALE })
}

/// The body after its velocity has decayed for `dt` seconds.
pub open spec fn dragged(body: Body, dt: Fixed) -> Body {
    Body {
        velocity: Velocity(
            body.velocity.0.lerp(
                Vec2 { x: Fixed { raw: 0 }, y: Fixed { raw: 0 } },
                drag_share(body, dt),
            ),
        ),
        ..body
    }
}

/// Lets the velocity decay toward rest for `dt` seconds.
pub fn apply_drag(body: &mut Body, dt: Fixed)
    ensures
        *final(body) == dragged(*old(body), dt),
{
    let share: Fixed = dt.times(body.drag.0).clamp(Fixed { raw: 0 }, Fixed { raw: SCALE });
    let rest: Vec2 = Vec2 { x: Fixed { raw: 0 }, y: Fixed { raw: 0 } };
    body.velocity = Velocity(body.velocity.0.lerp(rest, share));
}

/// The body after gravity has acted for `dt` seconds: pulled down where
/// gravity is active, without vertical speed where it is not.
pub open spec fn pulled(body: Body, gravity: Gravity, dt: Fixed) -> Body {
    let vy = if body.attraction.is_active {
        body.velocity.0.y.minus(gravity.0.times(dt))
    } else {
        Fixed { raw: 0 }
    };
    Body { velocity: Velocity(Vec2 { x: body.velocity.0.x, y: vy }), ..body }
}

/// Applies gravity for `dt` seconds.
pub fn apply_gravity(body: &mut Body, gravity: &Gravity, dt: Fixed)
    ensures
        *final(body) == pulled(*old(body), *gravity, dt),
{
    let vy: Fixed = if body.attraction.is_active {
        body.velocity.0.y.minus(gravity.0.times(dt))
    } else {
        Fixed { raw: 0 }
    };
    body.velocity = Velocity(Vec2 { x: body.velocity.0.x, y: vy });
}

/// The vertical speed `vy` of an airborne actor after the arc of its jump
/// was shaped for `dt` seconds. A falling actor is pulled down by
/// `FALL_MULTIPLIER - 1` more gravities. A rising actor whose jump button is
/// released is pulled down by `LOW_JUMP_MULTIPLIER - 1` more gravities. A
/// rising actor that holds the button, or one at the top of its arc, is left
/// alone.
pub open spec fn shaped_jump(vy: Fixed, gravity: Gravity, jump_held: bool, dt: Fixed) -> Fixed {
    if vy@ < 0 {
        vy.minus(gravity.0.times(Fixed { raw: (FALL_MULTIPLIER - SCALE) as i64 }).times(dt))
    } else if vy@ > 0 && !jump_held {
        vy.minus(gravity.0.times(Fixed { raw: (LOW_JUMP_MULTIPLIER - SCALE) as i64 }).times(dt))
    } else {
        vy
    }
}

/// Shapes the vertical speed of an airborne actor for `dt` seconds.
pub fn shape_jump(vy: Fixed, gravity: &Gravity, jump_held: bool, dt: Fixed) -> (r: Fixed)
    ensures
        r == shaped_jump(vy, *gravity, jump_held, dt),
{
    if vy.raw < 0 {
        vy.minus(gravity.0.times(Fixed { raw: FALL_MULTIPLIER - SCALE }).times(dt))
    } else if vy.raw > 0 && !jump_held {
        vy.minus(gravity.0.times(Fixed { raw: LOW_JUMP_MULTIPLIER - SCALE }).times(dt))
    } else {
        vy
    }
}

/// The body after the arc of its jump was shaped: untouched while gravity is
/// off (on the ground or against a wall), else with the vertical speed of
/// [`shaped_jump`].
pub open spec fn jump_adjusted(body: Body, gravity: Gravity, jump_held: bool, dt: Fixed) -> Body {
    if !body.attraction.is_active {
        body
    } else {
        Body {
            velocity: Velocity(
                Vec2 {
                    x: body.velocity.0.x,
                    y: shaped_jump(body.velocity.0.y, gravity, jump_held, dt),
                },
            ),
            ..body
        }
    }
}

/// Makes falling snappier and cuts a jump short when the button is let go.
pub fn adjust_jump(body: &mut Body, gravity: &Gravity, jump_held: bool, dt: Fixed)
    ensures
        *final(body) == jump_adjusted(*old(body), *gravity, jump_held, dt),
{
    if !body.attraction.is_active {
        return ;
    }
    let vy: Fixed = shape_jump(body.velocity.0.y, gravity, jump_held, dt);
    body.velocity = Velocity(Vec2 { x: body.velocity.0.x, y: vy });
}

/// The actor at `position` with a box of `size` stands on `obstacle`.
pub open spec fn stands_on(position: Vec2, size: Vec2, obstacle: Obstacle) -> bool {
    contact_side(position, size, obstacle) == Some(Collision::Bottom)
}

/// Tests one obstacle against the probed box of an actor.
pub fn probe_obstacle(position: Vec2, size: Vec2, obstacle: &Obstacle) -> (hit: Option<Collision>)
    ensures
        hit == contact_side(position, size, *obstacle),
{
    if obstacle.collider.is_solid() {
        collide(obstacle.position, obstacle.collider.get_size(), probe_position(position), size)
    } else {
        None
    }
}

/// Switches gravity off while the body stands on one of `grounds`, and on
/// while it stands on none.
pub fn player_ground_collision(body: &mut Body, collider: &ColliderBox, grounds: &Vec<Obstacle>)
    ensures
        final(body).attraction.is_active == !(exists|i: int|
            0 <= i < grounds@.len() && stands_on(
                old(body).position,
                collider.get_size(),
                #[trigger] grounds@[i],
            )),
        final(body).position == old(body).position,
        final(body).velocity == old(body).velocity,
        final(body).drag == old(body).drag,
{
    let size: Vec2 = collider.get_size();
    let position: Vec2 = body.position;
    let mut grounded: bool = false;
    let mut i: usize = 0;
    while i < grounds.len()
        invariant
            i <= grounds@.len(),
            grounded == (exists|j: int|
                0 <= j < i && stands_on(position, size, #[trigger] grounds@[j])),
        decreases grounds@.len() - i,
    {
        let hit: Option<Collision> = probe_obstacle(position, size, &grounds[i]);
        if hit == Some(Collision::Bottom) {
            grounded = true;
        }
        i += 1;
    }
    body.attraction = GravitationalAttraction { is_active: !grounded };
}

/// The collision that the actor's probed box has with `o`, as a message.
pub open spec fn collision_with(o: Obstacle, side: Collision) -> GroundCollisionEvent {
    GroundCollisionEvent {
        hit_collision: side,
        hit_transform: o.position,
        hit_size: o.collider.get_size(),
        hit_velocity: o.velocity,
    }
}

/// The collisions of the actor's probed box with the first `n` of
/// `obstacles`, in order.
pub open spec fn collisions_found(position: Vec2, size: Vec2, obstacles: Seq<Obstacle>, n: nat) -> Seq<
    GroundCollisionEvent,
>
    decreases n,
{
    if n == 0 {
        Seq::<GroundCollisionEvent>::empty()
    } else {
        let before = collisions_found(position, size, obstacles, (n - 1) as nat);
        match contact_side(position, size, obstacles[n - 1]) {
            Some(side) => before.push(collision_with(obstacles[n - 1], side)),
            None => before,
        }
    }
}

/// The collisions of the actor's probed box with `obstacles`, taken in
/// their order as seen from the actor, nearest first.
pub open spec fn collisions_in_order(position: Vec2, size: Vec2, obstacles: Seq<Obstacle>) -> Seq<
    GroundCollisionEvent,
> {
    collisions_found(position, size, in_order(position, obstacles), obstacles.len())
}

/// Tests the actor's probed box against each obstacle and returns one
/// message for each obstacle that it overlaps. The obstacles are taken in
/// their order as seen from the actor, so the messages do not depend on
/// how the obstacles were listed.
pub fn find_collisions(position: Vec2, collider: &ColliderBox, obstacles: &Vec<Obstacle>) -> (events:
    Vec<GroundCollisionEvent>)
    ensures
        events@ == collisions_in_order(position, collider.get_size(), obstacles@),
{
    let size: Vec2 = collider.get_size();
    let sorted: Vec<Obstacle> = sort_by_distance(position, obstacles);
    let mut events: Vec<GroundCollisionEvent> = Vec::new();
    let mut i: usize = 0;
    while i < sorted.len()
        invariant
            i <= sorted@.len(),
            size == collider.get_size(),
            events@ == collisions_found(position, size, sorted@, i as nat),
        decreases sorted@.len() - i,
    {
        match probe_obstacle(position, size, &sorted[i]) {
            Some(side) => {
                events.push(
                    GroundCollisionEvent {
                        hit_collision: side,
                        hit_transform: sorted[i].position,
                        hit_size: sorted[i].collider.get_size(),
                        hit_velocity: sorted[i].velocity,
                    },
                );
            },
            None => {},
        }
        i += 1;
    }
    events
}

} // verus!
