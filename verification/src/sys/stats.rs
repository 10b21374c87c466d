//! Grounding of an actor from the collisions that were found for it.
use vstd::prelude::*;
use crate::collide_aabb::bottom_edge;
use crate::collide_aabb::top_edge;
use crate::collide_aabb::Collision;
use crate::comp::actor::Actor;
use crate::comp::physics::Body;
use crate::comp::physics::CollisionData;
use crate::comp::physics::GravitationalAttraction;
use crate::comp::physics::Velocity;
use crate::comp::stats::Grounded;
use crate::fixed::trunc_div;
use crate::fixed::Fixed;
use crate::player::Landed;
use crate::res::GroundCollisionEvent;
use crate::tuning::EDGE_TOLERANCE;
use crate::tuning::SNAP_EPSILON;
use crate::tuning::STEP_HEIGHT;
use crate::vec2::Vec2;

verus! {

/// `value` lies in the closed range from `min` to `max`, as a value.
pub open spec fn spec_is_between(value: int, min: int, max: int) -> bool {
    min <= value <= max
}

/// Tells whether `value` lies in the closed range from `min` to `max`.
pub fn is_between(value: i128, min: i128, max: i128) -> (inside: bool)
    ensures
        inside == spec_is_between(value as int, min as int, max as int),
{
    min <= value && value <= max
}

/// Top edge of the obstacle of an event, in thousandths.
pub open spec fn hit_top(event: GroundCollisionEvent) -> int {
    top_edge(event.hit_transform, event.hit_size)
}

/// Bottom edge of an actor, in thousandths.
pub open spec fn feet(a: Actor) -> int {
    bottom_edge(a.body.position, a.collider.get_size())
}

/// The collision of the event puts the actor on the obstacle. An obstacle
/// under the actor does, unless the feet are `STEP_HEIGHT` or more below its
/// top. An obstacle to one side does where the feet are less than
/// `EDGE_TOLERANCE` below its top: the actor then stands on its edge.
/// Deeper down the obstacle is a wall to the actor. An obstacle overhead
/// never does.
pub open spec fn grounds(event: GroundCollisionEvent, a: Actor) -> bool {
    match event.hit_collision {
        Collision::Bottom => feet(a) > hit_top(event) - STEP_HEIGHT,
        Collision::Left | Collision::Right => !(feet(a) <= hit_top(event) - STEP_HEIGHT)
            && !spec_is_between(
            feet(a),
            hit_top(event) - STEP_HEIGHT,
            hit_top(event) - EDGE_TOLERANCE,
        ),
        _ => false,
    }
}

/// The actor put on the obstacle of an event: lifted to rest a hair above
/// its top edge, grounded, gravity off.
pub open spec fn put_on(a: Actor, event: GroundCollisionEvent) -> Actor {
    Actor {
        body: Body {
            position: Vec2 {
                x: a.body.position.x,
                y: Fixed::of(hit_top(event) + trunc_div(a.collider.h@, 2) + SNAP_EPSILON),
            },
            attraction: GravitationalAttraction { is_active: false },
            ..a.body
        },
        grounded: Grounded(true),
        ..a
    }
}

/// Puts the actor on the obstacle of `event` where the collision grounds
/// it, and tells whether it did.
pub fn set_grounded_if_needed(event: &GroundCollisionEvent, actor: &mut Actor) -> (is_grounded: bool)
    ensures
        is_grounded == grounds(*event, *old(actor)),
        is_grounded ==> *final(actor) == put_on(*old(actor), *event),
        !is_grounded ==> *final(actor) == *old(actor),
{
    let top: i128 = event.hit_transform.y.wide() + event.hit_size.y.half().wide();
    let feet: i128 = actor.body.position.y.wide() - actor.collider.h.half().wide();
    match event.hit_collision {
        Collision::Left | Collision::Right => {
            if feet <= top - (STEP_HEIGHT as i128) || is_between(
                feet,
                top - (STEP_HEIGHT as i128),
                top - (EDGE_TOLERANCE as i128),
            ) {
                return false;
            }
        },
        Collision::Bottom => {
            if feet <= top - (STEP_HEIGHT as i128) {
                return false;
            }
        },
        _ => {
            return false;
        },
    }
    let y: i128 = top + actor.collider.h.half().wide() + (SNAP_EPSILON as i128);
    actor.body.position = Vec2 { x: actor.body.position.x, y: Fixed::from_wide(y) };
    actor.grounded = Grounded(true);
    actor.body.attraction = GravitationalAttraction { is_active: false };
    true
}

/// The actor as a pass over its collisions finds it: gravity on, the
/// directional flags cleared.
pub open spec fn contacts_begun(a: Actor) -> Actor {
    Actor {
        body: Body { attraction: GravitationalAttraction { is_active: true }, ..a.body },
        collision_data: a.collision_data.cleared(),
        ..a
    }
}

/// The actor after one collision was looked at: put on the obstacle,
/// flagged as standing and carried along by the obstacle where the
/// collision grounds it, and unchanged where not.
pub open spec fn contact_applied(a: Actor, event: GroundCollisionEvent) -> Actor {
    if grounds(event, a) {
        let on = put_on(a, event);
        Actor {
            body: Body {
                velocity: Velocity(
                    Vec2 {
                        x: on.body.velocity.0.x.plus(event.hit_velocity.0.x),
                        y: on.body.velocity.0.y,
                    },
                ),
                ..on.body
            },
            collision_data: CollisionData { below: true, ..on.collision_data },
            ..on
        }
    } else {
        a
    }
}

/// The actor after the first `n` of `events` were looked at in order.
pub open spec fn contacts_applied(a: Actor, events: Seq<GroundCollisionEvent>, n: nat) -> Actor
    decreases n,
{
    if n == 0 {
        a
    } else {
        contact_applied(contacts_applied(a, events, (n - 1) as nat), events[n - 1])
    }
}

/// The actor after a pass over all its collisions of a tick.
pub open spec fn contacts_settled(a: Actor, events: Seq<GroundCollisionEvent>) -> Actor {
    contacts_applied(contacts_begun(a), events, events.len())
}

/// The landing that a pass reports: one where the actor ends up standing
/// and was not grounded before. The place is that of the actor's feet
/// after the pass.
pub open spec fn touchdown(a: Actor, events: Seq<GroundCollisionEvent>) -> Option<Landed> {
    let after = contacts_settled(a, events);
    if after.collision_data.below && !a.grounded.0 {
        Some(
            Landed {
                position: Vec2 {
                    x: after.body.position.x,
                    y: after.body.position.y.minus(after.collider.h.half()),
                },
            },
        )
    } else {
        None
    }
}

/// Looks at the collisions that were found for the actor this tick, in
/// order, grounds the actor on what carries it, and reports a landing.
pub fn collider_contact_system(actor: &mut Actor, events: &Vec<GroundCollisionEvent>) -> (landed:
    Option<Landed>)
    ensures
        *final(actor) == contacts_settled(*old(actor), events@),
        landed == touchdown(*old(actor), events@),
{
    let was_grounded: bool = actor.grounded.0;
    actor.body.attraction = GravitationalAttraction { is_active: true };
    actor.collision_data.reset();
    let mut i: usize = 0;
    while i < events.len()
        invariant
            i <= events@.len(),
            *actor == contacts_applied(contacts_begun(*old(actor)), events@, i as nat),
        decreases events@.len() - i,
    {
        let event: GroundCollisionEvent = events[i];
        if set_grounded_if_needed(&event, actor) {
            actor.collision_data.below = true;
            actor.body.velocity = Velocity(
                Vec2 {
                    x: actor.body.velocity.0.x.plus(event.hit_velocity.0.x),
                    y: actor.body.velocity.0.y,
                },
            );
        }
        i += 1;
    }
    if actor.collision_data.below && !was_grounded {
        Some(
            Landed {
                position: Vec2 {
                    x: actor.body.position.x,
                    y: actor.body.position.y.minus(actor.collider.h.half()),
                },
            },
        )
    } else {
        None
    }
}

} // verus!
