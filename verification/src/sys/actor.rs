//! The steps that act on an actor driven by acceleration.
use vstd::prelude::*;
use crate::animation::AnimationState;
use crate::comp::actor::Action;
use crate::comp::actor::Actor;
use crate::comp::actor::Controller;
use crate::comp::particles::ParticleSpawn;
use crate::comp::physics::Body;
use crate::comp::physics::CollisionData;
use crate::comp::physics::Gravity;
use crate::comp::physics::GravitationalAttraction;
use crate::comp::physics::Velocity;
use crate::comp::stats::Facing;
use crate::comp::stats::Grounded;
use crate::comp::stats::StretchTimer;
use crate::comp::stats::TimeToLive;
use crate::fixed::Fixed;
use crate::obstacle::Obstacle;
use crate::player::Landed;
use crate::res::GroundCollisionEvent;
use crate::sys::physics::adjust_jump;
use crate::sys::physics::apply_drag;
use crate::sys::physics::apply_gravity;
use crate::sys::physics::apply_velocity;
use crate::sys::physics::collisions_in_order;
use crate::sys::physics::dragged;
use crate::sys::physics::find_collisions;
use crate::sys::physics::integrated;
use crate::sys::physics::jump_adjusted;
use crate::sys::physics::pulled;
use crate::sys::stats::collider_contact_system;
use crate::sys::stats::contacts_settled;
use crate::sys::stats::touchdown;
use crate::projectile::fire;
use crate::projectile::is_shot;
use crate::projectile::set_aim;
use crate::projectile::shrunk;
use crate::projectile::Crosshair;
use crate::projectile::ProjectileSpawn;
use crate::projectile::PROJECTILE_SIZE;
use crate::sys::particles::is_wall_dust;
use crate::sys::particles::spawn_wall_dust_particle;
use crate::sys::particles::Fate;
use crate::timer::Timer;
use crate::util::Size;
use crate::vec2::Vec2;

verus! {

/// How far an actor is lifted when it jumps (2.0).
pub const JUMP_LIFT: i64 = 2000;

/// How far an actor is pushed away from the wall it kicks off (8.0).
pub const WALL_KICK_NUDGE: i64 = 8000;

/// Sideways share of the jump force in a wall kick (1.4).
pub const WALL_KICK_SIDE: i64 = 1400;

/// Upward share of the jump force in a wall kick (1.2).
pub const WALL_KICK_UP: i64 = 1200;

/// Specks of dust in a wall kick.
pub const WALL_KICK_DUST: i32 = 10;

/// Seconds that a sprite stays stretched (0.4).
pub const STRETCH_TIME: i64 = 400;

/// `max` for a positive `value`, `min` for a negative one, zero for zero,
/// as a value.
pub open spec fn spec_clamp(value: Fixed, min: Fixed, max: Fixed) -> Fixed {
    if value@ > 0 {
        max
    } else if value@ < 0 {
        min
    } else {
        Fixed { raw: 0 }
    }
}

/// Snaps `value` to one of the two bounds by its sign: `max` for a
/// positive value, `min` for a negative one, and zero for zero.
#[verifier::when_used_as_spec(spec_clamp)]
pub fn clamp(value: Fixed, min: Fixed, max: Fixed) -> (r: Fixed)
    ensures
        r == spec_clamp(value, min, max),
{
    if value.raw > 0 {
        max
    } else if value.raw < 0 {
        min
    } else {
        Fixed { raw: 0 }
    }
}

/// Whether a sprite that faces `direction` is mirrored, as a value: any
/// direction but a positive one is.
pub open spec fn spec_flip_sprite(direction: i8) -> bool {
    !(direction > 0)
}

/// Tells whether a sprite that faces `direction` is to be mirrored.
#[verifier::when_used_as_spec(spec_flip_sprite)]
pub fn flip_sprite(direction: i8) -> (mirrored: bool)
    ensures
        mirrored == spec_flip_sprite(direction),
{
    !(direction > 0)
}

/// The held directions as a direction of movement: brought to length one,
/// unless its two components cancel.
pub open spec fn heading(movement: Vec2) -> Vec2 {
    if movement.x.plus(movement.y)@ != 0 {
        movement.normalize()
    } else {
        movement
    }
}

/// The horizontal velocity after one tick of acceleration along `push`:
/// the sum of the two while its magnitude is below the top speed, else the
/// top speed in the direction that the actor already moves in, rightward
/// for an actor that does not move.
pub open spec fn accelerated(vx: Fixed, push: Fixed, max: Fixed) -> Fixed {
    if vx.plus(push).abs()@ < max@ {
        vx.plus(push)
    } else if vx@ < 0 {
        max.neg()
    } else {
        max
    }
}

/// The way the actor looks after a tick with the heading `moving`.
pub open spec fn faced_after(facing: Facing, moving: Vec2) -> Facing {
    if moving.x@ > 0 {
        Facing(1)
    } else if moving.x@ < 0 {
        Facing(-1i8)
    } else {
        facing
    }
}

/// The actor after the held directions of a tick were applied.
pub open spec fn commanded(a: Actor, movement: Vec2) -> Actor {
    let moving = heading(movement);
    Actor {
        body: Body {
            velocity: Velocity(
                Vec2 {
                    x: accelerated(a.body.velocity.0.x, moving.x.times(a.speed.accel), a.speed.max),
                    y: a.body.velocity.0.y,
                },
            ),
            ..a.body
        },
        facing: faced_after(a.facing, moving),
        ..a
    }
}

/// What a tick of commands reports.
pub struct CommandOutcome {
    /// The animation to show.
    pub animation: AnimationState,
    /// Whether the sprite is to be mirrored; `None` where it stays as it is.
    pub mirrored: Option<bool>,
    /// The actions that were waiting, oldest first, for the steps that
    /// carry them out.
    pub actions: Vec<Action>,
}

/// Takes all waiting actions out of the queue, oldest first.
pub fn drain_actions(controller: &mut Controller) -> (actions: Vec<Action>)
    ensures
        actions@ == old(controller).movement_action@,
        final(controller).movement_action@ == Seq::<Action>::empty(),
        final(controller).movement == old(controller).movement,
        final(controller).cursor_position == old(controller).cursor_position,
{
    let mut actions: Vec<Action> = Vec::new();
    loop
        invariant
            actions@ + controller.movement_action@ == old(controller).movement_action@,
            controller.movement == old(controller).movement,
            controller.cursor_position == old(controller).cursor_position,
        ensures
            actions@ == old(controller).movement_action@,
            controller.movement_action@ == Seq::<Action>::empty(),
            controller.movement == old(controller).movement,
            controller.cursor_position == old(controller).cursor_position,
        decreases controller.movement_action@.len(),
    {
        let ghost before = controller.movement_action@;
        let ghost taken = actions@;
        match controller.movement_action.pop_front() {
            Some(action) => {
                actions.push(action);
                proof {
                    assert(actions@ + controller.movement_action@ =~= taken + before);
                }
            },
            None => {
                proof {
                    assert(actions@ + controller.movement_action@ =~= actions@);
                    assert(controller.movement_action@ =~= Seq::<Action>::empty());
                }
                break ;
            },
        }
    }
    actions
}

/// Carries out the commands of a tick: turns the held directions into
/// acceleration and facing, hands on the waiting actions, and forgets the
/// held directions.
pub fn process_commands_system(controller: &mut Controller, actor: &mut Actor) -> (outcome:
    CommandOutcome)
    ensures
        *final(actor) == commanded(*old(actor), old(controller).movement),
        final(controller).movement@ == (0int, 0int),
        final(controller).movement_action@ == Seq::<Action>::empty(),
        final(controller).cursor_position == old(controller).cursor_position,
        outcome.actions@ == old(controller).movement_action@,
        heading(old(controller).movement).x@ != 0 ==> outcome.animation == AnimationState::Run
            && outcome.mirrored == Some(flip_sprite(final(actor).facing.0)),
        heading(old(controller).movement).x@ == 0 ==> outcome.animation == AnimationState::Idle
            && outcome.mirrored is None,
{
    let movement: Vec2 = if controller.movement.x.plus(controller.movement.y).raw != 0 {
        controller.movement.normalize()
    } else {
        controller.movement
    };
    let facing_direction: Fixed = clamp(movement.x, Fixed { raw: -1000 }, Fixed { raw: 1000 });
    let mut mirrored: Option<bool> = None;
    if facing_direction.raw != 0 {
        let way: i8 = if facing_direction.raw > 0 {
            1
        } else {
            -1
        };
        actor.facing = Facing(way);
        mirrored = Some(flip_sprite(way));
    }
    let actions: Vec<Action> = drain_actions(controller);
    let push: Fixed = movement.x.times(actor.speed.accel);
    let vx: Fixed = actor.body.velocity.0.x;
    let next: Fixed = if vx.plus(push).abs().raw < actor.speed.max.raw {
        vx.plus(push)
    } else if vx.raw < 0 {
        actor.speed.max.neg()
    } else {
        actor.speed.max
    };
    actor.body.velocity = Velocity(Vec2 { x: next, y: actor.body.velocity.0.y });
    let animation: AnimationState = if movement.x.raw != 0 {
        AnimationState::Run
    } else {
        AnimationState::Idle
    };
    controller.reset_movement();
    CommandOutcome { animation, mirrored, actions }
}

/// The actor after it jumped: lifted by `JUMP_LIFT` to clear the ground,
/// gravity on, no longer grounded, rising at its jump force.
pub open spec fn launched(a: Actor) -> Actor {
    Actor {
        body: Body {
            position: Vec2 {
                x: a.body.position.x,
                y: a.body.position.y.plus(Fixed { raw: JUMP_LIFT }),
            },
            velocity: Velocity(Vec2 { x: a.body.velocity.0.x, y: a.jump_force.0 }),
            attraction: GravitationalAttraction { is_active: true },
            ..a.body
        },
        grounded: Grounded(false),
        ..a
    }
}

/// Makes the actor jump.
pub fn jump_system(actor: &mut Actor)
    ensures
        *final(actor) == launched(*old(actor)),
{
    actor.body.position = Vec2 {
        x: actor.body.position.x,
        y: actor.body.position.y.plus(Fixed { raw: JUMP_LIFT }),
    };
    actor.body.attraction = GravitationalAttraction { is_active: true };
    actor.grounded = Grounded(false);
    actor.body.velocity = Velocity(Vec2 { x: actor.body.velocity.0.x, y: actor.jump_force.0 });
}

/// The way a wall kick goes: `1` away from a wall on the left, `-1` away
/// from one on the right, and `0` where no wall is touched. A wall on the
/// left counts first.
pub open spec fn kick_way(data: CollisionData) -> i8 {
    if data.left {
        1i8
    } else if data.right {
        -1i8
    } else {
        0i8
    }
}

/// The actor after a wall kick was asked for. Without a wall on either
/// side nothing changes. Else the actor is pushed `WALL_KICK_NUDGE` away
/// from the wall, gravity is switched on, the velocity becomes the jump
/// force times `WALL_KICK_SIDE` away from the wall and times `WALL_KICK_UP`
/// upward, and the flag of that wall is cleared.
pub open spec fn kicked(a: Actor) -> Actor {
    let way = kick_way(a.collision_data);
    if way == 0 {
        a
    } else {
        Actor {
            body: Body {
                position: Vec2 {
                    x: a.body.position.x.plus(Fixed { raw: (WALL_KICK_NUDGE * way) as i64 }),
                    y: a.body.position.y,
                },
                velocity: Velocity(
                    Vec2 {
                        x: a.jump_force.0.times(Fixed { raw: (WALL_KICK_SIDE * way) as i64 }),
                        y: a.jump_force.0.times(Fixed { raw: WALL_KICK_UP }),
                    },
                ),
                attraction: GravitationalAttraction { is_active: true },
                ..a.body
            },
            collision_data: if way > 0 {
                CollisionData { left: false, ..a.collision_data }
            } else {
                CollisionData { right: false, ..a.collision_data }
            },
            ..a
        }
    }
}

/// Where the dust of a wall kick rises: at the middle of the side of the
/// actor that touched the wall, before the actor was pushed off.
pub open spec fn kick_dust_position(a: Actor) -> Vec2 {
    if kick_way(a.collision_data) > 0 {
        Vec2 { x: a.body.position.x.minus(a.collider.w.half()), y: a.body.position.y }
    } else {
        Vec2 { x: a.body.position.x.plus(a.collider.w.half()), y: a.body.position.y }
    }
}

/// The direction in which the dust of a wall kick flies: one unit away
/// from the wall and one unit up.
pub open spec fn kick_dust_direction(a: Actor) -> Vec2 {
    Vec2 {
        x: Fixed { raw: (1000 * kick_way(a.collision_data)) as i64 },
        y: Fixed { raw: 1000 },
    }
}

/// A wall kick that was made, for the dust it raises.
#[derive(Clone, Copy, Debug, PartialEq, Eq, Structural)]
pub struct WallKick {
    /// Where the dust rises.
    pub position: Vec2,
    /// The direction in which the dust flies.
    pub direction: Vec2,
    /// The way the actor faced.
    pub facing: i8,
}

/// The wall kick that an actor makes when one is asked for: none without
/// a wall on either side.
pub open spec fn kick_of(a: Actor) -> Option<WallKick> {
    if kick_way(a.collision_data) == 0 {
        None
    } else {
        Some(
            WallKick {
                position: kick_dust_position(a),
                direction: kick_dust_direction(a),
                facing: a.facing.0,
            },
        )
    }
}

/// Kicks the actor off the wall it touches, and tells of the kick.
pub fn kick_off(actor: &mut Actor) -> (kick: Option<WallKick>)
    ensures
        *final(actor) == kicked(*old(actor)),
        kick == kick_of(*old(actor)),
{
    let position: Vec2 = actor.body.position;
    let half: Fixed = actor.collider.w.half();
    let force: Fixed = actor.jump_force.0;
    if actor.collision_data.left {
        actor.body.position = Vec2 {
            x: position.x.plus(Fixed { raw: WALL_KICK_NUDGE }),
            y: position.y,
        };
        actor.body.attraction = GravitationalAttraction { is_active: true };
        actor.body.velocity = Velocity(
            Vec2 {
                x: force.times(Fixed { raw: WALL_KICK_SIDE }),
                y: force.times(Fixed { raw: WALL_KICK_UP }),
            },
        );
        actor.collision_data.left = false;
        Some(
            WallKick {
                position: Vec2 { x: position.x.minus(half), y: position.y },
                direction: Vec2 { x: Fixed { raw: 1000 }, y: Fixed { raw: 1000 } },
                facing: actor.facing.0,
            },
        )
    } else if actor.collision_data.right {
        actor.body.position = Vec2 {
            x: position.x.plus(Fixed { raw: -WALL_KICK_NUDGE }),
            y: position.y,
        };
        actor.body.attraction = GravitationalAttraction { is_active: true };
        actor.body.velocity = Velocity(
            Vec2 {
                x: force.times(Fixed { raw: -WALL_KICK_SIDE }),
                y: force.times(Fixed { raw: WALL_KICK_UP }),
            },
        );
        actor.collision_data.right = false;
        Some(
            WallKick {
                position: Vec2 { x: position.x.plus(half), y: position.y },
                direction: Vec2 { x: Fixed { raw: -1000 }, y: Fixed { raw: 1000 } },
                facing: actor.facing.0,
            },
        )
    } else {
        None
    }
}

/// The dust that a wall kick raises: `WALL_KICK_DUST` specks.
pub fn wall_kick_dust(kick: &WallKick) -> (dust: Vec<ParticleSpawn>)
    ensures
        dust@.len() == WALL_KICK_DUST,
        forall|i: int|
            0 <= i < dust@.len() ==> is_wall_dust(
                #[trigger] dust@[i],
                kick.position,
                kick.direction,
                kick.facing,
            ),
{
    spawn_wall_dust_particle(kick.position, kick.direction, kick.facing, WALL_KICK_DUST)
}

/// Kicks the actor off the wall it touches and returns the dust that the
/// kick raises: `WALL_KICK_DUST` specks for a kick, none without one.
pub fn wall_jump_system(actor: &mut Actor) -> (dust: Vec<ParticleSpawn>)
    ensures
        *final(actor) == kicked(*old(actor)),
        kick_way(old(actor).collision_data) == 0 ==> dust@.len() == 0,
        kick_way(old(actor).collision_data) != 0 ==> dust@.len() == WALL_KICK_DUST,
        forall|i: int|
            0 <= i < dust@.len() ==> is_wall_dust(
                #[trigger] dust@[i],
                kick_dust_position(*old(actor)),
                kick_dust_direction(*old(actor)),
                old(actor).facing.0,
            ),
{
    match kick_off(actor) {
        Some(kick) => wall_kick_dust(&kick),
        None => Vec::new(),
    }
}

/// Stretches a sprite for a jump: taller and thinner for `STRETCH_TIME`.
pub fn stretch_sprite(timer: &mut StretchTimer, scale: &mut Vec2)
    ensures
        final(timer).0 == (Timer {
            elapsed: Fixed { raw: 0 },
            duration: Fixed { raw: STRETCH_TIME },
            finished: false,
            repeating: old(timer).0.repeating,
        }),
        *final(scale) == (Vec2 { x: Fixed { raw: 900 }, y: Fixed { raw: 1100 } }),
{
    let mut t: Timer = timer.0;
    t.reset();
    t.duration = Fixed { raw: STRETCH_TIME };
    *timer = StretchTimer(t);
    *scale = Vec2 { x: Fixed { raw: 900 }, y: Fixed { raw: 1100 } };
}

/// Ages the stretch of a sprite by `delta` seconds and brings the sprite
/// back to its own proportions once the time is up.
pub fn stretch_to_normal_system(timer: &mut StretchTimer, scale: &mut Vec2, delta: Fixed)
    ensures
        final(timer).0 == old(timer).0.ticked(delta),
        final(timer).0.finished ==> *final(scale) == (Vec2 {
            x: Fixed { raw: 1000 },
            y: Fixed { raw: 1000 },
        }),
        !final(timer).0.finished ==> *final(scale) == *old(scale),
{
    let mut t: Timer = timer.0;
    t.tick(delta);
    *timer = StretchTimer(t);
    if t.finished {
        *scale = Vec2 { x: Fixed { raw: 1000 }, y: Fixed { raw: 1000 } };
    }
}

/// Fires a projectile from the crosshair, along the way from the actor to
/// the crosshair.
pub fn shoot_projectile_system(player_position: Vec2, crosshair_position: Vec2) -> (spawn:
    ProjectileSpawn)
    ensures
        is_shot(spawn, crosshair_position, crosshair_position.minus(player_position)),
{
    let direction: Vec2 = crate::util::get_direction(&player_position, &crosshair_position);
    fire(crosshair_position, direction)
}

/// The projectile at `position` has fallen out of a window of the size
/// `window`.
pub open spec fn out_of_bounds(window: Size, position: Vec2) -> bool {
    position.y@ < window.height.neg()@
}

/// Ages a projectile by `delta` seconds. One that has fallen out of the
/// window is to be removed at once, with nothing else changed. Else, while
/// its time runs, the sprite shrinks with the time that is left; once the
/// time is up the projectile is to be removed.
pub fn clean_projectile_system(
    window: &Size,
    position: Vec2,
    timer: &mut TimeToLive,
    sprite_size: &mut Vec2,
    delta: Fixed,
) -> (fate: Fate)
    ensures
        out_of_bounds(*window, position) ==> fate == Fate::Despawn && *final(timer) == *old(timer)
            && *final(sprite_size) == *old(sprite_size),
        !out_of_bounds(*window, position) ==> {
            &&& final(timer).0 == old(timer).0.ticked(delta)
            &&& final(timer).0.finished ==> fate == Fate::Despawn && *final(sprite_size) == *old(
                sprite_size,
            )
            &&& !final(timer).0.finished ==> fate == Fate::Keep && *final(sprite_size) == shrunk(
                final(timer).0,
            )
        },
{
    if position.y.raw < window.height.neg().raw {
        return Fate::Despawn;
    }
    let mut t: Timer = timer.0;
    t.tick(delta);
    *timer = TimeToLive(t);
    if !t.finished {
        let full: Vec2 = Vec2 { x: Fixed { raw: PROJECTILE_SIZE }, y: Fixed { raw: PROJECTILE_SIZE } };
        *sprite_size = full.scaled(t.percent_left());
        Fate::Keep
    } else {
        Fate::Despawn
    }
}

/// Where the crosshair goes: its distance away from the actor, toward the
/// cursor.
pub fn process_crosshair_system(
    player_position: Vec2,
    controller: &Controller,
    crosshair: &Crosshair,
) -> (mark: Vec2)
    ensures
        mark == set_aim(player_position, controller.cursor_position, crosshair.distance),
{
    set_aim(player_position, controller.cursor_position, crosshair.distance)
}

/// A shot that was asked for: from where the actor was, toward the mark.
#[derive(Clone, Copy, Debug, PartialEq, Eq, Structural)]
pub struct Aim {
    /// Where the actor was when the shot was asked for.
    pub from: Vec2,
    /// Where the crosshair was.
    pub mark: Vec2,
}

/// The actor after the first `n` of the waiting actions were carried out,
/// oldest first: a jump launches it, a wall jump kicks it off its wall, a
/// shot leaves it as it is.
pub open spec fn acted(a: Actor, actions: Seq<Action>, n: nat) -> Actor
    decreases n,
{
    if n == 0 {
        a
    } else {
        let before = acted(a, actions, (n - 1) as nat);
        match actions[n - 1] {
            Action::Jump => launched(before),
            Action::WallJump => kicked(before),
            Action::Shoot => before,
        }
    }
}

/// The wall kicks that the first `n` actions made, in order.
pub open spec fn kicks_made(a: Actor, actions: Seq<Action>, n: nat) -> Seq<WallKick>
    decreases n,
{
    if n == 0 {
        Seq::<WallKick>::empty()
    } else {
        let before = kicks_made(a, actions, (n - 1) as nat);
        match (actions[n - 1], kick_of(acted(a, actions, (n - 1) as nat))) {
            (Action::WallJump, Some(kick)) => before.push(kick),
            _ => before,
        }
    }
}

/// The shots that the first `n` actions asked for, in order.
pub open spec fn aims_taken(a: Actor, mark: Vec2, actions: Seq<Action>, n: nat) -> Seq<Aim>
    decreases n,
{
    if n == 0 {
        Seq::<Aim>::empty()
    } else {
        let before = aims_taken(a, mark, actions, (n - 1) as nat);
        match actions[n - 1] {
            Action::Shoot => before.push(
                Aim { from: acted(a, actions, (n - 1) as nat).body.position, mark },
            ),
            _ => before,
        }
    }
}

/// One of the first `n` actions is a jump of either kind.
pub open spec fn jump_among(actions: Seq<Action>, n: nat) -> bool
    decreases n,
{
    if n == 0 {
        false
    } else {
        jump_among(actions, (n - 1) as nat) || actions[n - 1] != Action::Shoot
    }
}

/// The body after the free part of a tick of this actor: moved at its
/// velocity, then slowed by drag, then pulled by gravity.
pub open spec fn drifted(body: Body, gravity: Gravity, dt: Fixed) -> Body {
    pulled(dragged(integrated(body, dt), dt), gravity, dt)
}

/// The actor after its commands and actions, before it moves.
pub open spec fn ordered_about(a: Actor, movement: Vec2, actions: Seq<Action>) -> Actor {
    acted(commanded(a, movement), actions, actions.len())
}

/// The actor after it has moved, before its contacts are settled.
pub open spec fn moved_on(
    a: Actor,
    movement: Vec2,
    actions: Seq<Action>,
    gravity: Gravity,
    dt: Fixed,
) -> Actor {
    let told = ordered_about(a, movement, actions);
    Actor { body: drifted(told.body, gravity, dt), ..told }
}

/// The actor after one tick: commands and actions, movement with drag and
/// gravity, the settling of its contacts against the obstacles in their
/// order as seen from the actor, and the shaping of the jump's arc.
pub open spec fn actor_stepped(
    a: Actor,
    movement: Vec2,
    actions: Seq<Action>,
    obstacles: Seq<Obstacle>,
    gravity: Gravity,
    jump_held: bool,
    dt: Fixed,
) -> Actor {
    let moved = moved_on(a, movement, actions, gravity, dt);
    let settled = contacts_settled(
        moved,
        collisions_in_order(moved.body.position, moved.collider.get_size(), obstacles),
    );
    Actor { body: jump_adjusted(settled.body, gravity, jump_held, dt), ..settled }
}

/// What a tick of the actor hands to the layers that draw and spawn.
pub struct ActorEvents {
    /// The animation to show.
    pub animation: AnimationState,
    /// Whether the sprite is to be mirrored; `None` where it stays as it is.
    pub mirrored: Option<bool>,
    /// Where the crosshair goes.
    pub mark: Vec2,
    /// The actor jumped, off the ground or off a wall.
    pub jumped: bool,
    /// The wall kicks that were made, for their dust.
    pub kicks: Vec<WallKick>,
    /// The shots that were asked for.
    pub aims: Vec<Aim>,
    /// The actor landed.
    pub landed: Option<Landed>,
}

/// Carries out the waiting actions, oldest first.
fn carry_out(actor: &mut Actor, mark: Vec2, actions: &Vec<Action>) -> (made: (Vec<WallKick>, Vec<Aim>, bool))
    ensures
        *final(actor) == acted(*old(actor), actions@, actions@.len()),
        made.0@ == kicks_made(*old(actor), actions@, actions@.len()),
        made.1@ == aims_taken(*old(actor), mark, actions@, actions@.len()),
        made.2 == jump_among(actions@, actions@.len()),
{
    let mut kicks: Vec<WallKick> = Vec::new();
    let mut aims: Vec<Aim> = Vec::new();
    let mut jumped: bool = false;
    let mut i: usize = 0;
    while i < actions.len()
        invariant
            i <= actions@.len(),
            *actor == acted(*old(actor), actions@, i as nat),
            kicks@ == kicks_made(*old(actor), actions@, i as nat),
            aims@ == aims_taken(*old(actor), mark, actions@, i as nat),
            jumped == jump_among(actions@, i as nat),
        decreases actions@.len() - i,
    {
        match actions[i] {
            Action::Jump => {
                jump_system(actor);
                jumped = true;
            },
            Action::WallJump => {
                match kick_off(actor) {
                    Some(kick) => {
                        kicks.push(kick);
                    },
                    None => {},
                }
                jumped = true;
            },
            Action::Shoot => {
                aims.push(Aim { from: actor.body.position, mark });
            },
        }
        i += 1;
    }
    (kicks, aims, jumped)
}

/// Runs one tick of `dt` seconds for the actor that is driven by
/// acceleration: places the crosshair, carries out the commands and the
/// waiting actions, moves the actor, settles its contacts and shapes the
/// arc of its jump.
pub fn actor_step(
    controller: &mut Controller,
    actor: &mut Actor,
    crosshair: &Crosshair,
    obstacles: &Vec<Obstacle>,
    gravity: &Gravity,
    jump_held: bool,
    dt: Fixed,
) -> (events: ActorEvents)
    ensures
        *final(actor) == actor_stepped(
            *old(actor),
            old(controller).movement,
            old(controller).movement_action@,
            obstacles@,
            *gravity,
            jump_held,
            dt,
        ),
        final(controller).movement@ == (0int, 0int),
        final(controller).movement_action@ == Seq::<Action>::empty(),
        final(controller).cursor_position == old(controller).cursor_position,
        events.mark == set_aim(
            old(actor).body.position,
            old(controller).cursor_position,
            crosshair.distance,
        ),
        heading(old(controller).movement).x@ != 0 ==> events.animation == AnimationState::Run
            && events.mirrored == Some(
            flip_sprite(commanded(*old(actor), old(controller).movement).facing.0),
        ),
        heading(old(controller).movement).x@ == 0 ==> events.animation == AnimationState::Idle
            && events.mirrored is None,
        events.jumped == jump_among(
            old(controller).movement_action@,
            old(controller).movement_action@.len(),
        ),
        events.kicks@ == kicks_made(
            commanded(*old(actor), old(controller).movement),
            old(controller).movement_action@,
            old(controller).movement_action@.len(),
        ),
        events.aims@ == aims_taken(
            commanded(*old(actor), old(controller).movement),
            events.mark,
            old(controller).movement_action@,
            old(controller).movement_action@.len(),
        ),
        events.landed == ({
            let moved = moved_on(
                *old(actor),
                old(controller).movement,
                old(controller).movement_action@,
                *gravity,
                dt,
            );
            touchdown(
                moved,
                collisions_in_order(moved.body.position, moved.collider.get_size(), obstacles@),
            )
        }),
{
    let mark: Vec2 = process_crosshair_system(actor.body.position, controller, crosshair);
    let outcome: CommandOutcome = process_commands_system(controller, actor);
    let made: (Vec<WallKick>, Vec<Aim>, bool) = carry_out(actor, mark, &outcome.actions);
    let mut body: Body = actor.body;
    apply_velocity(&mut body, dt);
    apply_drag(&mut body, dt);
    apply_gravity(&mut body, gravity, dt);
    actor.body = body;
    let found: Vec<GroundCollisionEvent> = find_collisions(
        actor.body.position,
        &actor.collider,
        obstacles,
    );
    let landed: Option<Landed> = collider_contact_system(actor, &found);
    let mut settled: Body = actor.body;
    adjust_jump(&mut settled, gravity, jump_held, dt);
    actor.body = settled;
    ActorEvents {
        animation: outcome.animation,
        mirrored: outcome.mirrored,
        mark,
        jumped: made.2,
        kicks: made.0,
        aims: made.1,
        landed,
    }
}

} // verus!
