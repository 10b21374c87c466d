//! From the player's intents to the actor's velocity.
use vstd::prelude::*;
use crate::animation::AnimationState;
use crate::comp::physics::Body;
use crate::comp::physics::CollisionData;
use crate::comp::physics::Gravity;
use crate::comp::physics::GravitationalAttraction;
use crate::comp::physics::Velocity;
use crate::fixed::Fixed;
use crate::player::jump;
use crate::player::jumped;
use crate::player::wall_jump;
use crate::player::wall_jumped;
use crate::player::Player;
use crate::player::WallJumped;
use crate::sys::physics::shape_jump;
use crate::sys::physics::shaped_jump;
use crate::tuning::CLIMB_DOWN_SPEED;
use crate::tuning::CLIMB_UP_SPEED;
use crate::tuning::JUMP_NUDGE;
use crate::tuning::WALL_JUMP_LIFT;
use crate::tuning::WALL_NUDGE;
use crate::vec2::Vec2;

verus! {

/// What the player asks for during one tick.
#[derive(Clone, Copy, Debug, PartialEq, Eq, Structural)]
pub struct InputIntents {
    /// The key for moving left is down.
    pub move_left: bool,
    /// The key for moving right is down.
    pub move_right: bool,
    /// The jump key went down this tick.
    pub jump_pressed: bool,
    /// The jump key is down.
    pub jump_held: bool,
    /// The key for climbing is down.
    pub climb_up: bool,
    /// The key for sliding down is down.
    pub climb_down: bool,
}

impl InputIntents {
    /// Nothing is asked for.
    pub fn none() -> (input: InputIntents)
        ensures
            input == (InputIntents {
                move_left: false,
                move_right: false,
                jump_pressed: false,
                jump_held: false,
                climb_up: false,
                climb_down: false,
            }),
    {
        InputIntents {
            move_left: false,
            move_right: false,
            jump_pressed: false,
            jump_held: false,
            climb_up: false,
            climb_down: false,
        }
    }
}

/// What the input step reports besides the new state of the actor.
#[derive(Clone, Copy, Debug, PartialEq, Eq, Structural)]
pub struct InputOutcome {
    /// The animation to show.
    pub animation: AnimationState,
    /// The actor kicked off a wall.
    pub wall_jumped: Option<WallJumped>,
    /// The actor jumped off the ground.
    pub left_ground: bool,
}

/// The states that an actor moves through.
#[derive(Clone, Copy, Debug, PartialEq, Eq, Structural)]
pub enum MotionState {
    /// Standing, at rest sideways.
    Idle,
    /// Standing, moving sideways.
    Grounded,
    /// In the air, away from any wall.
    Airborne,
    /// In the air, with a wall on either side or within reach of the
    /// wall probe.
    WallAdjacent,
}

/// The state that an actor is in, as a value.
pub open spec fn spec_motion_state(p: Player) -> MotionState {
    if p.collision_data.below {
        if p.body.velocity.0.x@ == 0 {
            MotionState::Idle
        } else {
            MotionState::Grounded
        }
    } else if p.collision_data.either_side() || p.collision_data.touching_wall {
        MotionState::WallAdjacent
    } else {
        MotionState::Airborne
    }
}

/// Tells the state that an actor is in.
pub fn motion_state(p: &Player) -> (state: MotionState)
    ensures
        state == spec_motion_state(*p),
{
    if p.collision_data.below {
        if p.body.velocity.0.x.raw == 0 {
            MotionState::Idle
        } else {
            MotionState::Grounded
        }
    } else if p.collision_data.either_side() || p.collision_data.touching_wall {
        MotionState::WallAdjacent
    } else {
        MotionState::Airborne
    }
}

/// What a press of the jump key leads to.
#[derive(Clone, Copy, Debug, PartialEq, Eq, Structural)]
pub enum JumpKind {
    /// Nothing: no jump is left.
    Rejected,
    /// A jump off the ground.
    Ground,
    /// A kick off a wall.
    Wall,
    /// A jump in the air.
    Air,
}

/// What a press of the jump key leads to, as a value. An actor on the
/// ground jumps off it and one in the air jumps again, each if a jump is
/// left. An actor in the air with a wall on either side kicks off it
/// whether a jump is left or not.
pub open spec fn spec_jump_kind(p: Player) -> JumpKind {
    if p.collision_data.below {
        if p.jumps.jumps_remaining == 0 {
            JumpKind::Rejected
        } else {
            JumpKind::Ground
        }
    } else if p.collision_data.either_side() {
        JumpKind::Wall
    } else if p.jumps.jumps_remaining == 0 {
        JumpKind::Rejected
    } else {
        JumpKind::Air
    }
}

/// Decides what a press of the jump key leads to.
pub fn jump_kind(p: &Player) -> (kind: JumpKind)
    ensures
        kind == spec_jump_kind(*p),
{
    if p.collision_data.below {
        if p.jumps.jumps_remaining == 0 {
            JumpKind::Rejected
        } else {
            JumpKind::Ground
        }
    } else if p.collision_data.either_side() {
        JumpKind::Wall
    } else if p.jumps.jumps_remaining == 0 {
        JumpKind::Rejected
    } else {
        JumpKind::Air
    }
}

/// The way a wall jump goes: `-1` away from a wall on the right, else `1`.
pub open spec fn kick_direction(p: Player) -> i8 {
    if p.collision_data.right {
        -1i8
    } else {
        1i8
    }
}

/// The actor with gravity switched on.
pub open spec fn released(p: Player) -> Player {
    Player {
        body: Body { attraction: GravitationalAttraction { is_active: true }, ..p.body },
        ..p
    }
}

/// The actor lifted off the ground for a jump: raised by `JUMP_NUDGE` so
/// that it clears the surface, no longer remembered as standing, gravity on.
pub open spec fn lifted(p: Player) -> Player {
    Player {
        body: Body {
            position: Vec2 {
                x: p.body.position.x,
                y: p.body.position.y.plus(Fixed { raw: JUMP_NUDGE }),
            },
            attraction: GravitationalAttraction { is_active: true },
            ..p.body
        },
        collision_data: CollisionData { prev_below: false, ..p.collision_data },
        did_jump: true,
        ..p
    }
}

/// The actor pushed off the wall it touches: moved `WALL_NUDGE` away from
/// it, facing away from it, wall-jumping, gravity on.
pub open spec fn pushed_off(p: Player) -> Player {
    Player {
        body: Body {
            position: Vec2 {
                x: p.body.position.x.plus(
                    Fixed { raw: (WALL_NUDGE * kick_direction(p)) as i64 },
                ),
                y: p.body.position.y,
            },
            attraction: GravitationalAttraction { is_active: true },
            ..p.body
        },
        collision_data: CollisionData {
            is_wall_jumping: true,
            facing_direction: kick_direction(p),
            ..p.collision_data
        },
        ..p
    }
}

/// The direction of a wall jump: one unit away from the wall and
/// `WALL_JUMP_LIFT` units up.
pub open spec fn kick_vector(p: Player) -> Vec2 {
    Vec2 {
        x: Fixed { raw: (1000 * kick_direction(p)) as i64 },
        y: Fixed { raw: WALL_JUMP_LIFT },
    }
}

/// The actor after a press of the jump key.
pub open spec fn jump_requested(p: Player) -> Player {
    match spec_jump_kind(p) {
        JumpKind::Rejected => p,
        JumpKind::Ground => jumped(lifted(p)),
        JumpKind::Wall => wall_jumped(pushed_off(p), kick_vector(p)),
        JumpKind::Air => jumped(released(p)),
    }
}

/// Carries out a press of the jump key.
pub fn request_jump(player: &mut Player) -> (kind: JumpKind)
    ensures
        kind == spec_jump_kind(*old(player)),
        *final(player) == jump_requested(*old(player)),
        old(player).jumps.wf() ==> final(player).jumps.wf() && final(player).jumps.max_jumps == old(
            player,
        ).jumps.max_jumps,
{
    let kind: JumpKind = jump_kind(player);
    match kind {
        JumpKind::Rejected => {},
        JumpKind::Ground => {
            player.body.position = Vec2 {
                x: player.body.position.x,
                y: player.body.position.y.plus(Fixed { raw: JUMP_NUDGE }),
            };
            player.body.attraction = GravitationalAttraction { is_active: true };
            player.collision_data.prev_below = false;
            player.did_jump = true;
            jump(player);
        },
        JumpKind::Wall => {
            let away: i8 = if player.collision_data.right {
                -1
            } else {
                1
            };
            let nudge: i64 = if player.collision_data.right {
                -WALL_NUDGE
            } else {
                WALL_NUDGE
            };
            let unit: i64 = if player.collision_data.right {
                -1000
            } else {
                1000
            };
            player.body.position = Vec2 {
                x: player.body.position.x.plus(Fixed { raw: nudge }),
                y: player.body.position.y,
            };
            player.body.attraction = GravitationalAttraction { is_active: true };
            player.collision_data.is_wall_jumping = true;
            player.collision_data.facing_direction = away;
            wall_jump(player, Vec2 { x: Fixed { raw: unit }, y: Fixed { raw: WALL_JUMP_LIFT } });
        },
        JumpKind::Air => {
            player.body.attraction = GravitationalAttraction { is_active: true };
            jump(player);
        },
    }
    kind
}

/// The horizontal velocity that the held keys ask for: the ground speed
/// for an actor that stands and the air speed for one that does not, to
/// the right where the right key is down, else to the left where the left
/// key is down, else none.
pub open spec fn desired_velocity(p: Player, input: InputIntents) -> Fixed {
    let pace = if p.collision_data.below {
        p.speed
    } else {
        p.air_speed
    };
    if input.move_right {
        pace
    } else if input.move_left {
        pace.neg()
    } else {
        Fixed { raw: 0 }
    }
}

/// The facing direction after the held keys were read: toward the desired
/// velocity, and unchanged where there is none.
pub open spec fn turned(facing: i8, desired: Fixed) -> i8 {
    if desired@ > 0 {
        1i8
    } else if desired@ < 0 {
        -1i8
    } else {
        facing
    }
}

/// The horizontal velocity after the held keys were read. The desired
/// velocity replaces the old one. During a wall jump it is added instead,
/// to keep the momentum of the kick, until the speed exceeds the air speed.
pub open spec fn steered(p: Player, desired: Fixed) -> Fixed {
    if p.collision_data.is_wall_jumping && !(p.body.velocity.0.x.abs()@ > p.air_speed@) {
        p.body.velocity.0.x.plus(desired)
    } else {
        desired
    }
}

/// The vertical velocity after the climb keys were read: against a wall,
/// down at `CLIMB_DOWN_SPEED` where the down key is held, else up at
/// `CLIMB_UP_SPEED` where the up key is held, else unchanged.
pub open spec fn climbed(p: Player, input: InputIntents) -> Fixed {
    if p.collision_data.touching_wall && input.climb_down {
        Fixed { raw: (-CLIMB_DOWN_SPEED) as i64 }
    } else if p.collision_data.touching_wall && input.climb_up {
        Fixed { raw: CLIMB_UP_SPEED }
    } else {
        p.body.velocity.0.y
    }
}

/// The actor after the held keys were read.
pub open spec fn moved(p: Player, input: InputIntents) -> Player {
    let desired = desired_velocity(p, input);
    Player {
        body: Body {
            velocity: Velocity(Vec2 { x: steered(p, desired), y: climbed(p, input) }),
            ..p.body
        },
        collision_data: CollisionData {
            facing_direction: turned(p.collision_data.facing_direction, desired),
            ..p.collision_data
        },
        ..p
    }
}

/// The actor after one tick of input: first a press of the jump key, then
/// the held keys.
pub open spec fn input_applied(p: Player, input: InputIntents) -> Player {
    if input.jump_pressed {
        moved(jump_requested(p), input)
    } else {
        moved(p, input)
    }
}

/// What one tick of input reports.
pub open spec fn input_outcome(p: Player, input: InputIntents) -> InputOutcome {
    let after = input_applied(p, input);
    InputOutcome {
        animation: if after.body.velocity.0.x@ != 0 {
            AnimationState::Run
        } else {
            AnimationState::Idle
        },
        wall_jumped: if input.jump_pressed && spec_jump_kind(p) == JumpKind::Wall {
            Some(
                WallJumped {
                    position: jump_requested(p).body.position,
                    direction: kick_direction(p),
                },
            )
        } else {
            None
        },
        left_ground: input.jump_pressed && spec_jump_kind(p) == JumpKind::Ground,
    }
}

/// Reads the held keys: sets the horizontal velocity, the facing direction
/// and, against a wall, the climbing speed.
pub fn apply_held_keys(player: &mut Player, input: &InputIntents)
    ensures
        *final(player) == moved(*old(player), *input),
{
    let pace: Fixed = if player.collision_data.below {
        player.speed
    } else {
        player.air_speed
    };
    let desired: Fixed = if input.move_right {
        pace
    } else if input.move_left {
        pace.neg()
    } else {
        Fixed { raw: 0 }
    };
    let vx: Fixed = if player.collision_data.is_wall_jumping && !(player.body.velocity.0.x.abs().raw
        > player.air_speed.raw) {
        player.body.velocity.0.x.plus(desired)
    } else {
        desired
    };
    let vy: Fixed = if player.collision_data.touching_wall && input.climb_down {
        Fixed { raw: -CLIMB_DOWN_SPEED }
    } else if player.collision_data.touching_wall && input.climb_up {
        Fixed { raw: CLIMB_UP_SPEED }
    } else {
        player.body.velocity.0.y
    };
    if desired.raw > 0 {
        player.collision_data.facing_direction = 1;
    } else if desired.raw < 0 {
        player.collision_data.facing_direction = -1;
    }
    player.body.velocity = Velocity(Vec2 { x: vx, y: vy });
}

/// Turns the intents of one tick into the actor's velocity, facing and
/// jumps.
pub fn player_input_system(player: &mut Player, input: &InputIntents) -> (outcome: InputOutcome)
    ensures
        *final(player) == input_applied(*old(player), *input),
        outcome == input_outcome(*old(player), *input),
        old(player).jumps.wf() ==> final(player).jumps.wf() && final(player).jumps.max_jumps == old(
            player,
        ).jumps.max_jumps,
{
    let mut wall_jumped: Option<WallJumped> = None;
    let mut left_ground: bool = false;
    if input.jump_pressed {
        let away: i8 = if player.collision_data.right {
            -1
        } else {
            1
        };
        let kind: JumpKind = request_jump(player);
        match kind {
            JumpKind::Wall => {
                wall_jumped = Some(WallJumped { position: player.body.position, direction: away });
            },
            JumpKind::Ground => {
                left_ground = true;
            },
            _ => {},
        }
    }
    apply_held_keys(player, input);
    let animation: AnimationState = if player.body.velocity.0.x.raw != 0 {
        AnimationState::Run
    } else {
        AnimationState::Idle
    };
    InputOutcome { animation, wall_jumped, left_ground }
}

/// The actor after the arc of its jump was shaped for `dt` seconds:
/// untouched while it stands or touches a wall, else with the vertical
/// speed of [`shaped_jump`].
pub open spec fn arc_shaped(p: Player, gravity: Gravity, jump_held: bool, dt: Fixed) -> Player {
    if p.collision_data.below || p.collision_data.touching_wall {
        p
    } else {
        Player {
            body: Body {
                velocity: Velocity(
                    Vec2 {
                        x: p.body.velocity.0.x,
                        y: shaped_jump(p.body.velocity.0.y, gravity, jump_held, dt),
                    },
                ),
                ..p.body
            },
            ..p
        }
    }
}

/// Makes the actor fall faster than it rises, and cuts its jump short when
/// the jump key is let go while it still rises.
pub fn adjust_jump_system(player: &mut Player, gravity: &Gravity, jump_held: bool, dt: Fixed)
    ensures
        *final(player) == arc_shaped(*old(player), *gravity, jump_held, dt),
{
    if player.collision_data.below || player.collision_data.touching_wall {
        return ;
    }
    let vy: Fixed = shape_jump(player.body.velocity.0.y, gravity, jump_held, dt);
    player.body.velocity = Velocity(Vec2 { x: player.body.velocity.0.x, y: vy });
}

/// Whether the sprite is mirrored, as a value: an actor shows the way it
/// faces, and the other way while it clings to a wall.
pub open spec fn spec_flip_sprite_system(p: Player) -> bool {
    (p.collision_data.facing_direction > 0) == p.collision_data.touching_wall
}

/// Tells whether the actor's sprite is to be mirrored.
pub fn flip_sprite_system(p: &Player) -> (mirrored: bool)
    ensures
        mirrored == spec_flip_sprite_system(*p),
{
    (p.collision_data.facing_direction > 0) == p.collision_data.touching_wall
}

} // verus!
