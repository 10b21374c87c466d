//! The actor that the player steers: its state, its jumps, and the pass that
//! resolves its contacts with the obstacles of the level.
use vstd::prelude::*;
use crate::collide_aabb::Collision;
use crate::comp::physics::Body;
use crate::comp::physics::ColliderBox;
use crate::comp::physics::CollisionData;
use crate::comp::physics::GravitationalAttraction;
use crate::comp::physics::Velocity;
use crate::fixed::Fixed;
use crate::fixed::trunc_div;
use crate::nearest::in_order;
use crate::nearest::sort_by_distance;
use crate::obstacle::contact_side;
use crate::obstacle::Obstacle;
use crate::sys::physics::probe_obstacle;
use crate::tuning::AIR_JUMP_ADJUSTER;
use crate::tuning::JUMP_SCALE;
use crate::tuning::SNAP_EPSILON;
use crate::tuning::TOTAL_NUMBER_OF_JUMPS;
use crate::tuning::WALL_JUMP_SCALE;
use crate::vec2::Vec2;

verus! {

/// How many jumps an actor has left before it must land or kick off a wall.
#[derive(Clone, Copy, Debug, PartialEq, Eq, Structural)]
pub struct JumpState {
    /// Jumps left.
    pub jumps_remaining: usize,
    /// Jumps granted on landing and on a wall jump.
    pub max_jumps: usize,
}

impl JumpState {
    /// A full count of the usual number of jumps.
    pub fn new() -> (state: JumpState)
        ensures
            state.jumps_remaining == TOTAL_NUMBER_OF_JUMPS,
            state.max_jumps == TOTAL_NUMBER_OF_JUMPS,
            state.wf(),
    {
        JumpState { jumps_remaining: TOTAL_NUMBER_OF_JUMPS, max_jumps: TOTAL_NUMBER_OF_JUMPS }
    }

    /// No more jumps are left than are ever granted.
    pub open spec fn wf(&self) -> bool {
        self.jumps_remaining <= self.max_jumps
    }

    /// The count after it was filled up again.
    pub open spec fn refilled(self) -> JumpState {
        JumpState { jumps_remaining: self.max_jumps, ..self }
    }
}

/// The actor landed: it stands on an obstacle and did not when contacts were
/// last resolved.
#[derive(Clone, Copy, Debug, PartialEq, Eq, Structural)]
pub struct Landed {
    /// Where the feet of the actor were when the pass began.
    pub position: Vec2,
}

/// The actor kicked off a wall.
#[derive(Clone, Copy, Debug, PartialEq, Eq, Structural)]
pub struct WallJumped {
    /// Where the actor was, after it was pushed off the wall.
    pub position: Vec2,
    /// `1` for a kick to the right, `-1` for one to the left.
    pub direction: i8,
}

/// Everything one actor owns.
#[derive(Clone, Copy, Debug, PartialEq, Eq, Structural)]
pub struct Player {
    /// Position, velocity, drag and the gravity switch.
    pub body: Body,
    /// Extents of the actor.
    pub collider: ColliderBox,
    /// What the actor touches.
    pub collision_data: CollisionData,
    /// Jumps left.
    pub jumps: JumpState,
    /// Horizontal speed on the ground.
    pub speed: Fixed,
    /// Horizontal speed in the air.
    pub air_speed: Fixed,
    /// Strength of a jump.
    pub jump_force: Fixed,
    /// The actor has jumped off the ground since it last landed.
    pub did_jump: bool,
}

impl Player {
    /// An actor at `position` with the usual numbers, as a value.
    pub open spec fn spec_new(position: Vec2, collider: ColliderBox) -> Player {
        Player {
            body: Body {
                position,
                velocity: Velocity(Vec2 { x: Fixed { raw: 0 }, y: Fixed { raw: 0 } }),
                drag: crate::comp::physics::Drag(Fixed { raw: 0 }),
                attraction: GravitationalAttraction { is_active: true },
            },
            collider,
            collision_data: CollisionData {
                left: false,
                right: false,
                above: false,
                below: false,
                touching_wall: false,
                facing_direction: 1,
                prev_below: false,
                is_wall_jumping: false,
            },
            jumps: JumpState {
                jumps_remaining: TOTAL_NUMBER_OF_JUMPS,
                max_jumps: TOTAL_NUMBER_OF_JUMPS,
            },
            speed: Fixed { raw: 200_000 },
            air_speed: Fixed { raw: 180_000 },
            jump_force: Fixed { raw: 10_000 },
            did_jump: false,
        }
    }

    /// An actor at `position` with the usual numbers: speed 200 on the
    /// ground and 180 in the air, jump force 10, two jumps, at rest, without
    /// drag, facing right, touching nothing.
    #[verifier::when_used_as_spec(spec_new)]
    pub fn new(position: Vec2, collider: ColliderBox) -> (p: Player)
        ensures
            p == Player::spec_new(position, collider),
            p.wf(),
    {
        Player {
            body: Body::new(position),
            collider,
            collision_data: CollisionData::default(),
            jumps: JumpState::new(),
            speed: Fixed { raw: 200_000 },
            air_speed: Fixed { raw: 180_000 },
            jump_force: Fixed { raw: 10_000 },
            did_jump: false,
        }
    }

    /// The jump count and the facing direction are in their ranges.
    pub open spec fn wf(&self) -> bool {
        self.jumps.wf() && self.collision_data.wf()
    }

    /// Half the width of the actor, in thousandths.
    pub open spec fn half_width(&self) -> int {
        trunc_div(self.collider.w@, 2)
    }

    /// Half the height of the actor, in thousandths.
    pub open spec fn half_height(&self) -> int {
        trunc_div(self.collider.h@, 2)
    }
}

/// The upward speed of a jump made with `jumps` left: the jump force times
/// `JUMP_SCALE`, in full for the first jump of a chain and at
/// `AIR_JUMP_ADJUSTER` for the ones after it.
pub open spec fn jump_speed(jump_force: Fixed, jumps: JumpState) -> Fixed {
    let adjuster = if jumps.jumps_remaining == jumps.max_jumps {
        Fixed { raw: 1000 }
    } else {
        Fixed { raw: AIR_JUMP_ADJUSTER }
    };
    jump_force.times(Fixed { raw: JUMP_SCALE }).times(adjuster)
}

/// The actor after a jump was asked for. With no jump left nothing changes.
/// Else the actor leaves the ground, its vertical speed becomes the jump
/// speed, and one jump is used up.
pub open spec fn jumped(p: Player) -> Player {
    if p.jumps.jumps_remaining == 0 {
        p
    } else {
        Player {
            body: Body {
                velocity: Velocity(
                    Vec2 { x: p.body.velocity.0.x, y: jump_speed(p.jump_force, p.jumps) },
                ),
                ..p.body
            },
            collision_data: CollisionData { below: false, ..p.collision_data },
            jumps: JumpState {
                jumps_remaining: (p.jumps.jumps_remaining - 1) as usize,
                ..p.jumps
            },
            ..p
        }
    }
}

/// Makes the actor jump, if it has a jump left.
pub fn jump(player: &mut Player)
    ensures
        *final(player) == jumped(*old(player)),
        old(player).jumps.wf() ==> final(player).jumps.wf(),
        final(player).jumps.jumps_remaining <= old(player).jumps.jumps_remaining,
{
    if player.jumps.jumps_remaining == 0 {
        return ;
    }
    player.collision_data.below = false;
    let adjuster: Fixed = if player.jumps.jumps_remaining == player.jumps.max_jumps {
        Fixed { raw: 1000 }
    } else {
        Fixed { raw: AIR_JUMP_ADJUSTER }
    };
    let vy: Fixed = player.jump_force.times(Fixed { raw: JUMP_SCALE }).times(adjuster);
    player.body.velocity = Velocity(Vec2 { x: player.body.velocity.0.x, y: vy });
    player.jumps.jumps_remaining = player.jumps.jumps_remaining - 1;
}

/// The actor after it kicked off a wall along `direction`: its velocity is
/// the jump force times `WALL_JUMP_SCALE` along each component of the
/// direction, and its jumps are filled up again.
pub open spec fn wall_jumped(p: Player, direction: Vec2) -> Player {
    let force = p.jump_force.times(Fixed { raw: WALL_JUMP_SCALE });
    Player {
        body: Body {
            velocity: Velocity(Vec2 { x: force.times(direction.x), y: force.times(direction.y) }),
            ..p.body
        },
        jumps: p.jumps.refilled(),
        ..p
    }
}

/// Kicks the actor off a wall along `direction`.
pub fn wall_jump(player: &mut Player, direction: Vec2)
    ensures
        *final(player) == wall_jumped(*old(player), direction),
        final(player).jumps.jumps_remaining == old(player).jumps.max_jumps,
        final(player).jumps.wf(),
{
    let force: Fixed = player.jump_force.times(Fixed { raw: WALL_JUMP_SCALE });
    player.body.velocity = Velocity(
        Vec2 { x: force.times(direction.x), y: force.times(direction.y) },
    );
    player.jumps.jumps_remaining = player.jumps.max_jumps;
}

/// The actor at the start of a pass: gravity on, directional flags cleared.
pub open spec fn pass_begun(p: Player) -> Player {
    Player {
        body: Body { attraction: GravitationalAttraction { is_active: true }, ..p.body },
        collision_data: p.collision_data.cleared(),
        ..p
    }
}

/// The actor set down on top of `o`: lifted to rest a hair above its top
/// edge, jumps filled up, no longer wall-jumping, carried along by the
/// obstacle, gravity off.
pub open spec fn grounded_on(p: Player, o: Obstacle) -> Player {
    Player {
        body: Body {
            position: Vec2 {
                x: p.body.position.x,
                y: Fixed::of(o.top() + p.half_height() + SNAP_EPSILON),
            },
            velocity: Velocity(
                Vec2 { x: p.body.velocity.0.x.plus(o.velocity.0.x), y: p.body.velocity.0.y },
            ),
            attraction: GravitationalAttraction { is_active: false },
            ..p.body
        },
        collision_data: CollisionData {
            below: true,
            prev_below: true,
            is_wall_jumping: false,
            ..p.collision_data
        },
        jumps: p.jumps.refilled(),
        ..p
    }
}

/// The actor pushed out of `o`, which lies on its right: set a hair left of
/// the obstacle's left edge, carried along by the obstacle, flagged.
pub open spec fn blocked_right_by(p: Player, o: Obstacle) -> Player {
    Player {
        body: Body {
            position: Vec2 {
                x: Fixed::of(o.left() - p.half_width() - SNAP_EPSILON),
                y: p.body.position.y,
            },
            velocity: Velocity(
                Vec2 { x: p.body.velocity.0.x.plus(o.velocity.0.x), y: p.body.velocity.0.y },
            ),
            ..p.body
        },
        collision_data: CollisionData { right: true, ..p.collision_data },
        ..p
    }
}

/// The actor pushed out of `o`, which lies on its left: set a hair right of
/// the obstacle's right edge, carried along by the obstacle, flagged.
pub open spec fn blocked_left_by(p: Player, o: Obstacle) -> Player {
    Player {
        body: Body {
            position: Vec2 {
                x: Fixed::of(o.right() + p.half_width() + SNAP_EPSILON),
                y: p.body.position.y,
            },
            velocity: Velocity(
                Vec2 { x: p.body.velocity.0.x.plus(o.velocity.0.x), y: p.body.velocity.0.y },
            ),
            ..p.body
        },
        collision_data: CollisionData { left: true, ..p.collision_data },
        ..p
    }
}

/// The centre of an actor that began the pass at `start` lies below the top
/// edge of `o`, so that `o` can be a wall to it.
pub open spec fn beside(start: Vec2, o: Obstacle) -> bool {
    start.y@ < o.top()
}

/// The actor after its contact with one obstacle was resolved. `start` is
/// where the actor was when the pass began; its box there decides the side.
/// An obstacle under the actor grounds it. An obstacle to one side blocks
/// it, but only where the actor's centre is below the obstacle's top edge.
/// An obstacle overhead is flagged. Any other obstacle changes nothing.
pub open spec fn contact_resolved(p: Player, start: Vec2, o: Obstacle) -> Player {
    match contact_side(start, p.collider.get_size(), o) {
        Some(Collision::Bottom) => grounded_on(p, o),
        Some(Collision::Right) => if beside(start, o) {
            blocked_right_by(p, o)
        } else {
            p
        },
        Some(Collision::Left) => if beside(start, o) {
            blocked_left_by(p, o)
        } else {
            p
        },
        Some(Collision::Top) => Player {
            collision_data: CollisionData { above: true, ..p.collision_data },
            ..p
        },
        _ => p,
    }
}

/// The actor after the first `n` of `obstacles` were resolved in order.
pub open spec fn contacts_resolved(p: Player, start: Vec2, obstacles: Seq<Obstacle>, n: nat) -> Player
    decreases n,
{
    if n == 0 {
        p
    } else {
        contact_resolved(
            contacts_resolved(p, start, obstacles, (n - 1) as nat),
            start,
            obstacles[n - 1],
        )
    }
}

/// The actor after a collision pass against `listed`, taken in the order
/// of the sequence: gravity on and the directional flags cleared, then the
/// contacts resolved one by one. What is remembered of the standing is
/// kept where the actor meets no ground.
pub open spec fn pass_over(p: Player, listed: Seq<Obstacle>) -> Player {
    contacts_resolved(pass_begun(p), p.body.position, listed, listed.len())
}

/// The actor after a whole collision pass against `obstacles`. The pass
/// takes the obstacles in their order as seen from the actor, nearest
/// first, so that the result does not depend on how they were listed.
pub open spec fn collisions_resolved(p: Player, obstacles: Seq<Obstacle>) -> Player {
    pass_over(p, in_order(p.body.position, obstacles))
}

/// The landing that a pass reports: one where the actor ends up standing
/// and was not remembered as standing before.
pub open spec fn landing(p: Player, obstacles: Seq<Obstacle>) -> Option<Landed> {
    if collisions_resolved(p, obstacles).collision_data.below && !p.collision_data.prev_below {
        Some(
            Landed {
                position: Vec2 {
                    x: p.body.position.x,
                    y: p.body.position.y.minus(p.collider.h.half()),
                },
            },
        )
    } else {
        None
    }
}

/// Sets the actor down on top of an obstacle.
pub fn set_down(player: &mut Player, obstacle: &Obstacle)
    ensures
        *final(player) == grounded_on(*old(player), *obstacle),
{
    let y: i128 = obstacle.top_wide() + player.collider.h.half().wide() + (SNAP_EPSILON as i128);
    player.body.position = Vec2 { x: player.body.position.x, y: Fixed::from_wide(y) };
    player.body.velocity = Velocity(
        Vec2 {
            x: player.body.velocity.0.x.plus(obstacle.velocity.0.x),
            y: player.body.velocity.0.y,
        },
    );
    player.body.attraction = GravitationalAttraction { is_active: false };
    player.collision_data.below = true;
    player.collision_data.prev_below = true;
    player.collision_data.is_wall_jumping = false;
    player.jumps.jumps_remaining = player.jumps.max_jumps;
}

/// Resolves the contact of the actor with one obstacle.
pub fn resolve_contact(player: &mut Player, start: Vec2, obstacle: &Obstacle)
    ensures
        *final(player) == contact_resolved(*old(player), start, *obstacle),
{
    let hit: Option<Collision> = probe_obstacle(start, player.collider.get_size(), obstacle);
    match hit {
        Some(Collision::Bottom) => {
            set_down(player, obstacle);
        },
        Some(Collision::Right) => {
            if start.y.wide() < obstacle.top_wide() {
                let x: i128 = obstacle.left_wide() - player.collider.w.half().wide() - (
                SNAP_EPSILON as i128);
                player.body.position = Vec2 { x: Fixed::from_wide(x), y: player.body.position.y };
                player.body.velocity = Velocity(
                    Vec2 {
                        x: player.body.velocity.0.x.plus(obstacle.velocity.0.x),
                        y: player.body.velocity.0.y,
                    },
                );
                player.collision_data.right = true;
            }
        },
        Some(Collision::Left) => {
            if start.y.wide() < obstacle.top_wide() {
                let x: i128 = obstacle.right_wide() + player.collider.w.half().wide() + (
                SNAP_EPSILON as i128);
                player.body.position = Vec2 { x: Fixed::from_wide(x), y: player.body.position.y };
                player.body.velocity = Velocity(
                    Vec2 {
                        x: player.body.velocity.0.x.plus(obstacle.velocity.0.x),
                        y: player.body.velocity.0.y,
                    },
                );
                player.collision_data.left = true;
            }
        },
        Some(Collision::Top) => {
            player.collision_data.above = true;
        },
        _ => {},
    }
}

/// Runs one collision pass: clears the directional flags, puts the
/// obstacles in their order as seen from the actor, resolves the actor's
/// contact with each of them in that order, and reports a landing.
pub fn player_collision_system(player: &mut Player, obstacles: &Vec<Obstacle>) -> (landed: Option<
    Landed,
>)
    ensures
        *final(player) == collisions_resolved(*old(player), obstacles@),
        landed == landing(*old(player), obstacles@),
        old(player).jumps.wf() ==> final(player).jumps.wf() && final(player).jumps.max_jumps == old(
            player,
        ).jumps.max_jumps,
{
    proof {
        if player.jumps.wf() {
            crate::laws::law_collisions_keep_count(*player, obstacles@);
        }
    }
    let start: Vec2 = player.body.position;
    let feet: Fixed = player.body.position.y.minus(player.collider.h.half());
    let was_below: bool = player.collision_data.prev_below;
    let sorted: Vec<Obstacle> = sort_by_distance(start, obstacles);
    player.body.attraction = GravitationalAttraction { is_active: true };
    player.collision_data.reset();
    let mut i: usize = 0;
    while i < sorted.len()
        invariant
            i <= sorted@.len(),
            *player == contacts_resolved(pass_begun(*old(player)), start, sorted@, i as nat),
        decreases sorted@.len() - i,
    {
        resolve_contact(player, start, &sorted[i]);
        i += 1;
    }
    if player.collision_data.below && !was_below {
        Some(Landed { position: Vec2 { x: start.x, y: feet } })
    } else {
        None
    }
}

} // verus!
