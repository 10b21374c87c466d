//! The level and the actors as they are when a game begins.
use vstd::prelude::*;
use crate::animation::Animation;
use crate::animation::AnimationData;
use crate::animation::AnimationState;
use crate::animation::AnimationTimer;
use crate::comp::actor::Actor;
use crate::comp::actor::Controller;
use crate::comp::physics::ColliderBox;
use crate::comp::physics::Raycast;
use crate::comp::physics::Velocity;
use crate::comp::stats::StretchTimer;
use crate::fixed::Fixed;
use crate::obstacle::ConfigError;
use crate::obstacle::Obstacle;
use crate::obstacle::ObstacleKind;
use crate::player::Player;
use crate::projectile::Crosshair;
use crate::rng::random_index;
use crate::timer::Timer;
use crate::tuning::SCR_HEIGHT;
use crate::tuning::SCR_WIDTH;
use crate::vec2::Vec2;

verus! {

/// Distance of the walls from the side edges of the screen (100.0).
pub const WALL_INSET: i64 = 100000;

/// Width of a wall (40.0).
pub const WALL_WIDTH: i64 = 40000;

/// Height above the bottom of the screen at which an actor appears (80.0).
pub const SPAWN_HEIGHT: i64 = 80000;

/// Number of lava bubbles along the floor.
pub const BUBBLES: usize = 8;

/// Frames in the animation of a lava bubble.
pub const BUBBLE_FRAMES: u32 = 25;

/// Height of the floor where no picture tells otherwise (64.0).
pub const FLOOR_HEIGHT: i64 = 64000;

/// The floor of the level: as wide as the screen, `height` high, lying on
/// the bottom edge of the screen.
pub open spec fn floor(height: Fixed) -> Obstacle {
    Obstacle {
        position: Vec2 {
            x: Fixed { raw: 0 },
            y: (Fixed { raw: (-(SCR_HEIGHT / 2)) as i64 }).plus(height.half()),
        },
        collider: ColliderBox { w: Fixed { raw: SCR_WIDTH }, h: height },
        velocity: Velocity(Vec2 { x: Fixed { raw: 0 }, y: Fixed { raw: 0 } }),
        kind: ObstacleKind::Ground,
    }
}

/// A wall of the level: as high as the screen, centred on the bottom edge
/// of the screen, `WALL_INSET` in from the right edge for `side == 1` and
/// from the left edge for any other side.
pub open spec fn wall(side: i8) -> Obstacle {
    Obstacle {
        position: Vec2 {
            x: if side == 1 {
                Fixed { raw: (SCR_WIDTH / 2 - WALL_INSET) as i64 }
            } else {
                Fixed { raw: (-(SCR_WIDTH / 2) + WALL_INSET) as i64 }
            },
            y: Fixed { raw: (-(SCR_HEIGHT / 2)) as i64 },
        },
        collider: ColliderBox { w: Fixed { raw: WALL_WIDTH }, h: Fixed { raw: SCR_HEIGHT } },
        velocity: Velocity(Vec2 { x: Fixed { raw: 0 }, y: Fixed { raw: 0 } }),
        kind: ObstacleKind::Wall,
    }
}

/// The floor of the usual height.
pub fn setup_ground() -> (ground: Obstacle)
    ensures
        ground == floor(Fixed { raw: FLOOR_HEIGHT }),
{
    Obstacle {
        position: Vec2 {
            x: Fixed { raw: 0 },
            y: (Fixed { raw: -(SCR_HEIGHT / 2) }).plus((Fixed { raw: FLOOR_HEIGHT }).half()),
        },
        collider: ColliderBox { w: Fixed { raw: SCR_WIDTH }, h: Fixed { raw: FLOOR_HEIGHT } },
        velocity: Velocity(Vec2 { x: Fixed { raw: 0 }, y: Fixed { raw: 0 } }),
        kind: ObstacleKind::Ground,
    }
}

/// The obstacles of a level: the given floor, then the right wall, then
/// the left wall.
fn level_around(ground: Obstacle) -> (level: Vec<Obstacle>)
    ensures
        level@ == seq![ground, wall(1), wall(-1i8)],
{
    let rest: Velocity = Velocity(Vec2 { x: Fixed { raw: 0 }, y: Fixed { raw: 0 } });
    let right: Obstacle = Obstacle {
        position: Vec2 {
            x: Fixed { raw: SCR_WIDTH / 2 - WALL_INSET },
            y: Fixed { raw: -(SCR_HEIGHT / 2) },
        },
        collider: ColliderBox { w: Fixed { raw: WALL_WIDTH }, h: Fixed { raw: SCR_HEIGHT } },
        velocity: rest,
        kind: ObstacleKind::Wall,
    };
    let left: Obstacle = Obstacle {
        position: Vec2 {
            x: Fixed { raw: -(SCR_WIDTH / 2) + WALL_INSET },
            y: Fixed { raw: -(SCR_HEIGHT / 2) },
        },
        collider: ColliderBox { w: Fixed { raw: WALL_WIDTH }, h: Fixed { raw: SCR_HEIGHT } },
        velocity: rest,
        kind: ObstacleKind::Wall,
    };
    let mut obstacles: Vec<Obstacle> = Vec::new();
    obstacles.push(ground);
    obstacles.push(right);
    obstacles.push(left);
    proof {
        assert(obstacles@ =~= seq![ground, wall(1), wall(-1i8)]);
    }
    obstacles
}

/// The obstacles of the level: the floor, `floor_height` high, then the
/// right wall, then the left wall. A floor without height is refused.
pub fn setup_game_system(floor_height: Fixed) -> (level: Result<Vec<Obstacle>, ConfigError>)
    ensures
        floor_height@ <= 0 <==> level is Err,
        level matches Err(e) ==> e == ConfigError::NonPositiveHeight,
        level matches Ok(obstacles) ==> obstacles@ == seq![
            floor(floor_height),
            wall(1),
            wall(-1i8),
        ],
{
    let rest: Velocity = Velocity(Vec2 { x: Fixed { raw: 0 }, y: Fixed { raw: 0 } });
    let ground: Obstacle = match Obstacle::new(
        Vec2 {
            x: Fixed { raw: 0 },
            y: (Fixed { raw: -(SCR_HEIGHT / 2) }).plus(floor_height.half()),
        },
        ColliderBox { w: Fixed { raw: SCR_WIDTH }, h: floor_height },
        rest,
        ObstacleKind::Ground,
    ) {
        Ok(o) => o,
        Err(e) => {
            return Err(e);
        },
    };
    Ok(level_around(ground))
}

/// The obstacles of the level with the floor of the usual height: the
/// floor, then the right wall, then the left wall.
pub fn setup_level() -> (level: Vec<Obstacle>)
    ensures
        level@ == seq![floor(Fixed { raw: FLOOR_HEIGHT }), wall(1), wall(-1i8)],
{
    level_around(setup_ground())
}

/// What an actor driven by acceleration starts with.
pub struct PlayerSetup {
    /// The actor.
    pub actor: Actor,
    /// Its controller.
    pub controller: Controller,
    /// Its wall probe.
    pub raycast: Raycast,
    /// Its ground probes.
    pub ground_raycasts: Vec<Raycast>,
    /// Its crosshair.
    pub crosshair: Crosshair,
    /// The timer of its stretch.
    pub stretch_timer: StretchTimer,
    /// The pace of its animation.
    pub animation_timer: AnimationTimer,
}

/// The actor driven by acceleration as it enters the level: a hundred
/// units right of the middle, `SPAWN_HEIGHT` above the bottom of the
/// screen, with a wall probe that looks right, three ground probes, a
/// crosshair forty units out and the timers of its sprite.
pub fn setup_player_system() -> (setup: PlayerSetup)
    ensures
        setup.actor == Actor::new(
            Vec2 {
                x: Fixed { raw: 100_000 },
                y: Fixed { raw: (-(SCR_HEIGHT / 2) + SPAWN_HEIGHT) as i64 },
            },
        ),
        setup.controller.movement@ == (0int, 0int),
        setup.controller.cursor_position@ == (0int, 0int),
        setup.controller.movement_action@ == Seq::<crate::comp::actor::Action>::empty(),
        setup.raycast == (Raycast {
            origin: Vec2 { x: Fixed { raw: 0 }, y: Fixed { raw: 0 } },
            direction: Vec2 { x: Fixed { raw: 1000 }, y: Fixed { raw: 0 } },
            t_min: Fixed { raw: 8000 },
            t_max: Fixed { raw: 12000 },
        }),
        setup.ground_raycasts@.len() == 3,
        forall|i: int|
            0 <= i < 3 ==> #[trigger] setup.ground_raycasts@[i] == (Raycast {
                origin: Vec2 { x: Fixed { raw: 0 }, y: Fixed { raw: 0 } },
                direction: Vec2 { x: Fixed { raw: 0 }, y: Fixed { raw: -1000i64 } },
                t_min: Fixed { raw: 8000 },
                t_max: Fixed { raw: 12000 },
            }),
        setup.crosshair == (Crosshair {
            aim: Vec2 { x: Fixed { raw: 0 }, y: Fixed { raw: 0 } },
            distance: Fixed { raw: 40_000 },
        }),
        setup.stretch_timer.0 == (Timer {
            elapsed: Fixed { raw: 0 },
            duration: Fixed { raw: 600 },
            repeating: false,
            finished: false,
        }),
        setup.animation_timer.0 == (Timer {
            elapsed: Fixed { raw: 0 },
            duration: Fixed { raw: 100 },
            repeating: true,
            finished: false,
        }),
{
    let mut rays: Vec<Raycast> = Vec::new();
    rays.push(Raycast::down());
    rays.push(Raycast::down());
    rays.push(Raycast::down());
    PlayerSetup {
        actor: Actor::new(
            Vec2 {
                x: Fixed { raw: 100_000 },
                y: Fixed { raw: -(SCR_HEIGHT / 2) + SPAWN_HEIGHT },
            },
        ),
        controller: Controller::new(),
        raycast: Raycast {
            origin: Vec2 { x: Fixed { raw: 0 }, y: Fixed { raw: 0 } },
            direction: Vec2 { x: Fixed { raw: 1000 }, y: Fixed { raw: 0 } },
            t_min: Fixed { raw: 8000 },
            t_max: Fixed { raw: 12000 },
        },
        ground_raycasts: rays,
        crosshair: Crosshair {
            aim: Vec2 { x: Fixed { raw: 0 }, y: Fixed { raw: 0 } },
            distance: Fixed { raw: 40_000 },
        },
        stretch_timer: StretchTimer(Timer::from_seconds(Fixed { raw: 600 }, false)),
        animation_timer: AnimationTimer(Timer::from_seconds(Fixed { raw: 100 }, true)),
    }
}

/// What the steered actor starts with.
pub struct PlayerSpawn {
    /// The actor.
    pub player: Player,
    /// Its wall probe.
    pub raycast: Raycast,
    /// Its ground probe.
    pub ground_raycast: Raycast,
    /// Its crosshair.
    pub crosshair: Crosshair,
    /// The timer of its stretch.
    pub stretch_timer: StretchTimer,
    /// The pace of its animation.
    pub animation_timer: AnimationTimer,
    /// Its animations.
    pub animation: Animation,
}

/// The animations of the steered actor: four frames of standing from
/// index 0 and five frames of running from index 10, standing first.
pub fn player_animation() -> (animation: Animation)
    ensures
        animation.current_anim == 0,
        animation.data@ == seq![
            AnimationData {
                state: AnimationState::Idle,
                start_index: 0,
                frames_count: 4,
                current_index: 0,
                offset: 0,
            },
            AnimationData {
                state: AnimationState::Run,
                start_index: 10,
                frames_count: 5,
                current_index: 10,
                offset: 0,
            },
        ],
{
    let mut data: Vec<AnimationData> = Vec::new();
    data.push(AnimationData::new(AnimationState::Idle, 0, 4, 0));
    data.push(AnimationData::new(AnimationState::Run, 10, 5, 0));
    proof {
        assert(data@ =~= seq![
            AnimationData {
                state: AnimationState::Idle,
                start_index: 0,
                frames_count: 4,
                current_index: 0,
                offset: 0,
            },
            AnimationData {
                state: AnimationState::Run,
                start_index: 10,
                frames_count: 5,
                current_index: 10,
                offset: 0,
            },
        ]);
    }
    Animation::new(data, AnimationState::Idle)
}

/// The steered actor as it enters the level: in the middle, `SPAWN_HEIGHT`
/// above the bottom of the screen, thirty-two units square, with a short
/// wall probe, a ground probe, a crosshair forty units out, its timers and
/// its animations.
pub fn spawn_system() -> (spawn: PlayerSpawn)
    ensures
        spawn.player == Player::new(
            Vec2 {
                x: Fixed { raw: 0 },
                y: Fixed { raw: (-(SCR_HEIGHT / 2) + SPAWN_HEIGHT) as i64 },
            },
            ColliderBox { w: Fixed { raw: 32_000 }, h: Fixed { raw: 32_000 } },
        ),
        spawn.raycast == (Raycast {
            origin: Vec2 { x: Fixed { raw: 0 }, y: Fixed { raw: 0 } },
            direction: Vec2 { x: Fixed { raw: -1000i64 }, y: Fixed { raw: 0 } },
            t_min: Fixed { raw: 0 },
            t_max: Fixed { raw: 4000 },
        }),
        spawn.ground_raycast == (Raycast {
            origin: Vec2 { x: Fixed { raw: 0 }, y: Fixed { raw: 0 } },
            direction: Vec2 { x: Fixed { raw: 0 }, y: Fixed { raw: -1000i64 } },
            t_min: Fixed { raw: 0 },
            t_max: Fixed { raw: 16_000 },
        }),
        spawn.crosshair == (Crosshair {
            aim: Vec2 { x: Fixed { raw: 0 }, y: Fixed { raw: 0 } },
            distance: Fixed { raw: 40_000 },
        }),
        spawn.stretch_timer.0 == (Timer {
            elapsed: Fixed { raw: 0 },
            duration: Fixed { raw: 600 },
            repeating: false,
            finished: false,
        }),
        spawn.animation_timer.0 == (Timer {
            elapsed: Fixed { raw: 0 },
            duration: Fixed { raw: 100 },
            repeating: true,
            finished: false,
        }),
        spawn.animation.current_anim == 0,
        spawn.animation.data@ == seq![
            AnimationData {
                state: AnimationState::Idle,
                start_index: 0,
                frames_count: 4,
                current_index: 0,
                offset: 0,
            },
            AnimationData {
                state: AnimationState::Run,
                start_index: 10,
                frames_count: 5,
                current_index: 10,
                offset: 0,
            },
        ],
{
    PlayerSpawn {
        player: Player::new(
            Vec2 { x: Fixed { raw: 0 }, y: Fixed { raw: -(SCR_HEIGHT / 2) + SPAWN_HEIGHT } },
            ColliderBox { w: Fixed { raw: 32_000 }, h: Fixed { raw: 32_000 } },
        ),
        raycast: Raycast {
            origin: Vec2 { x: Fixed { raw: 0 }, y: Fixed { raw: 0 } },
            direction: Vec2 { x: Fixed { raw: -1000 }, y: Fixed { raw: 0 } },
            t_min: Fixed { raw: 0 },
            t_max: Fixed { raw: 4000 },
        },
        ground_raycast: Raycast {
            origin: Vec2 { x: Fixed { raw: 0 }, y: Fixed { raw: 0 } },
            direction: Vec2 { x: Fixed { raw: 0 }, y: Fixed { raw: -1000 } },
            t_min: Fixed { raw: 0 },
            t_max: Fixed { raw: 16_000 },
        },
        crosshair: Crosshair {
            aim: Vec2 { x: Fixed { raw: 0 }, y: Fixed { raw: 0 } },
            distance: Fixed { raw: 40_000 },
        },
        stretch_timer: StretchTimer(Timer::from_seconds(Fixed { raw: 600 }, false)),
        animation_timer: AnimationTimer(Timer::from_seconds(Fixed { raw: 100 }, true)),
        animation: player_animation(),
    }
}

/// A bubble on the lava, with the frames of its animation.
#[derive(Clone, Copy, Debug, PartialEq, Eq, Structural)]
pub struct LavaBubble {
    /// Where the bubble sits.
    pub position: Vec2,
    /// The frames of the bubble, shifted in phase by a random offset.
    pub data: AnimationData,
}

/// The bubble at place `i` along the floor whose animation starts
/// `start_index` frames in: the bubbles stand an eighth of the screen
/// apart from 32 units inside its left edge, 64 units above a floor of the
/// height `floor_height`.
pub open spec fn spec_lava_bubble(i: int, floor_height: Fixed, start_index: u32) -> LavaBubble {
    LavaBubble {
        position: Vec2 {
            x: Fixed::of(-(SCR_WIDTH / 2) + 32_000 + i * (SCR_WIDTH / 8)),
            y: (Fixed { raw: (-(SCR_HEIGHT / 2) + 64_000) as i64 }).plus(floor_height),
        },
        data: AnimationData {
            state: AnimationState::Idle,
            start_index: 0,
            frames_count: BUBBLE_FRAMES,
            current_index: 0,
            offset: start_index,
        },
    }
}

/// Makes the bubble at place `i` along the floor.
pub fn lava_bubble(i: usize, floor_height: Fixed, start_index: u32) -> (bubble: LavaBubble)
    ensures
        bubble == spec_lava_bubble(i as int, floor_height, start_index),
{
    let x: i128 = -((SCR_WIDTH / 2) as i128) + 32_000 + (i as i128) * 100_000;
    LavaBubble {
        position: Vec2 {
            x: Fixed::from_wide(x),
            y: (Fixed { raw: -(SCR_HEIGHT / 2) + 64_000 }).plus(floor_height),
        },
        data: AnimationData::new(AnimationState::Idle, 0, BUBBLE_FRAMES, start_index),
    }
}

/// The bubbles on the lava: `BUBBLES` of them along the floor, each with
/// an animation that starts a random number of frames in, below
/// `BUBBLE_FRAMES - 1`.
pub fn setup_lava_bubbles_system(floor_height: Fixed) -> (bubbles: Vec<LavaBubble>)
    ensures
        bubbles@.len() == BUBBLES,
        forall|i: int|
            0 <= i < bubbles@.len() ==> (#[trigger] bubbles@[i]).data.offset < BUBBLE_FRAMES - 1
                && bubbles@[i] == spec_lava_bubble(i, floor_height, bubbles@[i].data.offset),
{
    let mut bubbles: Vec<LavaBubble> = Vec::new();
    let mut i: usize = 0;
    while i < BUBBLES
        invariant
            i <= BUBBLES,
            bubbles@.len() == i,
            forall|j: int|
                0 <= j < bubbles@.len() ==> (#[trigger] bubbles@[j]).data.offset < BUBBLE_FRAMES - 1
                    && bubbles@[j] == spec_lava_bubble(j, floor_height, bubbles@[j].data.offset),
        decreases BUBBLES - i,
    {
        let start_index: u32 = match random_index(24) {
            Some(k) => k as u32,
            None => 0,
        };
        bubbles.push(lava_bubble(i, floor_height, start_index));
        i += 1;
    }
    bubbles
}

/// The bubbles on the lava over a floor of the usual picture, 32 units
/// high.
pub fn setup_lava_bubbles() -> (bubbles: Vec<LavaBubble>)
    ensures
        bubbles@.len() == BUBBLES,
        forall|i: int|
            0 <= i < bubbles@.len() ==> (#[trigger] bubbles@[i]).data.offset < BUBBLE_FRAMES - 1
                && bubbles@[i] == spec_lava_bubble(
                i,
                Fixed { raw: 32_000 },
                bubbles@[i].data.offset,
            ),
{
    setup_lava_bubbles_system(Fixed { raw: 32_000 })
}

/// What an actor that is drawn at twice its size starts with.
pub struct ScaledSetup {
    /// The actor, its box doubled.
    pub actor: Actor,
    /// Its controller.
    pub controller: Controller,
    /// Its animations: five frames of standing from index 0 and eight
    /// frames of running from index 16, running first.
    pub animation: Animation,
    /// The pace of its animation.
    pub animation_timer: AnimationTimer,
}

/// The actor that is drawn at twice its size, as it enters the level: at
/// the origin, thirty-two units wide and sixty-four high.
pub fn setup() -> (s: ScaledSetup)
    ensures
        s.actor == (Actor {
            collider: ColliderBox { w: Fixed { raw: 32_000 }, h: Fixed { raw: 64_000 } },
            ..Actor::new(Vec2 { x: Fixed { raw: 0 }, y: Fixed { raw: 0 } })
        }),
        s.controller.movement@ == (0int, 0int),
        s.controller.cursor_position@ == (0int, 0int),
        s.controller.movement_action@ == Seq::<crate::comp::actor::Action>::empty(),
        s.animation.current_anim == 1,
        s.animation.data@ == seq![
            AnimationData {
                state: AnimationState::Idle,
                start_index: 0,
                frames_count: 5,
                current_index: 0,
                offset: 0,
            },
            AnimationData {
                state: AnimationState::Run,
                start_index: 16,
                frames_count: 8,
                current_index: 16,
                offset: 0,
            },
        ],
        s.animation_timer.0 == (Timer {
            elapsed: Fixed { raw: 0 },
            duration: Fixed { raw: 100 },
            repeating: true,
            finished: false,
        }),
{
    let mut actor: Actor = Actor::new(Vec2 { x: Fixed { raw: 0 }, y: Fixed { raw: 0 } });
    actor.collider = ColliderBox { w: Fixed { raw: 32_000 }, h: Fixed { raw: 64_000 } };
    let mut data: Vec<AnimationData> = Vec::new();
    data.push(AnimationData::new(AnimationState::Idle, 0, 5, 0));
    data.push(AnimationData::new(AnimationState::Run, 16, 8, 0));
    proof {
        assert(data@ =~= seq![
            AnimationData {
                state: AnimationState::Idle,
                start_index: 0,
                frames_count: 5,
                current_index: 0,
                offset: 0,
            },
            AnimationData {
                state: AnimationState::Run,
                start_index: 16,
                frames_count: 8,
                current_index: 16,
                offset: 0,
            },
        ]);
    }
    ScaledSetup {
        actor,
        controller: Controller::new(),
        animation: Animation::new(data, AnimationState::Run),
        animation_timer: AnimationTimer(Timer::from_seconds(Fixed { raw: 100 }, true)),
    }
}

} // verus!
