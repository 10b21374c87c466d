//! Aiming, and the projectiles that follow the aim.
use vstd::prelude::*;
use crate::comp::physics::Velocity;
use crate::fixed::Fixed;
use crate::rng::random_between;
use crate::sys::particles::Fate;
use crate::timer::Timer;
use crate::util::Size;
use crate::vec2::Vec2;

verus! {

/// Speed of a projectile along its direction (200.0).
pub const PROJECTILE_SPEED: i64 = 200000;

/// Largest scatter in each component of a projectile's velocity (20.0).
pub const PROJECTILE_SPREAD: i64 = 20000;

/// Edge of a projectile's sprite at birth (5.0).
pub const PROJECTILE_SIZE: i64 = 5000;

/// Edge of the crosshair's sprite while the trigger is held (10.0).
pub const CROSSHAIR_PRESSED_SIZE: i64 = 10000;

/// Seconds that a projectile lives (2.0).
pub const PROJECTILE_LIFETIME: i64 = 2000;

/// Something shot toward the crosshair.
#[derive(Clone, Copy, Debug, PartialEq, Eq, Structural)]
pub struct Projectile {
    /// The displacement from the shooter to the aim when it was fired.
    pub direction: Vec2,
    /// Time after which it is gone.
    pub time_to_live: Timer,
}

/// The mark that shows where the actor aims.
#[derive(Clone, Copy, Debug, PartialEq, Eq, Structural)]
pub struct Crosshair {
    /// The point aimed at.
    pub aim: Vec2,
    /// Distance of the mark from the centre of the actor.
    pub distance: Fixed,
}

/// A projectile to be brought into the world.
#[derive(Clone, Copy, Debug, PartialEq, Eq, Structural)]
pub struct ProjectileSpawn {
    /// The projectile.
    pub projectile: Projectile,
    /// Where it appears.
    pub position: Vec2,
    /// Size of its sprite.
    pub size: Vec2,
    /// The velocity it starts with.
    pub velocity: Velocity,
}

/// Where the mark goes, as a value: `distance` away from `a` toward `b`.
pub open spec fn spec_set_aim(a: Vec2, b: Vec2, distance: Fixed) -> Vec2 {
    a.plus(b.minus(a).normalize().scaled(distance))
}

/// The point `distance` away from `a` on the way to `b`; `a` itself where
/// the two are too close to tell a direction.
#[verifier::when_used_as_spec(spec_set_aim)]
pub fn set_aim(a: Vec2, b: Vec2, distance: Fixed) -> (mark: Vec2)
    ensures
        mark == spec_set_aim(a, b, distance),
{
    a.plus(b.minus(a).normalize().scaled(distance))
}

/// `jitter` is a scatter that a projectile can get.
pub open spec fn projectile_jitter(jitter: Vec2) -> bool {
    &&& -PROJECTILE_SPREAD <= jitter.x@ < PROJECTILE_SPREAD
    &&& -PROJECTILE_SPREAD <= jitter.y@ < PROJECTILE_SPREAD
}

/// The projectile that is fired at `position` along `direction` with the
/// scatter `jitter`: it flies at `PROJECTILE_SPEED` along the direction,
/// plus the scatter, and lives for `PROJECTILE_LIFETIME`.
pub open spec fn spec_projectile_at(position: Vec2, direction: Vec2, jitter: Vec2) -> ProjectileSpawn {
    ProjectileSpawn {
        projectile: Projectile {
            direction,
            time_to_live: Timer {
                elapsed: Fixed { raw: 0 },
                duration: Fixed { raw: PROJECTILE_LIFETIME },
                repeating: true,
                finished: false,
            },
        },
        position,
        size: Vec2 { x: Fixed { raw: PROJECTILE_SIZE }, y: Fixed { raw: PROJECTILE_SIZE } },
        velocity: Velocity(
            direction.normalize().scaled(Fixed { raw: PROJECTILE_SPEED }).plus(jitter),
        ),
    }
}

/// Makes the projectile for a given scatter.
#[verifier::when_used_as_spec(spec_projectile_at)]
pub fn projectile_at(position: Vec2, direction: Vec2, jitter: Vec2) -> (spawn: ProjectileSpawn)
    ensures
        spawn == spec_projectile_at(position, direction, jitter),
{
    ProjectileSpawn {
        projectile: Projectile {
            direction,
            time_to_live: Timer::from_seconds(Fixed { raw: PROJECTILE_LIFETIME }, true),
        },
        position,
        size: Vec2 { x: Fixed { raw: PROJECTILE_SIZE }, y: Fixed { raw: PROJECTILE_SIZE } },
        velocity: Velocity(
            direction.normalize().scaled(Fixed { raw: PROJECTILE_SPEED }).plus(jitter),
        ),
    }
}

/// `spawn` is a projectile fired at `position` along `direction` with some
/// scatter that a projectile can get.
pub open spec fn is_shot(spawn: ProjectileSpawn, position: Vec2, direction: Vec2) -> bool {
    exists|jitter: Vec2|
        projectile_jitter(jitter) && spawn == #[trigger] spec_projectile_at(
            position,
            direction,
            jitter,
        )
}

/// Fires a projectile at `position` along `direction`, with a scatter
/// drawn at random for each component of its velocity.
pub fn fire(position: Vec2, direction: Vec2) -> (spawn: ProjectileSpawn)
    ensures
        is_shot(spawn, position, direction),
{
    let x: Fixed = random_between(Fixed { raw: -PROJECTILE_SPREAD }, Fixed { raw: PROJECTILE_SPREAD });
    let y: Fixed = random_between(Fixed { raw: -PROJECTILE_SPREAD }, Fixed { raw: PROJECTILE_SPREAD });
    let jitter: Vec2 = Vec2 { x, y };
    let spawn: ProjectileSpawn = projectile_at(position, direction, jitter);
    proof {
        assert(projectile_jitter(jitter));
        assert(spawn == spec_projectile_at(position, direction, jitter));
    }
    spawn
}

/// Fires a projectile from the crosshair at `position` toward its aim when
/// the trigger went down this tick, and nothing else.
pub fn spawn_projectile_system(just_pressed: bool, crosshair: &Crosshair, position: Vec2) -> (spawn:
    Option<ProjectileSpawn>)
    ensures
        just_pressed <==> spawn is Some,
        spawn matches Some(shot) ==> is_shot(shot, position, crosshair.aim.minus(position)),
{
    if !just_pressed {
        return None;
    }
    let direction: Vec2 = crate::util::get_direction(&position, &crosshair.aim);
    Some(fire(position, direction))
}

/// The sprite of a projectile whose timer stands at `timer`: the size at
/// birth, shrunk to the share of the time that is left.
pub open spec fn shrunk(timer: Timer) -> Vec2 {
    (Vec2 { x: Fixed { raw: PROJECTILE_SIZE }, y: Fixed { raw: PROJECTILE_SIZE } }).scaled(
        timer.percent_left(),
    )
}

/// Ages a projectile by `delta` seconds. While its time runs, the sprite
/// shrinks with the time that is left; once the time is up the projectile
/// is to be removed and the sprite is left as it is.
pub fn shoot_projectile_system(projectile: &mut Projectile, sprite_size: &mut Vec2, delta: Fixed) -> (fate:
    Fate)
    ensures
        final(projectile).direction == old(projectile).direction,
        final(projectile).time_to_live == old(projectile).time_to_live.ticked(delta),
        final(projectile).time_to_live.finished ==> fate == Fate::Despawn && *final(sprite_size)
            == *old(sprite_size),
        !final(projectile).time_to_live.finished ==> fate == Fate::Keep && *final(sprite_size)
            == shrunk(final(projectile).time_to_live),
{
    let mut timer: Timer = projectile.time_to_live;
    timer.tick(delta);
    projectile.time_to_live = timer;
    if !timer.finished {
        let full: Vec2 = Vec2 { x: Fixed { raw: PROJECTILE_SIZE }, y: Fixed { raw: PROJECTILE_SIZE } };
        *sprite_size = full.scaled(timer.percent_left());
        Fate::Keep
    } else {
        Fate::Despawn
    }
}

/// The aim after the cursor moved through `cursor` this tick: the last
/// place of the cursor, measured from the middle of the window, and the
/// old aim where the cursor did not move.
pub open spec fn aim_after(aim: Vec2, window: Size, cursor: Seq<Vec2>) -> Vec2 {
    if cursor.len() == 0 {
        aim
    } else {
        cursor[cursor.len() - 1].minus(Vec2 { x: window.width.half(), y: window.height.half() })
    }
}

/// Follows the cursor with the crosshair. Returns where the mark goes and
/// how large it is drawn: larger while the trigger is held.
pub fn crosshair_system(
    window: &Size,
    player_position: Vec2,
    crosshair: &mut Crosshair,
    cursor: &Vec<Vec2>,
    pressed: bool,
) -> (mark: (Vec2, Vec2))
    ensures
        final(crosshair).distance == old(crosshair).distance,
        final(crosshair).aim == aim_after(old(crosshair).aim, *window, cursor@),
        mark.0 == set_aim(player_position, final(crosshair).aim, old(crosshair).distance),
        pressed ==> mark.1 == (Vec2 {
            x: Fixed { raw: CROSSHAIR_PRESSED_SIZE },
            y: Fixed { raw: CROSSHAIR_PRESSED_SIZE },
        }),
        !pressed ==> mark.1 == (Vec2 {
            x: Fixed { raw: PROJECTILE_SIZE },
            y: Fixed { raw: PROJECTILE_SIZE },
        }),
{
    if cursor.len() > 0 {
        let last: Vec2 = cursor[cursor.len() - 1];
        crosshair.aim = last.minus(Vec2 { x: window.width.half(), y: window.height.half() });
    }
    let place: Vec2 = set_aim(player_position, crosshair.aim, crosshair.distance);
    let edge: i64 = if pressed {
        CROSSHAIR_PRESSED_SIZE
    } else {
        PROJECTILE_SIZE
    };
    (place, Vec2 { x: Fixed { raw: edge }, y: Fixed { raw: edge } })
}

} // verus!
