//! Birth and decay of dust.
use vstd::prelude::*;
use crate::comp::particles::DustParticle;
use crate::comp::particles::ParticleSpawn;
use crate::comp::physics::Velocity;
use crate::comp::stats::TimeToLive;
use crate::fixed::Fixed;
use crate::player::WallJumped;
use crate::rng::random_between;
use crate::timer::Timer;
use crate::vec2::Vec2;

verus! {

/// Number of specks in a burst of landing dust.
pub const DUST_BURST: usize = 5;

/// Largest sideways speed of a speck of landing dust (140.0).
pub const DUST_SPREAD: i64 = 140000;

/// Upward speed of a speck of landing dust (60.0).
pub const DUST_LIFT: i64 = 60000;

/// Largest scatter in the speed of a speck of wall dust (20.0).
pub const WALL_DUST_SPREAD: i64 = 20000;

/// The speck of landing dust that starts at `position` with the sideways
/// speed `vx`.
pub open spec fn spec_dust_particle(position: Vec2, vx: Fixed) -> ParticleSpawn {
    ParticleSpawn {
        particle: DustParticle {
            size: Vec2 { x: Fixed { raw: 2000 }, y: Fixed { raw: 2000 } },
            time_to_live: Timer {
                elapsed: Fixed { raw: 0 },
                duration: Fixed { raw: 300 },
                repeating: false,
                finished: false,
            },
        },
        position,
        velocity: Velocity(Vec2 { x: vx, y: Fixed { raw: DUST_LIFT } }),
    }
}

/// Makes the speck of landing dust for a given sideways speed.
#[verifier::when_used_as_spec(spec_dust_particle)]
pub fn dust_particle(position: Vec2, vx: Fixed) -> (spawn: ParticleSpawn)
    ensures
        spawn == spec_dust_particle(position, vx),
{
    ParticleSpawn {
        particle: DustParticle::default(),
        position,
        velocity: Velocity(Vec2 { x: vx, y: Fixed { raw: DUST_LIFT } }),
    }
}

/// A burst of landing dust at `position`: `DUST_BURST` specks that rise at
/// `DUST_LIFT`, each with a sideways speed drawn at random from
/// `-DUST_SPREAD` up to, but not reaching, `DUST_SPREAD`.
pub fn spawn_dust_particle(position: Vec2) -> (burst: Vec<ParticleSpawn>)
    ensures
        burst@.len() == DUST_BURST,
        forall|i: int|
            0 <= i < burst@.len() ==> {
                &&& -DUST_SPREAD <= (#[trigger] burst@[i]).velocity.0.x@ < DUST_SPREAD
                &&& burst@[i] == dust_particle(position, burst@[i].velocity.0.x)
            },
{
    let mut burst: Vec<ParticleSpawn> = Vec::new();
    let mut i: usize = 0;
    while i < DUST_BURST
        invariant
            i <= DUST_BURST,
            burst@.len() == i,
            forall|j: int|
                0 <= j < burst@.len() ==> {
                    &&& -DUST_SPREAD <= (#[trigger] burst@[j]).velocity.0.x@ < DUST_SPREAD
                    &&& burst@[j] == dust_particle(position, burst@[j].velocity.0.x)
                },
        decreases DUST_BURST - i,
    {
        let vx: Fixed = random_between(Fixed { raw: -DUST_SPREAD }, Fixed { raw: DUST_SPREAD });
        burst.push(dust_particle(position, vx));
        i += 1;
    }
    burst
}

/// `scatter` turned the way the actor faces: as it is for an actor that
/// faces right, negated for one that faces left, nothing for any other
/// facing.
pub open spec fn spec_faced(scatter: Fixed, facing: i8) -> Fixed {
    if facing > 0 {
        scatter
    } else if facing < 0 {
        scatter.neg()
    } else {
        Fixed { raw: 0 }
    }
}

/// Turns a scatter the way the actor faces.
#[verifier::when_used_as_spec(spec_faced)]
pub fn faced(scatter: Fixed, facing: i8) -> (r: Fixed)
    ensures
        r == spec_faced(scatter, facing),
{
    if facing > 0 {
        scatter
    } else if facing < 0 {
        scatter.neg()
    } else {
        Fixed { raw: 0 }
    }
}

/// The speck of wall dust that starts at `position` and flies along
/// `direction`, both components shifted by `scatter` turned the way the
/// actor faces.
pub open spec fn spec_wall_dust_particle(
    position: Vec2,
    direction: Vec2,
    facing: i8,
    scatter: Fixed,
) -> ParticleSpawn {
    ParticleSpawn {
        particle: DustParticle {
            size: Vec2 { x: Fixed { raw: 2000 }, y: Fixed { raw: 2000 } },
            time_to_live: Timer {
                elapsed: Fixed { raw: 0 },
                duration: Fixed { raw: 300 },
                repeating: false,
                finished: false,
            },
        },
        position,
        velocity: Velocity(
            Vec2 {
                x: direction.x.plus(faced(scatter, facing)),
                y: direction.y.plus(faced(scatter, facing)),
            },
        ),
    }
}

/// Makes the speck of wall dust for a given scatter.
#[verifier::when_used_as_spec(spec_wall_dust_particle)]
pub fn wall_dust_particle(position: Vec2, direction: Vec2, facing: i8, scatter: Fixed) -> (spawn:
    ParticleSpawn)
    ensures
        spawn == spec_wall_dust_particle(position, direction, facing, scatter),
{
    let shift: Fixed = faced(scatter, facing);
    ParticleSpawn {
        particle: DustParticle::default(),
        position,
        velocity: Velocity(Vec2 { x: direction.x.plus(shift), y: direction.y.plus(shift) }),
    }
}

/// `scatter` is a scatter that wall dust can get.
pub open spec fn wall_scatter(scatter: Fixed) -> bool {
    -WALL_DUST_SPREAD <= scatter@ < WALL_DUST_SPREAD
}

/// `spawn` is a speck of wall dust for some scatter that wall dust can get.
pub open spec fn is_wall_dust(spawn: ParticleSpawn, position: Vec2, direction: Vec2, facing: i8) -> bool {
    exists|scatter: Fixed|
        wall_scatter(scatter) && spawn == #[trigger] spec_wall_dust_particle(
            position,
            direction,
            facing,
            scatter,
        )
}

/// A burst of wall dust at `position`: `particle_count` specks, none for a
/// negative count, that fly along `direction`, each with a scatter drawn
/// at random from `-WALL_DUST_SPREAD` up to, but not reaching,
/// `WALL_DUST_SPREAD`.
pub fn spawn_wall_dust_particle(
    position: Vec2,
    direction: Vec2,
    facing: i8,
    particle_count: i32,
) -> (burst: Vec<ParticleSpawn>)
    ensures
        particle_count >= 0 ==> burst@.len() == particle_count,
        particle_count < 0 ==> burst@.len() == 0,
        forall|i: int|
            0 <= i < burst@.len() ==> is_wall_dust(#[trigger] burst@[i], position, direction, facing),
{
    let mut burst: Vec<ParticleSpawn> = Vec::new();
    let mut i: i32 = 0;
    while i < particle_count
        invariant
            0 <= i,
            particle_count >= 0 ==> i <= particle_count,
            particle_count < 0 ==> i == 0,
            burst@.len() == i,
            forall|j: int|
                0 <= j < burst@.len() ==> is_wall_dust(
                    #[trigger] burst@[j],
                    position,
                    direction,
                    facing,
                ),
        decreases particle_count - i,
    {
        let scatter: Fixed = random_between(
            Fixed { raw: -WALL_DUST_SPREAD },
            Fixed { raw: WALL_DUST_SPREAD },
        );
        let spawn: ParticleSpawn = wall_dust_particle(position, direction, facing, scatter);
        proof {
            assert(wall_scatter(scatter));
            assert(spawn == spec_wall_dust_particle(position, direction, facing, scatter));
            assert(is_wall_dust(spawn, position, direction, facing));
        }
        burst.push(spawn);
        i += 1;
    }
    burst
}

/// Specks of dust in the burst of a wall jump.
pub const WALL_JUMP_DUST: i32 = 10;

/// The direction in which the dust of a wall jump flies: one unit the way
/// of the jump and one unit up.
pub open spec fn wall_jump_dust_direction(kick: WallJumped) -> Vec2 {
    Vec2 { x: faced(Fixed { raw: 1000 }, kick.direction), y: Fixed { raw: 1000 } }
}

/// The dust that a wall jump raises: `WALL_JUMP_DUST` specks where the
/// actor was after the jump pushed it off, flying the way of the jump and
/// up, each scattered the way the actor faces.
pub fn spawn_wall_jump_dust(kick: &WallJumped, facing: i8) -> (burst: Vec<ParticleSpawn>)
    ensures
        burst@.len() == WALL_JUMP_DUST,
        forall|i: int|
            0 <= i < burst@.len() ==> is_wall_dust(
                #[trigger] burst@[i],
                kick.position,
                wall_jump_dust_direction(*kick),
                facing,
            ),
{
    let away: Vec2 = Vec2 { x: faced(Fixed { raw: 1000 }, kick.direction), y: Fixed { raw: 1000 } };
    spawn_wall_dust_particle(kick.position, away, facing, WALL_JUMP_DUST)
}

/// What is to become of a short-lived entity.
#[derive(Clone, Copy, Debug, PartialEq, Eq, Structural)]
pub enum Fate {
    /// It stays for now.
    Keep,
    /// Its time is up: remove it.
    Despawn,
}

/// Ages a speck of dust by `delta` seconds. While its time runs, the
/// sprite shrinks to the share of the speck's size that its time has left;
/// once the time is up the speck is to be removed and the sprite is left
/// as it is.
pub fn dust_particle_cleanup_system(
    particle: &mut DustParticle,
    sprite_size: &mut Vec2,
    delta: Fixed,
) -> (fate: Fate)
    ensures
        final(particle).size == old(particle).size,
        final(particle).time_to_live == old(particle).time_to_live.ticked(delta),
        final(particle).time_to_live.finished ==> fate == Fate::Despawn && *final(sprite_size)
            == *old(sprite_size),
        !final(particle).time_to_live.finished ==> fate == Fate::Keep && *final(sprite_size)
            == old(particle).size.scaled(final(particle).time_to_live.percent_left()),
{
    let mut timer: Timer = particle.time_to_live;
    timer.tick(delta);
    particle.time_to_live = timer;
    if !timer.finished {
        *sprite_size = particle.size.scaled(timer.percent_left());
        Fate::Keep
    } else {
        Fate::Despawn
    }
}

/// Ages a shrinking particle by `delta` seconds. While its time runs, the
/// sprite shrinks by the share of the time that is left; once the time is
/// up the particle is to be removed and the sprite is left as it is.
pub fn shrinkable_particle_cleanup_system(
    timer: &mut TimeToLive,
    sprite_size: &mut Vec2,
    delta: Fixed,
) -> (fate: Fate)
    ensures
        final(timer).0 == old(timer).0.ticked(delta),
        final(timer).0.finished ==> fate == Fate::Despawn && *final(sprite_size) == *old(
            sprite_size,
        ),
        !final(timer).0.finished ==> fate == Fate::Keep && *final(sprite_size) == old(
            sprite_size,
        ).scaled(final(timer).0.percent_left()),
{
    let mut t: Timer = timer.0;
    t.tick(delta);
    *timer = TimeToLive(t);
    if !t.finished {
        *sprite_size = sprite_size.scaled(t.percent_left());
        Fate::Keep
    } else {
        Fate::Despawn
    }
}

} // verus!
