//! Short-lived decorations.
use vstd::prelude::*;
use crate::comp::physics::Velocity;
use crate::fixed::Fixed;
use crate::timer::Timer;
use crate::vec2::Vec2;

verus! {

/// Marks a decoration that takes no part in collisions.
#[derive(Clone, Copy, Debug, PartialEq, Eq, Structural)]
pub struct Particle;

/// Marks a particle that shrinks as its time runs out.
#[derive(Clone, Copy, Debug, PartialEq, Eq, Structural)]
pub struct Shrinkable;

/// A speck of dust kicked up by a landing or a wall jump.
#[derive(Clone, Copy, Debug, PartialEq, Eq, Structural)]
pub struct DustParticle {
    /// Size at birth.
    pub size: Vec2,
    /// Time after which the speck is gone.
    pub time_to_live: Timer,
}

impl Default for DustParticle {
    /// A speck two units wide and high that lives for three tenths of a
    /// second.
    fn default() -> (p: DustParticle)
        ensures
            p == (DustParticle {
                size: Vec2 { x: Fixed { raw: 2000 }, y: Fixed { raw: 2000 } },
                time_to_live: Timer {
                    elapsed: Fixed { raw: 0 },
                    duration: Fixed { raw: 300 },
                    repeating: false,
                    finished: false,
                },
            }),
    {
        DustParticle {
            size: Vec2 { x: Fixed { raw: 2000 }, y: Fixed { raw: 2000 } },
            time_to_live: Timer::from_seconds(Fixed { raw: 300 }, false),
        }
    }
}

/// A particle to be brought into the world.
#[derive(Clone, Copy, Debug, PartialEq, Eq, Structural)]
pub struct ParticleSpawn {
    /// The particle.
    pub particle: DustParticle,
    /// Where it appears.
    pub position: Vec2,
    /// The velocity it starts with.
    pub velocity: Velocity,
}

} // verus!
