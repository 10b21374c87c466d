//! The data that an actor or an obstacle carries.
use vstd::prelude::*;

pub mod actor;
pub mod particles;
pub mod physics;
pub mod stats;

verus! {

/// Marks an entity that is removed once it has left the level.
#[derive(Clone, Copy, Debug, PartialEq, Eq, Structural)]
pub struct Despawnable;

impl Default for Despawnable {
    /// The one value there is.
    fn default() -> Despawnable {
        Despawnable
    }
}

} // verus!
