//! The steps of a tick, each acting on the data of one actor.
pub mod actor;
pub mod furnitures;
pub mod particles;
pub mod physics;
pub mod player;
pub mod stats;
