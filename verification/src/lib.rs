//! Movement and collision core of a 2D platformer: fixed-point kinematics,
//! axis-aligned box collisions, contact tracking and jump control.
pub mod fixed;
pub mod vec2;
pub mod collide_aabb;
pub mod tuning;
pub mod timer;
pub mod comp;
pub mod obstacle;
pub mod sys;
pub mod player;
pub mod animation;
pub mod raycast;
pub mod input;
pub mod frame;
pub mod laws;
pub mod nearest;
pub mod util;
pub mod rng;
pub mod res;
pub mod projectile;
pub mod furniture;
pub mod setup;
