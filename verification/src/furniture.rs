//! Furniture that drifts across the level for the actor to ride on.
use vstd::prelude::*;
use crate::comp::physics::ColliderBox;
use crate::comp::physics::Velocity;
use crate::comp::stats::SpawnTimer;
use crate::fixed::Fixed;
use crate::rng::random_between;
use crate::rng::random_index;
use crate::sys::particles::Fate;
use crate::timer::Timer;
use crate::tuning::SCR_HEIGHT;
use crate::tuning::SCR_WIDTH;
use crate::util::Size;
use crate::vec2::Vec2;

verus! {

/// How far beyond the edge of the screen furniture appears and vanishes (200.0).
pub const OFFSCREEN_MARGIN: i64 = 200000;

/// How often furniture comes, and how fast it drifts.
#[derive(Clone, Copy, Debug, PartialEq, Eq, Structural)]
pub struct FurnitureSpawnOptions {
    /// Shortest time between two pieces.
    pub min_time: Fixed,
    /// Longest time between two pieces.
    pub max_time: Fixed,
    /// Speed of the drift to the left.
    pub speed: Fixed,
}

impl Default for FurnitureSpawnOptions {
    /// A piece every 1.9 to 3.2 seconds, drifting at 68 units per second.
    fn default() -> (o: FurnitureSpawnOptions)
        ensures
            o.min_time@ == 1900,
            o.max_time@ == 3200,
            o.speed@ == 68_000,
    {
        FurnitureSpawnOptions {
            min_time: Fixed { raw: 1900 },
            max_time: Fixed { raw: 3200 },
            speed: Fixed { raw: 68_000 },
        }
    }
}

/// The kinds of furniture.
#[derive(Clone, Copy, Debug, PartialEq, Eq, Structural)]
pub enum FurnitureShape {
    /// A chair.
    Chair,
    /// A table.
    Table,
    /// A sofa.
    Sofa,
    /// A refrigerator.
    Refrigerator,
    /// A television set.
    TV,
    /// A lamp.
    Lamp,
}

/// A kind of furniture with its size.
#[derive(Clone, Copy, Debug, PartialEq, Eq, Structural)]
pub struct Furniture {
    /// What it is.
    pub shape: FurnitureShape,
    /// Its extents.
    pub size: Vec2,
}

/// The size of each kind of furniture, in thousandths.
pub open spec fn shape_size(shape: FurnitureShape) -> (int, int) {
    match shape {
        FurnitureShape::Chair => (20_000, 36_000),
        FurnitureShape::Table => (64_000, 28_000),
        FurnitureShape::Sofa => (64_000, 36_000),
        FurnitureShape::Refrigerator => (44_000, 68_000),
        FurnitureShape::TV => (52_000, 32_000),
        FurnitureShape::Lamp => (32_000, 44_000),
    }
}

/// A piece of furniture of the given kind, in its usual size.
pub fn furniture_of(shape: FurnitureShape) -> (f: Furniture)
    ensures
        f.shape == shape,
        f.size@ == shape_size(shape),
{
    let (w, h): (i64, i64) = match shape {
        FurnitureShape::Chair => (20_000, 36_000),
        FurnitureShape::Table => (64_000, 28_000),
        FurnitureShape::Sofa => (64_000, 36_000),
        FurnitureShape::Refrigerator => (44_000, 68_000),
        FurnitureShape::TV => (52_000, 32_000),
        FurnitureShape::Lamp => (32_000, 44_000),
    };
    Furniture { shape, size: Vec2 { x: Fixed { raw: w }, y: Fixed { raw: h } } }
}

/// The furniture that can come: one piece of each kind.
pub fn furniture_catalogue() -> (list: Vec<Furniture>)
    ensures
        list@.len() == 6,
        list@[0].shape == FurnitureShape::Chair,
        list@[1].shape == FurnitureShape::Table,
        list@[2].shape == FurnitureShape::Sofa,
        list@[3].shape == FurnitureShape::Refrigerator,
        list@[4].shape == FurnitureShape::TV,
        list@[5].shape == FurnitureShape::Lamp,
        forall|i: int| 0 <= i < 6 ==> (#[trigger] list@[i]).size@ == shape_size(list@[i].shape),
{
    let mut list: Vec<Furniture> = Vec::new();
    list.push(furniture_of(FurnitureShape::Chair));
    list.push(furniture_of(FurnitureShape::Table));
    list.push(furniture_of(FurnitureShape::Sofa));
    list.push(furniture_of(FurnitureShape::Refrigerator));
    list.push(furniture_of(FurnitureShape::TV));
    list.push(furniture_of(FurnitureShape::Lamp));
    list
}

/// A colour, each channel out of 255.
#[derive(Clone, Copy, Debug, PartialEq, Eq, Structural)]
pub struct Rgb {
    /// Red.
    pub r: u8,
    /// Green.
    pub g: u8,
    /// Blue.
    pub b: u8,
}

/// A piece of furniture to be brought into the world.
#[derive(Clone, Copy, Debug, PartialEq, Eq, Structural)]
pub struct FurnitureSpawn {
    /// Where it appears.
    pub position: Vec2,
    /// Its box.
    pub collider: ColliderBox,
    /// The velocity it drifts at.
    pub velocity: Velocity,
    /// Its colour.
    pub color: Rgb,
}

/// The piece of furniture that enters the level: just beyond the right
/// edge of the screen, standing on its bottom edge, drifting left at
/// `speed`.
pub open spec fn spec_furniture_entering(furniture: Furniture, speed: Fixed, color: Rgb) -> FurnitureSpawn {
    FurnitureSpawn {
        position: Vec2 {
            x: Fixed { raw: (SCR_WIDTH / 2 + OFFSCREEN_MARGIN) as i64 },
            y: (Fixed { raw: (-(SCR_HEIGHT / 2)) as i64 }).plus(furniture.size.y.half()),
        },
        collider: ColliderBox { w: furniture.size.x, h: furniture.size.y },
        velocity: Velocity(Vec2 { x: speed.neg(), y: Fixed { raw: 0 } }),
        color,
    }
}

/// Makes the piece of furniture that enters the level.
#[verifier::when_used_as_spec(spec_furniture_entering)]
pub fn furniture_entering(furniture: Furniture, speed: Fixed, color: Rgb) -> (spawn:
    FurnitureSpawn)
    ensures
        spawn == spec_furniture_entering(furniture, speed, color),
{
    FurnitureSpawn {
        position: Vec2 {
            x: Fixed { raw: SCR_WIDTH / 2 + OFFSCREEN_MARGIN },
            y: (Fixed { raw: -(SCR_HEIGHT / 2) }).plus(furniture.size.y.half()),
        },
        collider: ColliderBox { w: furniture.size.x, h: furniture.size.y },
        velocity: Velocity(Vec2 { x: speed.neg(), y: Fixed { raw: 0 } }),
        color,
    }
}

/// A colour channel drawn at random, below 255.
pub fn random_channel() -> (c: u8)
    ensures
        c < 255,
{
    match random_index(255) {
        Some(i) => i as u8,
        None => 0,
    }
}

/// `duration` is a waiting time that the options allow: at least the
/// shortest and less than the longest, and the shortest where the two
/// leave no room.
pub open spec fn allowed_wait(options: FurnitureSpawnOptions, duration: Fixed) -> bool {
    if options.min_time@ < options.max_time@ {
        options.min_time@ <= duration@ < options.max_time@
    } else {
        duration == options.min_time
    }
}

/// Ages the spawn timer by `delta` seconds. When it finishes, a new
/// waiting time is drawn at random within the options, and a piece drawn
/// at random from `furnitures` enters the level in a colour drawn at
/// random. From an empty list nothing enters.
pub fn spawn_furniture_system(
    options: &FurnitureSpawnOptions,
    furnitures: &Vec<Furniture>,
    spawn_timer: &mut SpawnTimer,
    delta: Fixed,
) -> (spawn: Option<FurnitureSpawn>)
    ensures
        !old(spawn_timer).0.ticked(delta).finished ==> spawn is None && final(spawn_timer).0 == old(spawn_timer).0.ticked(delta),
        old(spawn_timer).0.ticked(delta).finished ==> {
            &&& allowed_wait(*options, final(spawn_timer).0.duration)
            &&& final(spawn_timer).0 == (Timer {
                duration: final(spawn_timer).0.duration,
                ..old(spawn_timer).0.ticked(delta)
            })
            &&& furnitures@.len() == 0 <==> spawn is None
            &&& spawn matches Some(s) ==> exists|i: int|
                0 <= i < furnitures@.len() && s == furniture_entering(
                    #[trigger] furnitures@[i],
                    options.speed,
                    s.color,
                ) && s.color.r < 255 && s.color.g < 255 && s.color.b < 255
        },
{
    let mut timer: Timer = spawn_timer.0;
    timer.tick(delta);
    if !timer.finished {
        *spawn_timer = SpawnTimer(timer);
        return None;
    }
    timer.duration = random_between(options.min_time, options.max_time);
    *spawn_timer = SpawnTimer(timer);
    match random_index(furnitures.len()) {
        None => None,
        Some(idx) => {
            let r: u8 = random_channel();
            let g: u8 = random_channel();
            let b: u8 = random_channel();
            Some(furniture_entering(furnitures[idx], options.speed, Rgb { r, g, b }))
        },
    }
}

/// A piece of furniture at `position` has left a window of the size
/// `window` by its left edge, margin included, as a value.
pub open spec fn drifted_out(window: Size, position: Vec2) -> bool {
    position.x@ < -(window.width.half()@) - OFFSCREEN_MARGIN
}

/// Decides whether a piece of furniture is to be removed: once it has left
/// the window by its left edge, margin included.
pub fn despawn_furniture_system(window: &Size, position: Vec2) -> (fate: Fate)
    ensures
        drifted_out(*window, position) <==> fate == Fate::Despawn,
        !drifted_out(*window, position) <==> fate == Fate::Keep,
{
    if position.x.wide() < -window.width.half().wide() - (OFFSCREEN_MARGIN as i128) {
        Fate::Despawn
    } else {
        Fate::Keep
    }
}

} // verus!
