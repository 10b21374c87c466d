//! A pool of furniture that is sent across the level piece by piece.
use vstd::prelude::*;
use crate::comp::physics::ColliderBox;
use crate::comp::physics::Velocity;
use crate::comp::stats::SpawnTimer;
use crate::fixed::Fixed;
use crate::furniture::drifted_out;
use crate::furniture::OFFSCREEN_MARGIN;
use crate::obstacle::Obstacle;
use crate::obstacle::ObstacleKind;
use crate::rng::random_between;
use crate::timer::Timer;
use crate::util::Size;
use crate::vec2::Vec2;

verus! {

/// Pieces in the pool.
pub const POOL_SIZE: usize = 10;

/// Speed at which a piece of the pool drifts left (60.0).
pub const WAVE_SPEED: i64 = 60000;

/// Height above the bottom of the window at which a piece drifts (50.0).
pub const WAVE_HEIGHT: i64 = 50000;

/// Shortest wait between two pieces of the pool (2.9).
pub const WAVE_MIN_WAIT: i64 = 2900;

/// Longest wait between two pieces of the pool (4.2).
pub const WAVE_MAX_WAIT: i64 = 4200;

/// A piece of furniture of the pool.
#[derive(Clone, Copy, Debug, PartialEq, Eq, Structural)]
pub struct Wave {
    /// Centre of the piece.
    pub position: Vec2,
    /// Its box.
    pub collider: ColliderBox,
    /// Its velocity.
    pub velocity: Velocity,
    /// The piece is on its way across the level.
    pub is_visible: bool,
}

impl Wave {
    /// The piece as an obstacle, as a value: a piece on its way is a wall
    /// of its box that moves as the piece does; a waiting piece is none.
    pub open spec fn spec_as_obstacle(&self) -> Option<Obstacle> {
        if self.is_visible {
            Some(
                Obstacle {
                    position: self.position,
                    collider: self.collider,
                    velocity: self.velocity,
                    kind: ObstacleKind::Wall,
                },
            )
        } else {
            None
        }
    }

    /// The piece as an obstacle of the tick, if it is on its way.
    #[verifier::when_used_as_spec(spec_as_obstacle)]
    pub fn as_obstacle(&self) -> (o: Option<Obstacle>)
        ensures
            o == self.spec_as_obstacle(),
    {
        if self.is_visible {
            Some(
                Obstacle {
                    position: self.position,
                    collider: self.collider,
                    velocity: self.velocity,
                    kind: ObstacleKind::Wall,
                },
            )
        } else {
            None
        }
    }
}

/// A piece of the pool as it waits: hidden, at rest, at the origin.
pub open spec fn idle_wave() -> Wave {
    Wave {
        position: Vec2 { x: Fixed { raw: 0 }, y: Fixed { raw: 0 } },
        collider: ColliderBox { w: Fixed { raw: 84_000 }, h: Fixed { raw: 136_000 } },
        velocity: Velocity(Vec2 { x: Fixed { raw: 0 }, y: Fixed { raw: 0 } }),
        is_visible: false,
    }
}

/// Fills the pool with `POOL_SIZE` waiting pieces.
pub fn setup_furnitures() -> (pool: Vec<Wave>)
    ensures
        pool@.len() == POOL_SIZE,
        forall|i: int| 0 <= i < pool@.len() ==> #[trigger] pool@[i] == idle_wave(),
{
    let mut pool: Vec<Wave> = Vec::new();
    let mut i: usize = 0;
    while i < POOL_SIZE
        invariant
            i <= POOL_SIZE,
            pool@.len() == i,
            forall|j: int| 0 <= j < pool@.len() ==> #[trigger] pool@[j] == idle_wave(),
        decreases POOL_SIZE - i,
    {
        pool.push(
            Wave {
                position: Vec2 { x: Fixed { raw: 0 }, y: Fixed { raw: 0 } },
                collider: ColliderBox { w: Fixed { raw: 84_000 }, h: Fixed { raw: 136_000 } },
                velocity: Velocity(Vec2 { x: Fixed { raw: 0 }, y: Fixed { raw: 0 } }),
                is_visible: false,
            },
        );
        i += 1;
    }
    pool
}

/// Where a piece of the pool starts: beyond the right edge of the window,
/// margin included, `WAVE_HEIGHT` above its bottom.
pub open spec fn spec_start_position(window: Size) -> Vec2 {
    Vec2 {
        x: window.width.half().plus(Fixed { raw: OFFSCREEN_MARGIN }),
        y: window.height.half().neg().plus(Fixed { raw: WAVE_HEIGHT }),
    }
}

/// Where a piece of the pool starts.
#[verifier::when_used_as_spec(spec_start_position)]
pub fn start_position(window: Size) -> (start: Vec2)
    ensures
        start == spec_start_position(window),
{
    Vec2 {
        x: window.width.half().plus(Fixed { raw: OFFSCREEN_MARGIN }),
        y: window.height.half().neg().plus(Fixed { raw: WAVE_HEIGHT }),
    }
}

/// A piece sent on its way: shown, at the start, drifting left.
pub open spec fn sent(wave: Wave, window: Size) -> Wave {
    Wave {
        position: start_position(window),
        velocity: Velocity(Vec2 { x: Fixed { raw: (-WAVE_SPEED) as i64 }, y: wave.velocity.0.y }),
        is_visible: true,
        ..wave
    }
}

/// Index of the first waiting piece among the first `n` of the pool, or
/// `n` where all of them are on their way.
pub open spec fn first_idle(pool: Seq<Wave>, n: nat) -> nat
    decreases n,
{
    if n == 0 {
        0
    } else {
        let before = first_idle(pool, (n - 1) as nat);
        if before < n - 1 {
            before
        } else if !pool[n - 1].is_visible {
            (n - 1) as nat
        } else {
            n
        }
    }
}

/// Finds the first waiting piece of the pool.
pub fn find_idle(pool: &Vec<Wave>) -> (found: Option<usize>)
    ensures
        match found {
            Some(i) => i < pool@.len() && i == first_idle(pool@, pool@.len()) && !pool@[i as int].is_visible,
            None => first_idle(pool@, pool@.len()) == pool@.len(),
        },
        forall|j: int| 0 <= j < first_idle(pool@, pool@.len()) ==> (#[trigger] pool@[j]).is_visible,
{
    let mut i: usize = 0;
    while i < pool.len()
        invariant
            i <= pool@.len(),
            first_idle(pool@, i as nat) == i,
        decreases pool@.len() - i,
    {
        if !pool[i].is_visible {
            proof {
                lemma_first_idle_stays(pool@, (i + 1) as nat, pool@.len());
                law_first_idle_is_first(pool@, pool@.len());
            }
            return Some(i);
        }
        i += 1;
    }
    proof {
        law_first_idle_is_first(pool@, pool@.len());
    }
    None
}

/// The first waiting piece is the first: every piece before it is on its
/// way, and it waits itself, unless no piece waits at all.
pub proof fn law_first_idle_is_first(pool: Seq<Wave>, n: nat)
    requires
        n <= pool.len(),
    ensures
        first_idle(pool, n) <= n,
        forall|j: int| 0 <= j < first_idle(pool, n) ==> (#[trigger] pool[j]).is_visible,
        first_idle(pool, n) < n ==> !pool[first_idle(pool, n) as int].is_visible,
    decreases n,
{
    if n > 0 {
        law_first_idle_is_first(pool, (n - 1) as nat);
    }
}

/// Once a waiting piece is found, looking further does not change the
/// answer.
proof fn lemma_first_idle_stays(pool: Seq<Wave>, n: nat, m: nat)
    requires
        n <= m,
        first_idle(pool, n) < n,
    ensures
        first_idle(pool, m) == first_idle(pool, n),
    decreases m - n,
{
    if n < m {
        lemma_first_idle_stays(pool, n, (m - 1) as nat);
    }
}

/// Ages the spawn timer by `delta` seconds. When it finishes, a new
/// waiting time is drawn at random from `WAVE_MIN_WAIT` up to, but not
/// reaching, `WAVE_MAX_WAIT`, and the first waiting piece of the pool is
/// sent on its way. Where no piece waits the pool stays as it is.
pub fn spawn_system(window: &Size, spawn_timer: &mut SpawnTimer, pool: &mut Vec<Wave>, delta: Fixed)
    ensures
        !old(spawn_timer).0.ticked(delta).finished ==> final(pool)@ == old(pool)@ && final(spawn_timer).0 == old(spawn_timer).0.ticked(delta),
        old(spawn_timer).0.ticked(delta).finished ==> {
            let i = first_idle(old(pool)@, old(pool)@.len());
            &&& WAVE_MIN_WAIT <= final(spawn_timer).0.duration@ < WAVE_MAX_WAIT
            &&& final(spawn_timer).0 == (Timer {
                duration: final(spawn_timer).0.duration,
                ..old(spawn_timer).0.ticked(delta)
            })
            &&& i < old(pool)@.len() ==> final(pool)@ == old(pool)@.update(
                i as int,
                sent(old(pool)@[i as int], *window),
            )
            &&& i >= old(pool)@.len() ==> final(pool)@ == old(pool)@
        },
{
    let mut timer: Timer = spawn_timer.0;
    timer.tick(delta);
    if !timer.finished {
        *spawn_timer = SpawnTimer(timer);
        return ;
    }
    timer.duration = random_between(Fixed { raw: WAVE_MIN_WAIT }, Fixed { raw: WAVE_MAX_WAIT });
    *spawn_timer = SpawnTimer(timer);
    match find_idle(pool) {
        Some(i) => {
            let mut wave: Wave = pool[i];
            wave.is_visible = true;
            wave.velocity = Velocity(Vec2 { x: Fixed { raw: -WAVE_SPEED }, y: wave.velocity.0.y });
            wave.position = start_position(*window);
            pool[i] = wave;
        },
        None => {},
    }
}

/// A piece taken back into the pool: hidden, back at the start, at rest
/// sideways.
pub open spec fn recalled(wave: Wave, window: Size) -> Wave {
    Wave {
        position: start_position(window),
        velocity: Velocity(Vec2 { x: Fixed { raw: 0 }, y: wave.velocity.0.y }),
        is_visible: false,
        ..wave
    }
}

/// Takes a piece back into the pool once it has left the window by its
/// left edge, margin included.
pub fn despawn_system(window: &Size, wave: &mut Wave)
    ensures
        drifted_out(*window, old(wave).position) ==> *final(wave) == recalled(*old(wave), *window),
        !drifted_out(*window, old(wave).position) ==> *final(wave) == *old(wave),
{
    if wave.position.x.wide() < -window.width.half().wide() - (OFFSCREEN_MARGIN as i128) {
        wave.is_visible = false;
        wave.position = start_position(*window);
        wave.velocity = Velocity(Vec2 { x: Fixed { raw: 0 }, y: wave.velocity.0.y });
    }
}

} // verus!
