use oh_no_lava::animation::animate_frames;
use oh_no_lava::animation::animate_sprite;
use oh_no_lava::animation::Animation;
use oh_no_lava::animation::AnimationData;
use oh_no_lava::animation::AnimationState;
use oh_no_lava::animation::AnimationTimer;
use oh_no_lava::comp::particles::DustParticle;
use oh_no_lava::comp::physics::ColliderBox;
use oh_no_lava::comp::stats::SpawnTimer;
use oh_no_lava::comp::stats::TimeToLive;
use oh_no_lava::fixed::Fixed;
use oh_no_lava::furniture::despawn_furniture_system;
use oh_no_lava::furniture::furniture_catalogue;
use oh_no_lava::furniture::furniture_entering;
use oh_no_lava::furniture::furniture_of;
use oh_no_lava::furniture::random_channel;
use oh_no_lava::furniture::spawn_furniture_system;
use oh_no_lava::furniture::FurnitureShape;
use oh_no_lava::furniture::FurnitureSpawnOptions;
use oh_no_lava::furniture::Rgb;
use oh_no_lava::obstacle::ConfigError;
use oh_no_lava::obstacle::ObstacleKind;
use oh_no_lava::projectile::crosshair_system;
use oh_no_lava::projectile::projectile_at;
use oh_no_lava::projectile::set_aim;
use oh_no_lava::projectile::shoot_projectile_system;
use oh_no_lava::projectile::spawn_projectile_system;
use oh_no_lava::projectile::Crosshair;
use oh_no_lava::projectile::Projectile;
use oh_no_lava::res::Colors;
use oh_no_lava::rng::random_between;
use oh_no_lava::rng::random_index;
use oh_no_lava::setup::lava_bubble;
use oh_no_lava::setup::player_animation;
use oh_no_lava::setup::setup;
use oh_no_lava::setup::setup_game_system;
use oh_no_lava::setup::setup_ground;
use oh_no_lava::setup::setup_lava_bubbles;
use oh_no_lava::setup::setup_level;
use oh_no_lava::setup::setup_lava_bubbles_system;
use oh_no_lava::setup::setup_player_system;
use oh_no_lava::setup::spawn_system;
use oh_no_lava::sys::furnitures::despawn_system;
use oh_no_lava::sys::furnitures::find_idle;
use oh_no_lava::sys::furnitures::setup_furnitures;
use oh_no_lava::sys::furnitures::start_position;
use oh_no_lava::sys::particles::dust_particle;
use oh_no_lava::sys::particles::dust_particle_cleanup_system;
use oh_no_lava::sys::particles::faced;
use oh_no_lava::sys::particles::shrinkable_particle_cleanup_system;
use oh_no_lava::sys::particles::spawn_dust_particle;
use oh_no_lava::sys::particles::spawn_wall_dust_particle;
use oh_no_lava::sys::particles::spawn_wall_jump_dust;
use oh_no_lava::sys::particles::wall_dust_particle;
use oh_no_lava::sys::particles::Fate;
use oh_no_lava::timer::Timer;
use oh_no_lava::util::get_direction;
use oh_no_lava::util::get_distance;
use oh_no_lava::util::get_window_size;
use oh_no_lava::util::Size;
use oh_no_lava::vec2::Vec2;

fn fx(raw: i64) -> Fixed {
    Fixed::from_raw(raw)
}

fn v(x: i64, y: i64) -> Vec2 {
    Vec2::new(fx(x), fx(y))
}

#[test]
fn a_timer_that_runs_once_stops_at_its_duration() {
    let mut t = Timer::from_seconds(fx(300), false);
    t.tick(fx(100));
    assert_eq!(t.elapsed.raw, 100);
    assert!(!t.finished);
    assert_eq!(t.percent_left().raw, 667);
    t.tick(fx(-50));
    assert_eq!(t.elapsed.raw, 100);
    t.tick(fx(250));
    assert_eq!(t.elapsed.raw, 300);
    assert!(t.finished);
    assert_eq!(t.percent_left().raw, 0);
    t.tick(fx(1000));
    assert_eq!(t.elapsed.raw, 300);
    assert!(t.finished);
    t.reset();
    assert_eq!(t, Timer::from_seconds(fx(300), false));
}

#[test]
fn a_timer_that_repeats_keeps_the_rest() {
    let mut t = Timer::from_seconds(fx(2000), true);
    t.tick(fx(2500));
    assert_eq!(t.elapsed.raw, 500);
    assert!(t.finished);
    t.tick(fx(100));
    assert_eq!(t.elapsed.raw, 600);
    assert!(!t.finished);
    t.tick(fx(5400));
    assert_eq!(t.elapsed.raw, 0);
    assert!(t.finished);
    // Without a duration there is nothing to divide by.
    let mut none = Timer::from_seconds(fx(0), true);
    none.tick(fx(100));
    assert!(none.finished);
    assert_eq!(none.elapsed.raw, 0);
    assert_eq!(none.percent_left().raw, 0);
}

#[test]
fn frames_are_walked_backward_through_the_run() {
    let mut idle = AnimationData::new(AnimationState::Idle, 0, 4, 0);
    assert_eq!(idle.current_index, 0);
    let shown: Vec<u64> = (0..6).map(|_| idle.get_index()).collect();
    assert_eq!(shown, vec![3, 2, 1, 0, 3, 2]);
    // The counter starts at the first sheet index and wraps at once.
    let mut run = AnimationData::new(AnimationState::Run, 10, 5, 0);
    assert_eq!(run.current_index, 10);
    let shown: Vec<u64> = (0..6).map(|_| run.get_index()).collect();
    assert_eq!(shown, vec![10, 14, 13, 12, 11, 10]);
    let mut bubble = AnimationData::new(AnimationState::Idle, 0, 25, 7);
    assert_eq!(bubble.get_index(), 6);
    assert_eq!(bubble.get_state(), 0);
    assert_eq!(run.get_state(), 1);
    let mut empty = AnimationData::new(AnimationState::Run, 9, 0, 3);
    assert_eq!(empty.get_index(), 9);
    let mut large = AnimationData::new(AnimationState::Run, u32::MAX, u32::MAX, u32::MAX - 1);
    assert_eq!(large.get_index(), u32::MAX as u64 - 1 + u32::MAX as u64);
}

#[test]
fn an_animation_plays_the_run_of_its_state() {
    let mut animation = player_animation();
    assert_eq!(animation.current_anim, 0);
    assert_eq!(
        animation.get_current_data(),
        Some(AnimationData::new(AnimationState::Idle, 0, 4, 0))
    );
    assert_eq!(animation.advance(), Some(3));
    animation.set_animation(AnimationState::Run);
    assert_eq!(animation.current_anim, 1);
    assert_eq!(animation.advance(), Some(10));
    assert_eq!(animation.advance(), Some(14));
    assert_eq!(animation.data[0].current_index, 1);
    let mut short = Animation::new(
        vec![AnimationData::new(AnimationState::Idle, 0, 4, 0)],
        AnimationState::Run,
    );
    assert_eq!(short.get_current_data(), None);
    assert_eq!(short.advance(), None);
    assert_eq!(AnimationState::Idle.name(), "idle");
    assert_eq!(AnimationState::Run.name(), "run");
    assert_eq!(AnimationState::Idle.slot(), 0);
    assert_eq!(AnimationState::Run.slot(), 1);
}

#[test]
fn sprites_change_when_the_pace_timer_finishes() {
    let mut animation = player_animation();
    let mut timer = AnimationTimer(Timer::from_seconds(fx(100), true));
    let mut index: u64 = 77;
    animate_sprite(&mut animation, &mut timer, &mut index, fx(50));
    assert_eq!(index, 77);
    animate_sprite(&mut animation, &mut timer, &mut index, fx(50));
    assert_eq!(index, 3);
    animate_sprite(&mut animation, &mut timer, &mut index, fx(99));
    assert_eq!(index, 3);
    animate_sprite(&mut animation, &mut timer, &mut index, fx(1));
    assert_eq!(index, 2);
}

#[test]
fn random_draws_stay_in_their_range_and_vary() {
    let mut seen_other = false;
    for _ in 0..200 {
        let r = random_between(fx(-140_000), fx(140_000));
        assert!(r.raw >= -140_000 && r.raw < 140_000);
        if r.raw != -140_000 {
            seen_other = true;
        }
    }
    assert!(seen_other);
    assert_eq!(random_between(fx(5), fx(6)), fx(5));
    assert_eq!(random_between(fx(5), fx(5)), fx(5));
    assert_eq!(random_between(fx(5), fx(-5)), fx(5));
    assert_eq!(random_index(0), None);
    assert_eq!(random_index(1), Some(0));
    let mut seen = [false; 6];
    for _ in 0..600 {
        seen[random_index(6).unwrap()] = true;
    }
    assert!(seen.iter().filter(|s| **s).count() > 1);
    for _ in 0..300 {
        assert!(random_channel() < 255);
    }
}

#[test]
fn landing_dust_rises_in_a_burst_of_five() {
    let burst = spawn_dust_particle(v(3000, -4000));
    assert_eq!(burst.len(), 5);
    for speck in burst.iter() {
        assert_eq!(speck.position, v(3000, -4000));
        assert_eq!(speck.velocity.0.y.raw, 60_000);
        assert!(speck.velocity.0.x.raw >= -140_000 && speck.velocity.0.x.raw < 140_000);
        assert_eq!(speck.particle, DustParticle::default());
        assert_eq!(*speck, dust_particle(v(3000, -4000), speck.velocity.0.x));
    }
    assert_eq!(DustParticle::default().size, v(2000, 2000));
    assert_eq!(DustParticle::default().time_to_live, Timer::from_seconds(fx(300), false));
}

#[test]
fn wall_dust_is_scattered_the_way_the_actor_faces() {
    assert_eq!(faced(fx(7), 1), fx(7));
    assert_eq!(faced(fx(7), -1), fx(-7));
    assert_eq!(faced(fx(7), 0), fx(0));
    let speck = wall_dust_particle(v(1, 2), v(1000, 1000), -1, fx(300));
    assert_eq!(speck.position, v(1, 2));
    assert_eq!(speck.velocity.0, v(700, 700));
    assert_eq!(spawn_wall_dust_particle(v(0, 0), v(1000, 1000), 1, 0).len(), 0);
    assert_eq!(spawn_wall_dust_particle(v(0, 0), v(1000, 1000), 1, -3).len(), 0);
    let burst = spawn_wall_dust_particle(v(9, 9), v(-1000, 1000), -1, 25);
    assert_eq!(burst.len(), 25);
    for speck in burst.iter() {
        assert_eq!(speck.position, v(9, 9));
        assert_eq!(speck.velocity.0.y.raw - speck.velocity.0.x.raw, 2000);
        assert!(speck.velocity.0.x.raw > -1000 - 20_000);
        assert!(speck.velocity.0.x.raw <= -1000 + 20_000);
    }
}

#[test]
fn dust_shrinks_with_the_time_it_has_left() {
    let mut particle = DustParticle::default();
    let mut sprite = v(2000, 2000);
    assert_eq!(dust_particle_cleanup_system(&mut particle, &mut sprite, fx(100)), Fate::Keep);
    // Two thirds of 0.3 seconds are left: 0.667 of the size.
    assert_eq!(sprite, v(1334, 1334));
    assert_eq!(dust_particle_cleanup_system(&mut particle, &mut sprite, fx(100)), Fate::Keep);
    assert_eq!(sprite, v(668, 668));
    assert_eq!(dust_particle_cleanup_system(&mut particle, &mut sprite, fx(100)), Fate::Despawn);
    assert_eq!(sprite, v(668, 668));
    assert_eq!(particle.size, v(2000, 2000));
}

#[test]
fn shrinking_particles_shrink_from_their_own_size() {
    let mut timer = TimeToLive(Timer::from_seconds(fx(1000), false));
    let mut sprite = v(4000, 2000);
    assert_eq!(shrinkable_particle_cleanup_system(&mut timer, &mut sprite, fx(250)), Fate::Keep);
    assert_eq!(sprite, v(3000, 1500));
    assert_eq!(shrinkable_particle_cleanup_system(&mut timer, &mut sprite, fx(250)), Fate::Keep);
    assert_eq!(sprite, v(1500, 750));
    assert_eq!(
        shrinkable_particle_cleanup_system(&mut timer, &mut sprite, fx(500)),
        Fate::Despawn
    );
    assert_eq!(sprite, v(1500, 750));
}

#[test]
fn distances_and_directions() {
    assert_eq!(get_distance(&v(1000, 1000), &v(4000, 5000)).raw, 5000);
    assert_eq!(get_distance(&v(4000, 5000), &v(1000, 1000)).raw, 5000);
    assert_eq!(get_distance(&v(0, 0), &v(1000, 1000)).raw, 1414);
    assert_eq!(get_distance(&v(7, 7), &v(7, 7)).raw, 0);
    assert_eq!(get_direction(&v(1000, 1000), &v(4000, 5000)), v(3000, 4000));
    assert_eq!(get_direction(&v(4000, 5000), &v(1000, 1000)), v(-3000, -4000));
}

#[test]
fn the_play_field_is_the_square_of_the_window() {
    let window = Size::new(fx(1024_000), fx(768_000));
    assert_eq!(get_window_size(Some(window)), Size::new(fx(768_000), fx(768_000)));
    assert_eq!(get_window_size(None), Size::new(fx(800_000), fx(600_000)));
}

#[test]
fn the_aim_is_a_fixed_distance_from_the_actor() {
    assert_eq!(set_aim(v(0, 0), v(30_000, 40_000), fx(40_000)), v(24_000, 32_000));
    assert_eq!(set_aim(v(10_000, 10_000), v(10_000, -5000), fx(40_000)), v(10_000, -30_000));
    assert_eq!(set_aim(v(10_000, 10_000), v(10_000, 10_000), fx(40_000)), v(10_000, 10_000));
}

#[test]
fn the_crosshair_follows_the_last_cursor_event() {
    let window = Size::new(fx(800_000), fx(600_000));
    let mut crosshair = Crosshair { aim: v(0, -10_000), distance: fx(40_000) };
    let still = crosshair_system(&window, v(0, 0), &mut crosshair, &vec![], false);
    assert_eq!(crosshair.aim, v(0, -10_000));
    assert_eq!(still, (v(0, -40_000), v(5000, 5000)));
    let cursor = vec![v(1000, 1000), v(430_000, 340_000)];
    let moved = crosshair_system(&window, v(0, 0), &mut crosshair, &cursor, true);
    assert_eq!(crosshair.aim, v(30_000, 40_000));
    assert_eq!(moved, (v(24_000, 32_000), v(10_000, 10_000)));
    assert_eq!(crosshair.distance.raw, 40_000);
}

#[test]
fn a_projectile_is_fired_when_the_trigger_goes_down() {
    let crosshair = Crosshair { aim: v(30_000, 40_000), distance: fx(40_000) };
    assert_eq!(spawn_projectile_system(false, &crosshair, v(0, 0)), None);
    for _ in 0..50 {
        let shot = spawn_projectile_system(true, &crosshair, v(0, 0)).unwrap();
        assert_eq!(shot.position, v(0, 0));
        assert_eq!(shot.projectile.direction, v(30_000, 40_000));
        assert!(shot.velocity.0.x.raw >= 100_000 && shot.velocity.0.x.raw < 140_000);
        assert!(shot.velocity.0.y.raw >= 140_000 && shot.velocity.0.y.raw < 180_000);
    }
    let exact = projectile_at(v(1, 2), v(0, -5000), v(-3000, 4000));
    assert_eq!(exact.velocity.0, v(-3000, -196_000));
    assert_eq!(exact.size, v(5000, 5000));
}

#[test]
fn a_projectile_shrinks_until_its_time_is_up() {
    let mut projectile =
        Projectile { direction: v(1000, 0), time_to_live: Timer::from_seconds(fx(2000), true) };
    let mut sprite = v(5000, 5000);
    assert_eq!(shoot_projectile_system(&mut projectile, &mut sprite, fx(500)), Fate::Keep);
    assert_eq!(sprite, v(3750, 3750));
    assert_eq!(shoot_projectile_system(&mut projectile, &mut sprite, fx(1000)), Fate::Keep);
    assert_eq!(sprite, v(1250, 1250));
    assert_eq!(shoot_projectile_system(&mut projectile, &mut sprite, fx(500)), Fate::Despawn);
    assert_eq!(sprite, v(1250, 1250));
    assert_eq!(projectile.direction, v(1000, 0));
}

#[test]
fn furniture_comes_in_six_kinds() {
    let list = furniture_catalogue();
    assert_eq!(list.len(), 6);
    assert_eq!(list[0], furniture_of(FurnitureShape::Chair));
    assert_eq!(list[0].size, v(20_000, 36_000));
    assert_eq!(list[1].size, v(64_000, 28_000));
    assert_eq!(list[2].size, v(64_000, 36_000));
    assert_eq!(list[3].size, v(44_000, 68_000));
    assert_eq!(list[4].size, v(52_000, 32_000));
    assert_eq!(list[5].size, v(32_000, 44_000));
    assert_eq!(list[5].shape, FurnitureShape::Lamp);
    let options = FurnitureSpawnOptions::default();
    assert_eq!(options.min_time.raw, 1900);
    assert_eq!(options.max_time.raw, 3200);
    assert_eq!(options.speed.raw, 68_000);
}

#[test]
fn furniture_enters_from_the_right() {
    let grey = Rgb { r: 1, g: 2, b: 3 };
    let chair = furniture_entering(furniture_of(FurnitureShape::Chair), fx(68_000), grey);
    // Right edge of the screen 400 plus the margin 200; bottom -300 plus half of 36.
    assert_eq!(chair.position, v(600_000, -282_000));
    assert_eq!(chair.collider, ColliderBox { w: fx(20_000), h: fx(36_000) });
    assert_eq!(chair.velocity.0, v(-68_000, 0));
    assert_eq!(chair.color, grey);
}

#[test]
fn furniture_is_spawned_when_the_timer_finishes() {
    let options = FurnitureSpawnOptions::default();
    let list = furniture_catalogue();
    let mut timer = SpawnTimer(Timer::from_seconds(fx(2000), true));
    assert_eq!(spawn_furniture_system(&options, &list, &mut timer, fx(1000)), None);
    assert_eq!(timer.0.elapsed.raw, 1000);
    assert_eq!(timer.0.duration.raw, 2000);
    for _ in 0..50 {
        timer.0.tick(fx(0));
        let wait = timer.0.duration.raw - timer.0.elapsed.raw;
        let spawn = spawn_furniture_system(&options, &list, &mut timer, fx(wait)).unwrap();
        assert!(timer.0.finished);
        assert_eq!(timer.0.elapsed.raw, 0);
        assert!(timer.0.duration.raw >= 1900 && timer.0.duration.raw < 3200);
        assert!(list.iter().any(|f| spawn == furniture_entering(*f, fx(68_000), spawn.color)));
        assert!(spawn.color.r < 255 && spawn.color.g < 255 && spawn.color.b < 255);
    }
    // From an empty list nothing comes, but the wait is drawn anew.
    let mut other = SpawnTimer(Timer::from_seconds(fx(2000), true));
    assert_eq!(spawn_furniture_system(&options, &vec![], &mut other, fx(2000)), None);
    assert!(other.0.duration.raw >= 1900 && other.0.duration.raw < 3200);
    // Bounds without room between them give the lower bound.
    let fixed_wait = FurnitureSpawnOptions { min_time: fx(500), max_time: fx(500), speed: fx(1) };
    spawn_furniture_system(&fixed_wait, &list, &mut other, fx(5000));
    assert_eq!(other.0.duration.raw, 500);
}

#[test]
fn furniture_leaves_past_the_left_margin() {
    let window = Size::new(fx(800_000), fx(600_000));
    assert_eq!(despawn_furniture_system(&window, v(-600_000, 0)), Fate::Keep);
    assert_eq!(despawn_furniture_system(&window, v(-600_001, 0)), Fate::Despawn);
    assert_eq!(despawn_furniture_system(&window, v(0, 0)), Fate::Keep);
}

#[test]
fn the_pool_sends_one_piece_at_a_time() {
    let window = Size::new(fx(800_000), fx(600_000));
    let mut pool = setup_furnitures();
    assert_eq!(pool.len(), 10);
    assert!(pool.iter().all(|w| !w.is_visible && w.position == v(0, 0)));
    assert_eq!(pool[0].collider, ColliderBox { w: fx(84_000), h: fx(136_000) });
    assert_eq!(start_position(window), v(600_000, -250_000));
    let mut timer = SpawnTimer(Timer::from_seconds(fx(100), true));
    oh_no_lava::sys::furnitures::spawn_system(&window, &mut timer, &mut pool, fx(50));
    assert!(pool.iter().all(|w| !w.is_visible));
    assert_eq!(find_idle(&pool), Some(0));
    oh_no_lava::sys::furnitures::spawn_system(&window, &mut timer, &mut pool, fx(50));
    assert!(pool[0].is_visible);
    assert_eq!(pool[0].position, v(600_000, -250_000));
    assert_eq!(pool[0].velocity.0, v(-60_000, 0));
    assert!(pool[1..].iter().all(|w| !w.is_visible));
    assert!(timer.0.duration.raw >= 2900 && timer.0.duration.raw < 4200);
    assert_eq!(find_idle(&pool), Some(1));
    let wait = timer.0.duration.raw;
    oh_no_lava::sys::furnitures::spawn_system(&window, &mut timer, &mut pool, fx(wait));
    assert!(pool[1].is_visible);
    assert!(pool[2..].iter().all(|w| !w.is_visible));
    // A piece that has drifted out is taken back.
    pool[0].position = v(-600_001, -250_000);
    let mut gone = pool[0];
    despawn_system(&window, &mut gone);
    assert!(!gone.is_visible);
    assert_eq!(gone.position, v(600_000, -250_000));
    assert_eq!(gone.velocity.0, v(0, 0));
    let mut staying = pool[1];
    despawn_system(&window, &mut staying);
    assert_eq!(staying, pool[1]);
    // With every piece on its way nothing more is sent.
    for wave in pool.iter_mut() {
        wave.is_visible = true;
    }
    assert_eq!(find_idle(&pool), None);
    let before = pool.clone();
    let wait = timer.0.duration.raw;
    oh_no_lava::sys::furnitures::spawn_system(&window, &mut timer, &mut pool, fx(wait));
    assert_eq!(pool, before);
}

#[test]
fn the_level_has_a_floor_and_two_walls() {
    let level = setup_game_system(fx(64_000)).unwrap();
    assert_eq!(level.len(), 3);
    assert_eq!(level[0], setup_ground());
    assert_eq!(level[0].position, v(0, -268_000));
    assert_eq!(level[0].collider, ColliderBox { w: fx(800_000), h: fx(64_000) });
    assert_eq!(level[0].kind, ObstacleKind::Ground);
    assert_eq!(level[1].position, v(300_000, -300_000));
    assert_eq!(level[2].position, v(-300_000, -300_000));
    for wall in &level[1..] {
        assert_eq!(wall.collider, ColliderBox { w: fx(40_000), h: fx(600_000) });
        assert_eq!(wall.kind, ObstacleKind::Wall);
    }
    assert_eq!(setup_game_system(fx(0)), Err(ConfigError::NonPositiveHeight));
    assert_eq!(setup_game_system(fx(-1)), Err(ConfigError::NonPositiveHeight));
}

#[test]
fn the_actors_enter_the_level_as_designed() {
    let s = setup_player_system();
    assert_eq!(s.actor.body.position, v(100_000, -220_000));
    assert_eq!(s.raycast.direction, v(1000, 0));
    assert_eq!(s.raycast.t_min.raw, 8000);
    assert_eq!(s.raycast.t_max.raw, 12_000);
    assert_eq!(s.ground_raycasts.len(), 3);
    assert_eq!(s.crosshair.distance.raw, 40_000);
    assert_eq!(s.stretch_timer.0, Timer::from_seconds(fx(600), false));
    assert_eq!(s.animation_timer.0, Timer::from_seconds(fx(100), true));
    assert!(s.controller.movement_action.is_empty());

    let p = spawn_system();
    assert_eq!(p.player.body.position, v(0, -220_000));
    assert_eq!(p.player.collider, ColliderBox { w: fx(32_000), h: fx(32_000) });
    assert_eq!(p.player.jumps.jumps_remaining, 2);
    assert_eq!(p.raycast.probe_size(), v(4000, 1000));
    assert_eq!(p.ground_raycast.probe_size(), v(1000, 16_000));
    assert_eq!(p.animation.data.len(), 2);

    let scaled = setup();
    assert_eq!(scaled.actor.body.position, v(0, 0));
    assert_eq!(scaled.actor.collider, ColliderBox { w: fx(32_000), h: fx(64_000) });
    assert_eq!(scaled.animation.current_anim, 1);
    assert_eq!(scaled.animation.data[0], AnimationData::new(AnimationState::Idle, 0, 5, 0));
    assert_eq!(scaled.animation.data[1], AnimationData::new(AnimationState::Run, 16, 8, 0));
    assert_eq!(scaled.animation_timer.0, Timer::from_seconds(fx(100), true));
}

#[test]
fn lava_bubbles_line_the_floor() {
    let bubbles = setup_lava_bubbles_system(fx(32_000));
    assert_eq!(bubbles.len(), 8);
    for (i, bubble) in bubbles.iter().enumerate() {
        assert_eq!(bubble.position, v(-368_000 + 100_000 * i as i64, -204_000));
        assert!(bubble.data.offset < 24);
        assert_eq!(*bubble, lava_bubble(i, fx(32_000), bubble.data.offset));
        assert_eq!(bubble.data.frames_count, 25);
    }
    assert_eq!(setup_lava_bubbles().len(), 8);
    assert_eq!(setup_lava_bubbles()[7].position, v(332_000, -204_000));
    assert_eq!(lava_bubble(3, fx(10_000), 5).position, v(-68_000, -226_000));
}

#[test]
fn the_colours_of_the_game() {
    assert_eq!(Colors::water(), Rgb { r: 212, g: 241, b: 249 });
    assert_eq!(Colors::lava(), Rgb { r: 207, g: 16, b: 32 });
    assert_eq!(Colors::intense_lava(), Rgb { r: 238, g: 18, b: 66 });
    assert_eq!(Colors::linen(), Rgb { r: 246, g: 242, b: 237 });
}

#[test]
fn a_single_run_of_frames_steps_with_its_timer() {
    let mut data = AnimationData::new(AnimationState::Idle, 0, 25, 7);
    let mut timer = AnimationTimer(Timer::from_seconds(fx(100), true));
    let mut index: u64 = 99;
    animate_frames(&mut data, &mut timer, &mut index, fx(50));
    assert_eq!(index, 99);
    assert_eq!(data, AnimationData::new(AnimationState::Idle, 0, 25, 7));
    animate_frames(&mut data, &mut timer, &mut index, fx(50));
    assert_eq!(index, 6);
    assert_eq!(data.current_index, 1);
    animate_frames(&mut data, &mut timer, &mut index, fx(100));
    assert_eq!(index, 5);
}

#[test]
fn the_usual_level_needs_no_floor_height() {
    assert_eq!(setup_level(), setup_game_system(fx(64_000)).unwrap());
    assert_eq!(setup_level()[0], setup_ground());
    assert_eq!(setup_level().len(), 3);
}

#[test]
fn furniture_on_its_way_is_a_wall() {
    let mut pool = setup_furnitures();
    assert_eq!(pool[0].as_obstacle(), None);
    pool[0].is_visible = true;
    pool[0].position = v(600_000, -250_000);
    pool[0].velocity = oh_no_lava::comp::physics::Velocity::new(fx(-60_000), fx(0));
    let o = pool[0].as_obstacle().unwrap();
    assert_eq!(o.position, v(600_000, -250_000));
    assert_eq!(o.collider, ColliderBox { w: fx(84_000), h: fx(136_000) });
    assert_eq!(o.velocity.0, v(-60_000, 0));
    assert_eq!(o.kind, ObstacleKind::Wall);
}

#[test]
fn a_wall_jump_raises_ten_specks_away_from_the_wall() {
    let kick = oh_no_lava::player::WallJumped { position: v(900, 15_100), direction: -1 };
    let burst = spawn_wall_jump_dust(&kick, 1);
    assert_eq!(burst.len(), 10);
    for speck in burst.iter() {
        assert_eq!(speck.position, v(900, 15_100));
        assert_eq!(speck.velocity.0.y.raw - speck.velocity.0.x.raw, 2000);
        assert!(speck.velocity.0.x.raw >= -1000 - 20_000);
        assert!(speck.velocity.0.x.raw < -1000 + 20_000);
    }
    let kick = oh_no_lava::player::WallJumped { position: v(0, 0), direction: 1 };
    for speck in spawn_wall_jump_dust(&kick, -1).iter() {
        assert_eq!(speck.velocity.0.y, speck.velocity.0.x);
    }
}
