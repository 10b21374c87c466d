use oh_no_lava::collide_aabb::collide;
use oh_no_lava::collide_aabb::Collision;
use oh_no_lava::comp::physics::Body;
use oh_no_lava::comp::physics::ColliderBox;
use oh_no_lava::comp::physics::Drag;
use oh_no_lava::comp::physics::Gravity;
use oh_no_lava::comp::physics::GravitationalAttraction;
use oh_no_lava::comp::physics::Velocity;
use oh_no_lava::fixed::Fixed;
use oh_no_lava::obstacle::ConfigError;
use oh_no_lava::obstacle::Obstacle;
use oh_no_lava::obstacle::ObstacleKind;
use oh_no_lava::sys::physics::adjust_jump;
use oh_no_lava::sys::physics::apply_drag;
use oh_no_lava::sys::physics::apply_gravity;
use oh_no_lava::sys::physics::apply_velocity;
use oh_no_lava::sys::physics::find_collisions;
use oh_no_lava::sys::physics::player_ground_collision;
use oh_no_lava::vec2::isqrt;
use oh_no_lava::vec2::Vec2;

fn fx(raw: i64) -> Fixed {
    Fixed::from_raw(raw)
}

fn v(x: i64, y: i64) -> Vec2 {
    Vec2::new(fx(x), fx(y))
}

fn body(px: i64, py: i64, vx: i64, vy: i64) -> Body {
    let mut b = Body::new(v(px, py));
    b.velocity = Velocity::new(fx(vx), fx(vy));
    b
}

fn solid(px: i64, py: i64, w: i64, h: i64, kind: ObstacleKind) -> Obstacle {
    Obstacle::new(v(px, py), ColliderBox { w: fx(w), h: fx(h) }, Velocity::default(), kind).unwrap()
}

#[test]
fn fixed_arithmetic_is_exact() {
    assert_eq!(Fixed::from_int(3).raw, 3000);
    assert_eq!(fx(1500).plus(fx(250)).raw, 1750);
    assert_eq!(fx(1500).minus(fx(2500)).raw, -1000);
    assert_eq!(fx(2500).times(fx(400)).raw, 1000);
    assert_eq!(fx(-50_000).times(fx(16)).raw, -800);
    assert_eq!(fx(1).times(fx(1)).raw, 0);
    assert_eq!(fx(-1).times(fx(999)).raw, 0);
    assert_eq!(fx(1000).over(fx(3000)).unwrap().raw, 333);
    assert_eq!(fx(-1000).over(fx(3000)).unwrap().raw, -333);
    assert!(fx(1000).over(fx(0)).is_none());
    assert_eq!(fx(-7).half().raw, -3);
    assert_eq!(fx(7).half().raw, 3);
    assert_eq!(fx(-7).abs().raw, 7);
    assert_eq!(fx(5).neg().raw, -5);
    assert_eq!(fx(5).signum(), 1);
    assert_eq!(fx(-5).signum(), -1);
    assert_eq!(fx(0).signum(), 0);
    assert_eq!(fx(5).clamp(fx(0), fx(3)).raw, 3);
    assert_eq!(fx(-5).clamp(fx(0), fx(3)).raw, 0);
    assert_eq!(fx(2).clamp(fx(0), fx(3)).raw, 2);
}

#[test]
fn fixed_arithmetic_saturates() {
    assert_eq!(fx(i64::MAX).plus(fx(1)).raw, i64::MAX);
    assert_eq!(fx(i64::MIN).minus(fx(1)).raw, i64::MIN);
    assert_eq!(fx(i64::MIN).neg().raw, i64::MAX);
    assert_eq!(fx(i64::MIN).abs().raw, i64::MAX);
    assert_eq!(fx(i64::MAX).times(fx(2000)).raw, i64::MAX);
    assert_eq!(fx(i64::MAX).times(fx(-2000)).raw, i64::MIN);
    assert_eq!(Fixed::from_int(i64::MAX).raw, i64::MAX);
    assert_eq!(fx(i64::MAX).over(fx(1)).unwrap().raw, i64::MAX);
}

#[test]
fn integer_square_root_is_the_floor() {
    assert_eq!(isqrt(0), 0);
    assert_eq!(isqrt(1), 1);
    assert_eq!(isqrt(3), 1);
    assert_eq!(isqrt(4), 2);
    assert_eq!(isqrt(24), 4);
    assert_eq!(isqrt(25), 5);
    assert_eq!(isqrt(1_000_000), 1000);
    assert_eq!(isqrt(u128::MAX), u64::MAX);
}

#[test]
fn vectors_add_scale_and_normalize() {
    assert_eq!(v(1000, 2000).plus(v(500, -500)), v(1500, 1500));
    assert_eq!(v(1000, 2000).minus(v(500, -500)), v(500, 2500));
    assert_eq!(v(1000, -2000).scaled(fx(500)), v(500, -1000));
    assert_eq!(v(3000, 4000).length().raw, 5000);
    assert_eq!(v(3000, 4000).normalize(), v(600, 800));
    assert_eq!(v(-3000, 4000).normalize(), v(-600, 800));
    assert_eq!(v(1000, 1000).normalize(), v(707, 707));
    assert_eq!(v(0, 0).normalize(), v(0, 0));
    assert_eq!(v(10_000, 0).lerp(v(0, 0), fx(250)), v(7500, 0));
    assert_eq!(v(i64::MIN, i64::MAX).lerp(v(0, 0), fx(1000)), v(0, 0));
    assert_eq!(v(i64::MIN, i64::MAX).lerp(v(i64::MAX, i64::MIN), fx(1000)), v(i64::MAX, i64::MIN));
    assert_eq!(v(i64::MIN, 0).lerp(v(i64::MAX, 0), fx(2000)), v(i64::MAX, 0));
}

#[test]
fn collide_reports_the_shallow_side() {
    let size = v(10_000, 10_000);
    // `a` reaches over the left edge of `b` by 2, and is level with it.
    assert_eq!(collide(v(-8000, 0), size, v(0, 0), size), Some(Collision::Left));
    // Two deep sideways, nine deep from above: the side wins.
    assert_eq!(collide(v(-8000, 1000), size, v(0, 0), size), Some(Collision::Left));
    // A box that lies within the other crosses no edge.
    assert_eq!(collide(v(0, 0), v(2000, 2000), v(0, 0), size), Some(Collision::Inside));
    assert_eq!(collide(v(-8000, -9000), size, v(0, 0), size), Some(Collision::Bottom));
    assert_eq!(collide(v(-9000, -5000), size, v(0, 0), size), Some(Collision::Left));
    assert_eq!(collide(v(9000, -5000), size, v(0, 0), size), Some(Collision::Right));
    assert_eq!(collide(v(0, -9000), size, v(0, 0), size), Some(Collision::Bottom));
    assert_eq!(collide(v(0, 9000), size, v(0, 0), size), Some(Collision::Top));
    // Equal depths on both axes: the horizontal side is reported.
    assert_eq!(collide(v(-9000, -9000), size, v(0, 0), size), Some(Collision::Left));
}

#[test]
fn collide_ignores_boxes_that_only_touch() {
    let size = v(10_000, 10_000);
    assert_eq!(collide(v(-10_000, 0), size, v(0, 0), size), None);
    assert_eq!(collide(v(0, 10_000), size, v(0, 0), size), None);
    assert_eq!(collide(v(30_000, 0), size, v(0, 0), size), None);
    assert_eq!(collide(v(-9999, 0), size, v(0, 0), size), Some(Collision::Left));
}

#[test]
fn integration_moves_by_velocity_times_time() {
    let mut b = body(0, 10_000, 0, -50_000);
    apply_velocity(&mut b, fx(16));
    assert_eq!(b.position, v(0, 9200));
    assert_eq!(b.velocity, Velocity::new(fx(0), fx(-50_000)));
}

#[test]
fn integration_adds_up_over_ticks() {
    let mut b = body(1000, -2000, 12_345, -6789);
    b.attraction = GravitationalAttraction { is_active: false };
    for _ in 0..100 {
        apply_velocity(&mut b, fx(16));
    }
    // 12.345 * 0.016 = 0.19752 -> 197 per tick; -6.789 * 0.016 -> -108 per tick.
    assert_eq!(b.position, v(1000 + 100 * 197, -2000 - 100 * 108));
}

#[test]
fn gravity_pulls_only_while_active() {
    let g = Gravity(fx(392_800));
    let mut b = body(0, 0, 3000, 10_000);
    apply_gravity(&mut b, &g, fx(16));
    // 392.8 * 0.016 = 6.2848 -> 6.284
    assert_eq!(b.velocity, Velocity::new(fx(3000), fx(10_000 - 6284)));
    b.attraction = GravitationalAttraction { is_active: false };
    apply_gravity(&mut b, &g, fx(16));
    assert_eq!(b.velocity, Velocity::new(fx(3000), fx(0)));
}

#[test]
fn drag_decays_velocity_and_never_overshoots() {
    let mut b = body(0, 0, 100_000, -50_000);
    b.drag = Drag(fx(1850));
    apply_drag(&mut b, fx(16));
    // share = 0.016 * 1.85 = 0.0296 -> 0.029; 100 - 100 * 0.029 = 97.1
    assert_eq!(b.velocity, Velocity::new(fx(97_100), fx(-48_550)));
    // A tick so long that the share would pass one stops the body.
    apply_drag(&mut b, fx(10_000));
    assert_eq!(b.velocity, Velocity::new(fx(0), fx(0)));
    // A full share brings any velocity to rest, the largest ones too.
    let mut d = Body::new(v(0, 0));
    d.velocity = Velocity::new(fx(i64::MIN), fx(i64::MAX));
    d.drag = Drag(fx(1850));
    apply_drag(&mut d, fx(10_000));
    assert_eq!(d.velocity, Velocity::new(fx(0), fx(0)));
    let mut e = Body::new(v(0, 0));
    e.velocity = Velocity::new(fx(i64::MIN), fx(i64::MAX));
    e.drag = Drag(fx(1000));
    apply_drag(&mut e, fx(500));
    assert_eq!(e.velocity, Velocity::new(fx(i64::MIN / 2), fx(i64::MAX - i64::MAX / 2)));
    // A negative time leaves the velocity alone.
    let mut c = body(0, 0, 100_000, 0);
    c.drag = Drag(fx(1850));
    apply_drag(&mut c, fx(-16));
    assert_eq!(c.velocity, Velocity::new(fx(100_000), fx(0)));
}

#[test]
fn falling_is_sped_up_and_released_jumps_are_cut() {
    let g = Gravity(fx(100_000));
    let mut falling = body(0, 0, 0, -10_000);
    adjust_jump(&mut falling, &g, true, fx(100));
    // extra pull: 100 * (2.5 - 1) * 0.1 = 15
    assert_eq!(falling.velocity.0.y.raw, -25_000);
    let mut rising_held = body(0, 0, 0, 50_000);
    adjust_jump(&mut rising_held, &g, true, fx(100));
    assert_eq!(rising_held.velocity.0.y.raw, 50_000);
    let mut rising_released = body(0, 0, 0, 50_000);
    adjust_jump(&mut rising_released, &g, false, fx(100));
    // extra pull: 100 * (2 - 1) * 0.1 = 10
    assert_eq!(rising_released.velocity.0.y.raw, 40_000);
    let mut resting = body(0, 0, 0, -10_000);
    resting.attraction = GravitationalAttraction { is_active: false };
    adjust_jump(&mut resting, &g, false, fx(100));
    assert_eq!(resting.velocity.0.y.raw, -10_000);
}

#[test]
fn obstacles_without_extent_are_refused() {
    let at = v(0, 0);
    let rest = Velocity::default();
    assert_eq!(
        Obstacle::new(at, ColliderBox { w: fx(0), h: fx(10) }, rest, ObstacleKind::Ground),
        Err(ConfigError::NonPositiveWidth)
    );
    assert_eq!(
        Obstacle::new(at, ColliderBox { w: fx(-1), h: fx(-1) }, rest, ObstacleKind::Ground),
        Err(ConfigError::NonPositiveWidth)
    );
    assert_eq!(
        Obstacle::new(at, ColliderBox { w: fx(10), h: fx(0) }, rest, ObstacleKind::Wall),
        Err(ConfigError::NonPositiveHeight)
    );
    assert!(Obstacle::new(at, ColliderBox { w: fx(1), h: fx(1) }, rest, ObstacleKind::Wall).is_ok());
}

#[test]
fn ground_collision_switches_gravity() {
    let ground = solid(0, 0, 200_000, 20_000, ObstacleKind::Ground);
    let collider = ColliderBox { w: fx(10_000), h: fx(10_000) };
    // Resting a hair above the ground: the probe still reaches it.
    let mut b = body(0, 15_100, 0, 0);
    player_ground_collision(&mut b, &collider, &vec![ground]);
    assert!(!b.attraction.is_active);
    // High above it.
    let mut c = body(0, 30_000, 0, 0);
    c.attraction = GravitationalAttraction { is_active: false };
    player_ground_collision(&mut c, &collider, &vec![ground]);
    assert!(c.attraction.is_active);
    // Any ground counts, whatever its place in the list.
    let far = solid(500_000, 0, 10_000, 10_000, ObstacleKind::Ground);
    let mut d = body(0, 15_100, 0, 0);
    player_ground_collision(&mut d, &collider, &vec![ground, far]);
    assert!(!d.attraction.is_active);
    let mut e = body(0, 15_100, 0, 0);
    player_ground_collision(&mut e, &collider, &vec![]);
    assert!(e.attraction.is_active);
}

#[test]
fn collisions_are_found_nearest_first() {
    let ground = solid(0, 0, 200_000, 20_000, ObstacleKind::Ground);
    let far = solid(500_000, 0, 10_000, 10_000, ObstacleKind::Ground);
    let wall = solid(10_000, 20_000, 10_000, 40_000, ObstacleKind::Wall);
    let collider = ColliderBox { w: fx(10_000), h: fx(10_000) };
    let events = find_collisions(v(1000, 15_100), &collider, &vec![far, wall, ground]);
    assert_eq!(events.len(), 2);
    assert_eq!(events[0].hit_collision, Collision::Right);
    assert_eq!(events[0].hit_transform, v(10_000, 20_000));
    assert_eq!(events[0].hit_size, v(10_000, 40_000));
    assert_eq!(events[1].hit_collision, Collision::Bottom);
    assert_eq!(events[1].hit_transform, v(0, 0));
    // The wall is nearer than the ground, however the list was made.
    assert_eq!(find_collisions(v(1000, 15_100), &collider, &vec![ground, wall, far]), events);
}
