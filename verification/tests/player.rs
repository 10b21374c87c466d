use oh_no_lava::animation::AnimationState;
use oh_no_lava::comp::physics::ColliderBox;
use oh_no_lava::comp::physics::Gravity;
use oh_no_lava::comp::physics::GravitationalAttraction;
use oh_no_lava::comp::physics::Raycast;
use oh_no_lava::comp::physics::Velocity;
use oh_no_lava::fixed::Fixed;
use oh_no_lava::frame::step;
use oh_no_lava::input::adjust_jump_system;
use oh_no_lava::input::flip_sprite_system;
use oh_no_lava::input::jump_kind;
use oh_no_lava::input::motion_state;
use oh_no_lava::input::MotionState;
use oh_no_lava::nearest::distance_squared;
use oh_no_lava::nearest::sort_by_distance;
use oh_no_lava::nearest::stands_later;
use oh_no_lava::input::player_input_system;
use oh_no_lava::input::InputIntents;
use oh_no_lava::input::JumpKind;
use oh_no_lava::obstacle::Obstacle;
use oh_no_lava::obstacle::ObstacleKind;
use oh_no_lava::player::jump;
use oh_no_lava::player::player_collision_system;
use oh_no_lava::player::wall_jump;
use oh_no_lava::player::JumpState;
use oh_no_lava::player::Landed;
use oh_no_lava::player::Player;
use oh_no_lava::player::WallJumped;
use oh_no_lava::raycast::draw_raycast_gizmo_system;
use oh_no_lava::raycast::ground_check_system;
use oh_no_lava::raycast::raycast_hit_system;
use oh_no_lava::raycast::update_raycast_system;
use oh_no_lava::vec2::Vec2;

fn fx(raw: i64) -> Fixed {
    Fixed::from_raw(raw)
}

fn v(x: i64, y: i64) -> Vec2 {
    Vec2::new(fx(x), fx(y))
}

fn actor(px: i64, py: i64) -> Player {
    Player::new(v(px, py), ColliderBox { w: fx(10_000), h: fx(10_000) })
}

fn solid(px: i64, py: i64, w: i64, h: i64, kind: ObstacleKind) -> Obstacle {
    Obstacle::new(v(px, py), ColliderBox { w: fx(w), h: fx(h) }, Velocity::default(), kind).unwrap()
}

fn ground() -> Obstacle {
    solid(0, 0, 200_000, 20_000, ObstacleKind::Ground)
}

fn press_jump() -> InputIntents {
    let mut input = InputIntents::none();
    input.jump_pressed = true;
    input.jump_held = true;
    input
}

fn probe() -> Raycast {
    let mut ray = Raycast::down();
    ray.direction = v(1000, 0);
    ray.t_max = fx(4000);
    ray
}

#[test]
fn a_new_player_has_the_usual_numbers() {
    let p = actor(1000, 2000);
    assert_eq!(p.body.position, v(1000, 2000));
    assert_eq!(p.body.velocity, Velocity::new(fx(0), fx(0)));
    assert!(p.body.attraction.is_active);
    assert_eq!(p.jumps, JumpState { jumps_remaining: 2, max_jumps: 2 });
    assert_eq!(p.speed.raw, 200_000);
    assert_eq!(p.air_speed.raw, 180_000);
    assert_eq!(p.jump_force.raw, 10_000);
    assert_eq!(p.collision_data.facing_direction, 1);
    assert!(!p.collision_data.below && !p.collision_data.prev_below);
    assert!(!p.did_jump);
}

#[test]
fn falling_onto_the_ground_snaps_and_grounds() {
    let mut p = actor(0, 10_000);
    p.body.velocity = Velocity::new(fx(0), fx(-50_000));
    p.jumps.jumps_remaining = 0;
    let gravity = Gravity(fx(392_800));
    let mut ray = probe();
    let mut ground_ray = Raycast::down();
    let events = step(
        &mut p,
        &mut ray,
        &mut ground_ray,
        &InputIntents::none(),
        &vec![ground()],
        &gravity,
        fx(16),
    );
    // Top of the ground 10, half the height of the actor 5, and the gap 0.1.
    assert_eq!(p.body.position, v(0, 15_100));
    assert!(p.collision_data.below);
    assert!(p.collision_data.prev_below);
    assert!(!p.collision_data.left && !p.collision_data.right && !p.collision_data.above);
    assert_eq!(p.jumps.jumps_remaining, 2);
    assert!(!p.body.attraction.is_active);
    // The feet were at 9.2 - 5 when the pass began.
    assert_eq!(events.landed, Some(Landed { position: v(0, 4200) }));
    assert_eq!(events.wall_jumped, None);
    assert!(!events.left_ground);
    assert_eq!(events.animation, AnimationState::Idle);
    // Gravity stays off and the actor stays put until it jumps.
    for _ in 0..10 {
        let later = step(
            &mut p,
            &mut ray,
            &mut ground_ray,
            &InputIntents::none(),
            &vec![ground()],
            &gravity,
            fx(16),
        );
        assert_eq!(later.landed, None);
        assert_eq!(p.body.position, v(0, 15_100));
        assert!(p.collision_data.below);
        assert!(!p.body.attraction.is_active);
        assert_eq!(p.body.velocity.0.y.raw, 0);
    }
}

#[test]
fn the_ground_snap_is_a_fixed_point() {
    let mut p = actor(3000, 12_000);
    let obstacles = vec![ground()];
    assert!(player_collision_system(&mut p, &obstacles).is_some());
    let rested = p;
    assert_eq!(rested.body.position, v(3000, 15_100));
    assert_eq!(player_collision_system(&mut p, &obstacles), None);
    assert_eq!(p.body.position, rested.body.position);
    assert_eq!(p, rested);
}

#[test]
fn the_standing_is_remembered_until_a_ground_jump() {
    let mut p = actor(0, 15_100);
    let obstacles = vec![ground()];
    assert!(player_collision_system(&mut p, &obstacles).is_some());
    // Off the ground without a jump: the flags fall, the memory stays.
    p.body.position = v(0, 40_000);
    p.body.velocity = Velocity::new(fx(3000), fx(-4000));
    p.jumps.jumps_remaining = 1;
    p.collision_data.left = true;
    p.collision_data.above = true;
    assert_eq!(player_collision_system(&mut p, &obstacles), None);
    assert!(!p.collision_data.below && !p.collision_data.above);
    assert!(!p.collision_data.left && !p.collision_data.right);
    assert!(p.collision_data.prev_below);
    assert!(p.body.attraction.is_active);
    assert_eq!(p.body.position, v(0, 40_000));
    assert_eq!(p.body.velocity, Velocity::new(fx(3000), fx(-4000)));
    assert_eq!(p.jumps.jumps_remaining, 1);
    assert_eq!(p.collision_data.facing_direction, 1);
    // Back on the ground without a jump in between: no landing.
    p.body.position = v(0, 15_000);
    assert_eq!(player_collision_system(&mut p, &obstacles), None);
    assert!(p.collision_data.below);
    // A jump off the ground clears the memory, and the next landing counts.
    player_input_system(&mut p, &press_jump());
    assert!(!p.collision_data.prev_below);
    p.body.position = v(0, 15_000);
    assert_eq!(
        player_collision_system(&mut p, &obstacles),
        Some(Landed { position: v(0, 10_000) })
    );
}

#[test]
fn the_pass_does_not_depend_on_the_order_of_the_list() {
    // Two floors one above the other, both under the probed box.
    let lower = solid(0, 0, 100_000, 20_000, ObstacleKind::Ground);
    let upper = solid(0, 1000, 100_000, 20_000, ObstacleKind::Ground);
    let mut a = actor(0, 9200);
    let mut b = actor(0, 9200);
    let landed_a = player_collision_system(&mut a, &vec![lower, upper]);
    let landed_b = player_collision_system(&mut b, &vec![upper, lower]);
    assert_eq!(a, b);
    assert_eq!(landed_a, landed_b);
    // The nearer floor is taken first, so the farther one sets the height.
    assert_eq!(a.body.position, v(0, 15_100));

    let wall = solid(20_000, 20_000, 20_000, 60_000, ObstacleKind::Wall);
    let mut platform = ground();
    platform.velocity = Velocity::new(fx(-60_000), fx(0));
    let listed = vec![lower, wall, platform, upper, wall];
    let turned = vec![wall, upper, wall, platform, lower];
    let gravity = Gravity(fx(392_800));
    for (x, y) in [(5050, 15_100), (0, 9200), (5050, 19_999), (14_000, 30_000)] {
        let mut c = actor(x, y);
        let mut d = actor(x, y);
        let mut rays = (probe(), Raycast::down(), probe(), Raycast::down());
        let input = press_jump();
        for _ in 0..20 {
            let first = step(&mut c, &mut rays.0, &mut rays.1, &input, &listed, &gravity, fx(16));
            let second = step(&mut d, &mut rays.2, &mut rays.3, &input, &turned, &gravity, fx(16));
            assert_eq!(first, second);
            assert_eq!(c, d);
        }
    }
}

#[test]
fn a_moving_platform_carries_the_actor() {
    let mut p = actor(0, 15_000);
    p.body.velocity = Velocity::new(fx(5000), fx(-1000));
    let mut platform = ground();
    platform.velocity = Velocity::new(fx(-60_000), fx(0));
    player_collision_system(&mut p, &vec![platform]);
    assert_eq!(p.body.velocity, Velocity::new(fx(-55_000), fx(-1000)));
}

#[test]
fn a_wall_beside_the_actor_blocks_it() {
    // The wall spans 10..30 sideways and -10..50 in height.
    let wall = solid(20_000, 20_000, 20_000, 60_000, ObstacleKind::Wall);
    let mut p = actor(5050, 15_100);
    player_collision_system(&mut p, &vec![wall]);
    assert!(p.collision_data.right);
    assert!(!p.collision_data.left && !p.collision_data.below);
    // Left edge of the wall 10, half the width 5, and the gap 0.1.
    assert_eq!(p.body.position, v(4900, 15_100));
    assert!(p.body.attraction.is_active);

    let mut q = actor(34_950, 15_100);
    player_collision_system(&mut q, &vec![wall]);
    assert!(q.collision_data.left);
    assert!(!q.collision_data.right);
    assert_eq!(q.body.position, v(35_100, 15_100));
}

#[test]
fn a_box_under_the_centre_is_never_a_wall() {
    // Two boxes side by side with their tops at 10. The actor stands on
    // the first and overlaps the second by a sliver.
    let first = solid(0, 0, 20_000, 20_000, ObstacleKind::Wall);
    let second = solid(20_000, 0, 20_000, 20_000, ObstacleKind::Wall);
    let mut p = actor(5050, 15_100);
    let landed = player_collision_system(&mut p, &vec![first, second]);
    assert!(landed.is_some());
    assert!(p.collision_data.below);
    assert!(!p.collision_data.left && !p.collision_data.right);
    assert_eq!(p.body.position, v(5050, 15_100));
    let mut ray = probe();
    let mut ground_ray = Raycast::down();
    update_raycast_system(&p, &mut ray, &mut ground_ray);
    raycast_hit_system(&mut p, &ray, &vec![first, second]);
    assert!(!p.collision_data.touching_wall);
}

#[test]
fn an_obstacle_overhead_is_flagged() {
    let ceiling = solid(0, 30_000, 200_000, 20_000, ObstacleKind::Ground);
    let mut p = actor(0, 16_000);
    assert_eq!(player_collision_system(&mut p, &vec![ceiling]), None);
    assert!(p.collision_data.above);
    assert!(!p.collision_data.below);
    assert_eq!(p.body.position, v(0, 16_000));
}

#[test]
fn obstacles_without_extent_are_ignored() {
    let mut flat = ground();
    flat.collider = ColliderBox { w: fx(200_000), h: fx(0) };
    let mut p = actor(0, 100);
    assert_eq!(player_collision_system(&mut p, &vec![flat]), None);
    assert!(!p.collision_data.below);
    assert_eq!(p.body.position, v(0, 100));
}

#[test]
fn jumps_come_in_sequence() {
    let mut p = actor(0, 15_100);
    player_collision_system(&mut p, &vec![ground()]);
    assert!(p.collision_data.below);
    assert_eq!(jump_kind(&p), JumpKind::Ground);

    let first = player_input_system(&mut p, &press_jump());
    assert!(first.left_ground);
    assert_eq!(p.body.velocity.0.y.raw, 200_000);
    assert_eq!(p.body.position, v(0, 15_300));
    assert_eq!(p.jumps.jumps_remaining, 1);
    assert!(!p.collision_data.below && !p.collision_data.prev_below);
    assert!(p.body.attraction.is_active);
    assert!(p.did_jump);

    let second = player_input_system(&mut p, &press_jump());
    assert!(!second.left_ground);
    assert_eq!(p.body.velocity.0.y.raw, 140_000);
    assert_eq!(p.body.position, v(0, 15_300));
    assert_eq!(p.jumps.jumps_remaining, 0);

    let before = p;
    assert_eq!(jump_kind(&p), JumpKind::Rejected);
    player_input_system(&mut p, &press_jump());
    assert_eq!(p, before);
}

#[test]
fn jump_spam_never_breaks_the_count() {
    let mut p = actor(0, 15_100);
    let gravity = Gravity(fx(392_800));
    let mut ray = probe();
    let mut ground_ray = Raycast::down();
    let wall = solid(60_000, 50_000, 20_000, 200_000, ObstacleKind::Wall);
    let obstacles = vec![ground(), wall];
    let mut input = press_jump();
    input.move_right = true;
    for _ in 0..400 {
        step(&mut p, &mut ray, &mut ground_ray, &input, &obstacles, &gravity, fx(16));
        assert!(p.jumps.jumps_remaining <= p.jumps.max_jumps);
        assert_eq!(p.jumps.max_jumps, 2);
    }
}

#[test]
fn a_jump_does_nothing_without_jumps() {
    let mut p = actor(0, 0);
    p.jumps.jumps_remaining = 0;
    let before = p;
    jump(&mut p);
    assert_eq!(p, before);
}

#[test]
fn a_wall_jump_refills_the_jumps() {
    let mut p = actor(4900, 15_100);
    p.jumps.jumps_remaining = 0;
    p.collision_data.right = true;
    p.body.attraction = GravitationalAttraction { is_active: false };
    assert_eq!(jump_kind(&p), JumpKind::Wall);
    let outcome = player_input_system(&mut p, &press_jump());
    assert_eq!(p.jumps.jumps_remaining, 2);
    assert_eq!(p.body.position, v(900, 15_100));
    // Jump force 10 times 10, one unit away from the wall and three up.
    assert_eq!(p.body.velocity, Velocity::new(fx(-100_000), fx(300_000)));
    assert_eq!(p.collision_data.facing_direction, -1);
    assert!(p.collision_data.is_wall_jumping);
    assert!(p.body.attraction.is_active);
    assert_eq!(
        outcome.wall_jumped,
        Some(WallJumped { position: v(900, 15_100), direction: -1 })
    );
    assert_eq!(outcome.animation, AnimationState::Run);

    let mut q = actor(0, 0);
    q.jumps.jumps_remaining = 1;
    wall_jump(&mut q, v(1000, 3000));
    assert_eq!(q.jumps.jumps_remaining, 2);
    assert_eq!(q.body.velocity, Velocity::new(fx(100_000), fx(300_000)));
}

#[test]
fn held_keys_set_the_speed_and_the_facing() {
    let mut p = actor(0, 15_100);
    player_collision_system(&mut p, &vec![ground()]);
    let mut input = InputIntents::none();
    input.move_left = true;
    let outcome = player_input_system(&mut p, &input);
    assert_eq!(p.body.velocity.0.x.raw, -200_000);
    assert_eq!(p.collision_data.facing_direction, -1);
    assert_eq!(outcome.animation, AnimationState::Run);
    assert!(flip_sprite_system(&p));

    // In the air the speed is lower, and the right key wins over the left.
    p.collision_data.below = false;
    input.move_right = true;
    player_input_system(&mut p, &input);
    assert_eq!(p.body.velocity.0.x.raw, 180_000);
    assert_eq!(p.collision_data.facing_direction, 1);
    assert!(!flip_sprite_system(&p));

    let idle = player_input_system(&mut p, &InputIntents::none());
    assert_eq!(p.body.velocity.0.x.raw, 0);
    assert_eq!(p.collision_data.facing_direction, 1);
    assert_eq!(idle.animation, AnimationState::Idle);
}

#[test]
fn a_wall_jump_keeps_its_momentum() {
    let mut p = actor(0, 50_000);
    p.collision_data.is_wall_jumping = true;
    p.body.velocity = Velocity::new(fx(-100_000), fx(300_000));
    let mut input = InputIntents::none();
    input.move_right = true;
    player_input_system(&mut p, &input);
    assert_eq!(p.body.velocity.0.x.raw, 80_000);
    player_input_system(&mut p, &input);
    assert_eq!(p.body.velocity.0.x.raw, 260_000);
    // Beyond the air speed the keys take over again.
    player_input_system(&mut p, &input);
    assert_eq!(p.body.velocity.0.x.raw, 180_000);
}

#[test]
fn climbing_needs_a_wall() {
    let mut p = actor(0, 50_000);
    p.body.velocity = Velocity::new(fx(0), fx(-7000));
    let mut input = InputIntents::none();
    input.climb_up = true;
    player_input_system(&mut p, &input);
    assert_eq!(p.body.velocity.0.y.raw, -7000);
    p.collision_data.touching_wall = true;
    player_input_system(&mut p, &input);
    assert_eq!(p.body.velocity.0.y.raw, 64_000);
    input.climb_down = true;
    player_input_system(&mut p, &input);
    assert_eq!(p.body.velocity.0.y.raw, -84_000);
    assert!(flip_sprite_system(&p));
}

#[test]
fn holding_jump_keeps_the_rise_and_releasing_cuts_it() {
    let gravity = Gravity(fx(100_000));
    let mut held = actor(0, 50_000);
    held.body.velocity = Velocity::new(fx(0), fx(20_000));
    let mut released = held;
    let mut ticks_held = 0;
    while held.body.velocity.0.y.raw > 0 {
        let before = held.body.velocity.0.y.raw;
        adjust_jump_system(&mut held, &gravity, true, fx(16));
        // Shaping leaves a held rise alone; only gravity slows it.
        assert_eq!(held.body.velocity.0.y.raw, before);
        held.body.velocity = Velocity::new(fx(0), fx(before - 1600));
        ticks_held += 1;
    }
    let mut ticks_released = 0;
    while released.body.velocity.0.y.raw > 0 {
        let before = released.body.velocity.0.y.raw;
        adjust_jump_system(&mut released, &gravity, false, fx(16));
        // One more gravity for each tick of the released rise.
        assert_eq!(released.body.velocity.0.y.raw, before - 1600);
        released.body.velocity = Velocity::new(fx(0), fx(before - 3200));
        ticks_released += 1;
    }
    assert_eq!(ticks_held, 13);
    assert_eq!(ticks_released, 7);
    // Once the actor falls, holding makes no difference.
    held.body.velocity = Velocity::new(fx(0), fx(-1000));
    adjust_jump_system(&mut held, &gravity, true, fx(16));
    assert_eq!(held.body.velocity.0.y.raw, -1000 - 2400);
    // On the ground and against a wall nothing is shaped.
    let mut standing = actor(0, 0);
    standing.collision_data.below = true;
    standing.body.velocity = Velocity::new(fx(0), fx(-1000));
    adjust_jump_system(&mut standing, &gravity, false, fx(16));
    assert_eq!(standing.body.velocity.0.y.raw, -1000);
    let mut clinging = actor(0, 0);
    clinging.collision_data.touching_wall = true;
    clinging.body.velocity = Velocity::new(fx(0), fx(5000));
    adjust_jump_system(&mut clinging, &gravity, false, fx(16));
    assert_eq!(clinging.body.velocity.0.y.raw, 5000);
}

#[test]
fn the_probes_follow_the_actor() {
    let mut p = actor(7000, 3000);
    let mut ray = probe();
    let mut ground_ray = Raycast::down();
    update_raycast_system(&p, &mut ray, &mut ground_ray);
    assert_eq!(ray.origin, v(12_000, 3000));
    assert_eq!(ground_ray.origin, v(7000, -2000));
    assert_eq!(draw_raycast_gizmo_system(&ray), (v(12_000, 3000), v(4000, 1000)));
    assert_eq!(draw_raycast_gizmo_system(&ground_ray), (v(7000, -2000), v(1000, 12_000)));
    p.collision_data.facing_direction = -1;
    update_raycast_system(&p, &mut ray, &mut ground_ray);
    assert_eq!(ray.origin, v(2000, 3000));
    // Only the origins move: direction and length are as they were made.
    let mut made = probe();
    made.origin = v(2000, 3000);
    assert_eq!(ray, made);
    let mut made_down = Raycast::down();
    made_down.origin = v(7000, -2000);
    assert_eq!(ground_ray, made_down);
    // A probe that was made to look the other way keeps looking that way.
    let mut odd = Raycast::down();
    odd.direction = v(-1000, 0);
    p.collision_data.facing_direction = 1;
    update_raycast_system(&p, &mut odd, &mut ground_ray);
    assert_eq!(odd.direction, v(-1000, 0));
    assert_eq!(odd.origin, v(12_000, 3000));
    assert_eq!(odd.probe_size(), v(12_000, 1000));
}

#[test]
fn the_wall_probe_feels_a_wall_before_the_body_does() {
    // The wall spans 11..31 sideways; the actor's right edge is at 10.
    let wall = solid(21_000, 20_000, 20_000, 60_000, ObstacleKind::Wall);
    let mut p = actor(5000, 15_100);
    player_collision_system(&mut p, &vec![wall]);
    assert!(!p.collision_data.right);
    let mut ray = probe();
    let mut ground_ray = Raycast::down();
    update_raycast_system(&p, &mut ray, &mut ground_ray);
    raycast_hit_system(&mut p, &ray, &vec![wall]);
    assert!(p.collision_data.touching_wall);
    assert!(!p.body.attraction.is_active);
    assert_eq!(p.body.position, v(5000, 15_100));
    // Turned away from the wall the actor feels nothing.
    p.collision_data.facing_direction = -1;
    p.body.attraction = GravitationalAttraction { is_active: true };
    update_raycast_system(&p, &mut ray, &mut ground_ray);
    raycast_hit_system(&mut p, &ray, &vec![wall]);
    assert!(!p.collision_data.touching_wall);
    assert!(p.body.attraction.is_active);
}

#[test]
fn the_wall_probe_passes_over_plain_ground() {
    let block = solid(21_000, 20_000, 20_000, 60_000, ObstacleKind::Ground);
    let mut p = actor(5000, 15_100);
    let mut ray = probe();
    let mut ground_ray = Raycast::down();
    update_raycast_system(&p, &mut ray, &mut ground_ray);
    raycast_hit_system(&mut p, &ray, &vec![block]);
    assert!(!p.collision_data.touching_wall);
}

#[test]
fn a_probe_at_the_top_of_a_wall_mantles_the_actor() {
    // The wall spans 11..31 sideways and its top is at 15.
    let wall = solid(21_000, 5000, 20_000, 20_000, ObstacleKind::Wall);
    // The probe reaches 0.2 into the wall and 0.3 below its top.
    let mut p = actor(4200, 15_200);
    let mut ray = probe();
    let mut ground_ray = Raycast::down();
    update_raycast_system(&p, &mut ray, &mut ground_ray);
    raycast_hit_system(&mut p, &ray, &vec![wall]);
    assert!(!p.collision_data.touching_wall);
    // Flush with the left edge of the wall, feet on its top.
    assert_eq!(p.body.position, v(16_000, 20_000));
}

#[test]
fn the_ground_probe_sets_the_actor_down() {
    let mut p = actor(0, 20_000);
    p.jumps.jumps_remaining = 0;
    let mut ray = probe();
    let mut ground_ray = Raycast::down();
    update_raycast_system(&p, &mut ray, &mut ground_ray);
    // The probe reaches from 9 to 21 and sticks out of the ground at 10.
    ground_check_system(&mut p, &ground_ray, &vec![ground()]);
    assert!(p.collision_data.below);
    assert_eq!(p.body.position, v(0, 15_100));
    assert_eq!(p.jumps.jumps_remaining, 2);
    assert!(!p.body.attraction.is_active);
    // The probe leaves the memory alone, so the pass reports the landing.
    assert!(!p.collision_data.prev_below);
    assert_eq!(
        player_collision_system(&mut p, &vec![ground()]),
        Some(Landed { position: v(0, 10_100) })
    );

    let mut q = actor(0, 40_000);
    update_raycast_system(&q, &mut ray, &mut ground_ray);
    ground_check_system(&mut q, &ground_ray, &vec![ground()]);
    assert!(!q.collision_data.below);
    assert_eq!(q.body.position, v(0, 40_000));
}

#[test]
fn equal_inputs_give_equal_runs() {
    let gravity = Gravity(fx(392_800));
    let wall = solid(60_000, 50_000, 20_000, 200_000, ObstacleKind::Wall);
    let obstacles = vec![ground(), wall];
    let mut runs: Vec<Player> = Vec::new();
    for _ in 0..2 {
        let mut p = actor(0, 15_100);
        let mut ray = probe();
        let mut ground_ray = Raycast::down();
        for tick in 0..300 {
            let mut input = InputIntents::none();
            input.move_right = tick % 50 < 40;
            input.jump_pressed = tick % 37 == 0;
            input.jump_held = tick % 37 < 9;
            step(&mut p, &mut ray, &mut ground_ray, &input, &obstacles, &gravity, fx(16));
        }
        runs.push(p);
    }
    assert_eq!(runs[0], runs[1]);
}

#[test]
fn the_state_of_an_actor_follows_its_contacts() {
    let mut p = actor(0, 0);
    assert_eq!(motion_state(&p), MotionState::Airborne);
    p.collision_data.touching_wall = true;
    assert_eq!(motion_state(&p), MotionState::WallAdjacent);
    p.collision_data.touching_wall = false;
    p.collision_data.left = true;
    assert_eq!(motion_state(&p), MotionState::WallAdjacent);
    p.collision_data.below = true;
    assert_eq!(motion_state(&p), MotionState::Idle);
    p.body.velocity = Velocity::new(fx(-1), fx(0));
    assert_eq!(motion_state(&p), MotionState::Grounded);
}

#[test]
fn obstacles_are_sorted_nearest_first() {
    let far = solid(50_000, 0, 1000, 1000, ObstacleKind::Ground);
    let near = solid(3000, 4000, 1000, 1000, ObstacleKind::Wall);
    let here = solid(1000, 1000, 1000, 1000, ObstacleKind::Ground);
    let also_near = solid(-4000, 3000, 2000, 2000, ObstacleKind::Ground);
    assert_eq!(distance_squared(v(1000, 1000), &near), 13_000_000);
    assert_eq!(distance_squared(v(1000, 1000), &here), 0);
    let listed = vec![far, near, here, also_near, near];
    let sorted = sort_by_distance(v(0, 0), &listed);
    // At the same distance the obstacle's own values decide: the smaller
    // `x` of the centre comes first, however the list was made.
    assert_eq!(sorted, vec![here, also_near, near, near, far]);
    let sorted = sort_by_distance(v(0, 0), &vec![also_near, far, near]);
    assert_eq!(sorted, vec![also_near, near, far]);
    let sorted = sort_by_distance(v(0, 0), &vec![near, also_near]);
    assert_eq!(sorted, vec![also_near, near]);
    assert!(sort_by_distance(v(0, 0), &vec![]).is_empty());
}

#[test]
fn the_order_of_obstacles_is_total() {
    let at = v(0, 0);
    let base = solid(3000, 4000, 1000, 1000, ObstacleKind::Ground);
    assert!(!stands_later(at, &base, &base));
    let mut other = base;
    other.kind = ObstacleKind::Wall;
    assert!(stands_later(at, &other, &base) && !stands_later(at, &base, &other));
    other = base;
    other.velocity = Velocity::new(fx(0), fx(1));
    assert!(stands_later(at, &other, &base) && !stands_later(at, &base, &other));
    other.velocity = Velocity::new(fx(-1), fx(1));
    assert!(stands_later(at, &base, &other) && !stands_later(at, &other, &base));
    other = base;
    other.collider = ColliderBox { w: fx(1000), h: fx(999) };
    assert!(stands_later(at, &base, &other));
    other.collider = ColliderBox { w: fx(1001), h: fx(1) };
    assert!(stands_later(at, &other, &base));
    let mirrored = solid(3000, -4000, 1000, 1000, ObstacleKind::Ground);
    assert!(stands_later(at, &base, &mirrored) && !stands_later(at, &mirrored, &base));
    let nearer = solid(0, 4999, 9000, 9000, ObstacleKind::Wall);
    assert!(stands_later(at, &base, &nearer) && !stands_later(at, &nearer, &base));
}

#[test]
fn the_flags_do_not_depend_on_the_order_of_the_obstacles() {
    let wall = solid(20_000, 20_000, 20_000, 60_000, ObstacleKind::Wall);
    let ceiling = solid(0, 30_000, 200_000, 20_000, ObstacleKind::Ground);
    let listed = vec![ground(), wall, ceiling];
    let turned = vec![ceiling, wall, ground()];
    for (x, y) in [(5050, 15_100), (0, 15_000), (5050, 19_999), (0, 16_000), (80_000, 80_000)] {
        let mut a = actor(x, y);
        let mut b = actor(x, y);
        let mut c = actor(x, y);
        player_collision_system(&mut a, &listed);
        player_collision_system(&mut b, &turned);
        player_collision_system(&mut c, &sort_by_distance(v(x, y), &listed));
        for other in [b, c] {
            assert_eq!(a.collision_data.below, other.collision_data.below);
            assert_eq!(a.collision_data.above, other.collision_data.above);
            assert_eq!(a.collision_data.left, other.collision_data.left);
            assert_eq!(a.collision_data.right, other.collision_data.right);
        }
    }
}
