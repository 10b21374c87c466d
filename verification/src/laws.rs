//! What holds of the movement model as a whole.
use vstd::prelude::*;
use crate::collide_aabb::Collision;
use crate::comp::physics::Body;
use crate::comp::physics::Gravity;
use crate::comp::physics::Raycast;
use crate::fixed::lemma_trunc_div_bounds;
use crate::fixed::lemma_trunc_div_error;
use crate::fixed::trunc_div;
use crate::fixed::Fixed;
use crate::fixed::SCALE;
use crate::frame::advanced;
use crate::frame::flown;
use crate::frame::step_events;
use crate::frame::stepped;
use crate::input::arc_shaped;
use crate::input::input_applied;
use crate::input::jump_requested;
use crate::input::spec_jump_kind;
use crate::input::spec_motion_state;
use crate::input::MotionState;
use crate::input::InputIntents;
use crate::input::JumpKind;
use crate::nearest::in_order;
use crate::nearest::law_same_obstacles_same_order;
use crate::nearest::lemma_in_order_holds_the_same;
use crate::nearest::lemma_one_is_in_order;
use crate::obstacle::contact_side;
use crate::obstacle::Obstacle;
use crate::player::beside;
use crate::player::collisions_resolved;
use crate::player::contact_resolved;
use crate::player::contacts_resolved;
use crate::player::landing;
use crate::player::pass_begun;
use crate::player::Player;
use crate::raycast::ground_probed;
use crate::raycast::wall_felt;
use crate::raycast::wall_probed;
use crate::raycast::walls_felt;
use crate::raycast::unstuck;
use crate::sys::physics::drag_share;
use crate::sys::physics::dragged;
use crate::sys::physics::integrated;
use crate::vec2::lerp_raw;
use crate::vec2::Vec2;
use crate::tuning::AIR_JUMP_ADJUSTER;
use crate::tuning::JUMP_SCALE;
use crate::tuning::SNAP_EPSILON;

verus! {

/// `x` is the raw value of some [`Fixed`].
pub open spec fn representable(x: int) -> bool {
    i64::MIN <= x <= i64::MAX
}

/// Raw distance covered in one tick of `dt` seconds at the speed `v`.
pub open spec fn stride(v: Fixed, dt: Fixed) -> int {
    trunc_div(v@ * dt@, SCALE as int)
}

/// The body after `ticks` ticks of `dt` seconds of plain integration.
pub open spec fn coasted(body: Body, dt: Fixed, ticks: nat) -> Body
    decreases ticks,
{
    if ticks == 0 {
        body
    } else {
        integrated(coasted(body, dt, (ticks - 1) as nat), dt)
    }
}

/// The body after `ticks` ticks of integration, gravity and drag.
pub open spec fn flown_for(body: Body, gravity: Gravity, dt: Fixed, ticks: nat) -> Body
    decreases ticks,
{
    if ticks == 0 {
        body
    } else {
        flown(flown_for(body, gravity, dt, (ticks - 1) as nat), gravity, dt)
    }
}

/// One stride less than `n` strides lies between nothing and `n` strides.
proof fn lemma_partial_distance(n: int, s: int)
    requires
        n >= 1,
    ensures
        s >= 0 ==> 0 <= (n - 1) * s <= n * s,
        s <= 0 ==> n * s <= (n - 1) * s <= 0,
        n * s == (n - 1) * s + s,
{
    assert(n * s == (n - 1) * s + s) by (nonlinear_arith);
    assert(s >= 0 ==> 0 <= (n - 1) * s) by (nonlinear_arith)
        requires
            n >= 1,
    ;
    assert(s <= 0 ==> (n - 1) * s <= 0) by (nonlinear_arith)
        requires
            n >= 1,
    ;
}

/// Integration adds up. A body that is only integrated, `ticks` times for
/// `dt` seconds each, keeps its velocity and ends `ticks` strides from
/// where it began, on each axis. This holds as long as the stride and the
/// end point are representable.
pub proof fn law_integration(body: Body, dt: Fixed, ticks: nat)
    requires
        representable(stride(body.velocity.0.x, dt)),
        representable(stride(body.velocity.0.y, dt)),
        representable(body.position.x@ + ticks * stride(body.velocity.0.x, dt)),
        representable(body.position.y@ + ticks * stride(body.velocity.0.y, dt)),
    ensures
        coasted(body, dt, ticks).position.x@ == body.position.x@ + ticks * stride(
            body.velocity.0.x,
            dt,
        ),
        coasted(body, dt, ticks).position.y@ == body.position.y@ + ticks * stride(
            body.velocity.0.y,
            dt,
        ),
        coasted(body, dt, ticks).velocity == body.velocity,
        coasted(body, dt, ticks).drag == body.drag,
        coasted(body, dt, ticks).attraction == body.attraction,
    decreases ticks,
{
    if ticks > 0 {
        let sx = stride(body.velocity.0.x, dt);
        let sy = stride(body.velocity.0.y, dt);
        lemma_partial_distance(ticks as int, sx);
        lemma_partial_distance(ticks as int, sy);
        law_integration(body, dt, (ticks - 1) as nat);
        let before = coasted(body, dt, (ticks - 1) as nat);
        assert(before.position.x@ == body.position.x@ + (ticks - 1) * sx);
        assert(before.position.y@ == body.position.y@ + (ticks - 1) * sy);
        assert(before.velocity.0.scaled(dt).x@ == sx);
        assert(before.velocity.0.scaled(dt).y@ == sy);
    } else {
        let sx = stride(body.velocity.0.x, dt);
        let sy = stride(body.velocity.0.y, dt);
        assert(ticks * sx == 0) by (nonlinear_arith)
            requires
                ticks == 0,
        ;
        assert(ticks * sy == 0) by (nonlinear_arith)
            requires
                ticks == 0,
        ;
    }
}

/// Integration stays close to the exact product. After `ticks` ticks of
/// plain integration the distance covered on each axis, in thousandths,
/// differs from velocity times time times `ticks` by no more than one
/// thousandth for each tick. This holds as long as the stride and the end
/// point are representable.
pub proof fn law_integration_is_close(body: Body, dt: Fixed, ticks: nat)
    requires
        representable(stride(body.velocity.0.x, dt)),
        representable(stride(body.velocity.0.y, dt)),
        representable(body.position.x@ + ticks * stride(body.velocity.0.x, dt)),
        representable(body.position.y@ + ticks * stride(body.velocity.0.y, dt)),
    ensures
        ({
            let moved_x = coasted(body, dt, ticks).position.x@ - body.position.x@;
            let moved_y = coasted(body, dt, ticks).position.y@ - body.position.y@;
            let exact_x = ticks * (body.velocity.0.x@ * dt@);
            let exact_y = ticks * (body.velocity.0.y@ * dt@);
            &&& -1000 * ticks <= 1000 * moved_x - exact_x <= 1000 * ticks
            &&& -1000 * ticks <= 1000 * moved_y - exact_y <= 1000 * ticks
        }),
{
    law_integration(body, dt, ticks);
    let sx = stride(body.velocity.0.x, dt);
    let sy = stride(body.velocity.0.y, dt);
    let ex = body.velocity.0.x@ * dt@;
    let ey = body.velocity.0.y@ * dt@;
    lemma_trunc_div_error(ex, 1000);
    lemma_trunc_div_error(ey, 1000);
    let n = ticks as int;
    assert(-1000 * n <= 1000 * (n * sx) - n * ex <= 1000 * n) by (nonlinear_arith)
        requires
            n >= 0,
            -1000 < sx * 1000 - ex < 1000,
    ;
    assert(-1000 * n <= 1000 * (n * sy) - n * ey <= 1000 * n) by (nonlinear_arith)
        requires
            n >= 0,
            -1000 < sy * 1000 - ey < 1000,
    ;
}

/// What drag leaves of one component of the velocity lies between rest
/// and the component, and is rest for a full share.
proof fn lemma_drag_component(v: int, t: int)
    requires
        0 <= t <= 1000,
    ensures
        v >= 0 ==> 0 <= lerp_raw(v, 0, t) <= v,
        v <= 0 ==> v <= lerp_raw(v, 0, t) <= 0,
        t == 1000 ==> lerp_raw(v, 0, t) == 0,
        t == 0 ==> lerp_raw(v, 0, t) == v,
{
    if v >= 0 {
        assert(0 <= v * t <= v * 1000) by (nonlinear_arith)
            requires
                v >= 0,
                0 <= t <= 1000,
        ;
        assert((0 - v) * t == -(v * t)) by (nonlinear_arith);
        assert(0 <= (v * t) / 1000 <= v) by (nonlinear_arith)
            requires
                0 <= v * t <= v * 1000,
        ;
        if t == 1000 {
            assert((v * 1000) / 1000 == v) by (nonlinear_arith);
        }
        if t == 0 {
            assert(v * 0 == 0);
        }
    } else {
        let w = -v;
        assert(0 <= w * t <= w * 1000) by (nonlinear_arith)
            requires
                w >= 0,
                0 <= t <= 1000,
        ;
        assert((0 - v) * t == w * t) by (nonlinear_arith)
            requires
                w == -v,
        ;
        assert(0 <= (w * t) / 1000 <= w) by (nonlinear_arith)
            requires
                0 <= w * t <= w * 1000,
        ;
        if t == 1000 {
            assert((w * 1000) / 1000 == w) by (nonlinear_arith);
        }
        if t == 0 {
            assert(w * 0 == 0);
        }
    }
}

/// Drag only ever slows. Whatever the drag and the length of the tick,
/// each component of the velocity keeps its sign and does not grow, and
/// nothing else of the body changes. Where the time times the drag
/// reaches one, the body comes to rest; where it is nothing or less, the
/// velocity stays as it is.
pub proof fn law_drag_slows(body: Body, dt: Fixed)
    ensures
        ({
            let after = dragged(body, dt);
            let vx = body.velocity.0.x@;
            let vy = body.velocity.0.y@;
            &&& vx >= 0 ==> 0 <= after.velocity.0.x@ <= vx
            &&& vx <= 0 ==> vx <= after.velocity.0.x@ <= 0
            &&& vy >= 0 ==> 0 <= after.velocity.0.y@ <= vy
            &&& vy <= 0 ==> vy <= after.velocity.0.y@ <= 0
            &&& dt.times(body.drag.0)@ >= SCALE ==> after.velocity.0@ == (0int, 0int)
            &&& dt.times(body.drag.0)@ <= 0 ==> after.velocity == body.velocity
            &&& after.position == body.position
            &&& after.drag == body.drag
            &&& after.attraction == body.attraction
        }),
{
    let t = drag_share(body, dt)@;
    lemma_drag_component(body.velocity.0.x@, t);
    lemma_drag_component(body.velocity.0.y@, t);
}

/// Free flight adds up. A body on which gravity is switched off, without
/// drag and without vertical speed, keeps its velocity through `ticks` whole
/// ticks of integration, gravity and drag, and ends `ticks` strides from
/// where it began. This holds as long as the stride and the end point are
/// representable.
pub proof fn law_free_flight(body: Body, gravity: Gravity, dt: Fixed, ticks: nat)
    requires
        !body.attraction.is_active,
        body.drag.0@ == 0,
        body.velocity.0.y@ == 0,
        representable(stride(body.velocity.0.x, dt)),
        representable(body.position.x@ + ticks * stride(body.velocity.0.x, dt)),
    ensures
        flown_for(body, gravity, dt, ticks).position.x@ == body.position.x@ + ticks * stride(
            body.velocity.0.x,
            dt,
        ),
        flown_for(body, gravity, dt, ticks).position.y == body.position.y,
        flown_for(body, gravity, dt, ticks).velocity == body.velocity,
        flown_for(body, gravity, dt, ticks).drag == body.drag,
        flown_for(body, gravity, dt, ticks).attraction == body.attraction,
    decreases ticks,
{
    if ticks > 0 {
        let sx = stride(body.velocity.0.x, dt);
        lemma_partial_distance(ticks as int, sx);
        law_free_flight(body, gravity, dt, (ticks - 1) as nat);
        let before = flown_for(body, gravity, dt, (ticks - 1) as nat);
        assert(before.position.x@ == body.position.x@ + (ticks - 1) * sx);
        assert(before.velocity.0.scaled(dt).x@ == sx);
        assert(before.velocity.0.y@ * dt@ == 0) by (nonlinear_arith)
            requires
                before.velocity.0.y@ == 0,
        ;
        assert(dt@ * before.drag.0@ == 0) by (nonlinear_arith)
            requires
                before.drag.0@ == 0,
        ;
        assert((0 - before.velocity.0.x@) * 0 == 0);
        assert((0 - before.velocity.0.y@) * 0 == 0);
    } else {
        let sx = stride(body.velocity.0.x, dt);
        assert(ticks * sx == 0) by (nonlinear_arith)
            requires
                ticks == 0,
        ;
    }
}

/// The ground snap is a fixed point. Where a collision pass against one
/// obstacle leaves the actor standing, a second pass against the same
/// obstacle leaves the actor where the first one put it. This holds for
/// an actor with a positive height, as long as its resting place on the
/// obstacle is representable.
pub proof fn law_ground_snap_fixed_point(p: Player, o: Obstacle)
    requires
        p.collider.h@ > 0,
        representable(o.top() + p.half_height() + SNAP_EPSILON),
        collisions_resolved(p, seq![o]).collision_data.below,
    ensures
        collisions_resolved(collisions_resolved(p, seq![o]), seq![o]).body.position
            == collisions_resolved(p, seq![o]).body.position,
{
    let obstacles = seq![o];
    let first = collisions_resolved(p, obstacles);
    lemma_single_pass(p, o);
    lemma_single_pass(first, o);
    lemma_trunc_div_bounds(p.collider.h@, 2);
}

/// Resting is a fixed point of the whole tick. An actor that rests at its
/// snapped height on a static obstacle, without velocity, with gravity off
/// and with no key down, is left where it is by a tick of any length,
/// still standing, still at rest, gravity still off. This holds for an
/// actor at least one unit high whose wall probe lies level, so that the
/// probe clears the surface that the actor stands on.
pub proof fn law_resting_is_a_fixed_point(
    p: Player,
    ray: Raycast,
    o: Obstacle,
    gravity: Gravity,
    dt: Fixed,
)
    requires
        p.collider.h@ >= 1000,
        ray.direction.x@ != 0,
        p.body.velocity.0@ == (0int, 0int),
        !p.body.attraction.is_active,
        o.velocity.0.x@ == 0,
        p.body.position.y@ == o.top() + p.half_height() + SNAP_EPSILON,
        contact_side(p.body.position, p.collider.get_size(), o) == Some(Collision::Bottom),
    ensures
        ({
            let input = InputIntents {
                move_left: false,
                move_right: false,
                jump_pressed: false,
                jump_held: false,
                climb_up: false,
                climb_down: false,
            };
            let after = stepped(p, ray, input, seq![o], gravity, dt);
            &&& after.body.position == p.body.position
            &&& after.body.velocity.0@ == (0int, 0int)
            &&& after.collision_data.below
            &&& !after.body.attraction.is_active
        }),
{
    let input = InputIntents {
        move_left: false,
        move_right: false,
        jump_pressed: false,
        jump_held: false,
        climb_up: false,
        climb_down: false,
    };
    let steered = input_applied(p, input);
    assert(steered.body.velocity.0@ == (0int, 0int));
    assert(steered.body.position == p.body.position);
    assert(0 * dt@ == 0) by (nonlinear_arith);
    let a = advanced(p, input, gravity, dt);
    let share = crate::sys::physics::drag_share(
        crate::sys::physics::pulled(integrated(steered.body, dt), gravity, dt),
        dt,
    );
    assert(0 * share@ == 0) by (nonlinear_arith);
    assert(a.body.position == p.body.position);
    assert(a.body.velocity.0@ == (0int, 0int));
    assert(a.collider == p.collider);
    lemma_single_pass(a, o);
    lemma_trunc_div_bounds(p.collider.h@, 2);
    let resolved = collisions_resolved(a, seq![o]);
    assert(resolved.body.position == p.body.position);
    assert(resolved.collision_data.below);
    assert(resolved.body.velocity.0@ == (0int, 0int));
    let obstacles = seq![o];
    let ray2 = crate::raycast::wall_ray_of(resolved, ray);
    lemma_one_is_in_order(resolved.body.position, o);
    assert(obstacles[0] == o);
    assert(walls_felt(unstuck(resolved), resolved.body.position, ray2, obstacles, 0) == unstuck(
        resolved,
    ));
    reveal_with_fuel(walls_felt, 2);
    lemma_trunc_div_bounds(1000, 2);
    assert(crate::raycast::probe_side(ray2, o) != Some(Collision::Left));
    assert(crate::raycast::probe_side(ray2, o) != Some(Collision::Right));
}

/// A pass against one obstacle resolves the contact with that obstacle.
proof fn lemma_single_pass(p: Player, o: Obstacle)
    ensures
        collisions_resolved(p, seq![o]) == contact_resolved(pass_begun(p), p.body.position, o),
{
    let obstacles = seq![o];
    lemma_one_is_in_order(p.body.position, o);
    assert(contacts_resolved(pass_begun(p), p.body.position, obstacles, 0) == pass_begun(p));
    assert(obstacles[0] == o);
    reveal_with_fuel(contacts_resolved, 2);
}

/// One contact keeps the jump count within its bounds.
proof fn lemma_contact_keeps_count(p: Player, start: Vec2, o: Obstacle)
    requires
        p.jumps.wf(),
    ensures
        contact_resolved(p, start, o).jumps.wf(),
        contact_resolved(p, start, o).jumps.max_jumps == p.jumps.max_jumps,
        contact_resolved(p, start, o).collision_data.facing_direction
            == p.collision_data.facing_direction,
{
}

/// A run of contacts keeps the jump count within its bounds.
proof fn lemma_contacts_keep_count(
    p: Player,
    start: Vec2,
    obstacles: Seq<Obstacle>,
    n: nat,
)
    requires
        p.jumps.wf(),
    ensures
        contacts_resolved(p, start, obstacles, n).jumps.wf(),
        contacts_resolved(p, start, obstacles, n).jumps.max_jumps == p.jumps.max_jumps,
        contacts_resolved(p, start, obstacles, n).collision_data.facing_direction
            == p.collision_data.facing_direction,
    decreases n,
{
    if n > 0 {
        lemma_contacts_keep_count(p, start, obstacles, (n - 1) as nat);
        lemma_contact_keeps_count(
            contacts_resolved(p, start, obstacles, (n - 1) as nat),
            start,
            obstacles[n - 1],
        );
    }
}

/// The wall probe leaves the jump count alone.
proof fn lemma_walls_keep_count(
    p: Player,
    start: Vec2,
    ray: Raycast,
    walls: Seq<Obstacle>,
    n: nat,
)
    ensures
        walls_felt(p, start, ray, walls, n).jumps == p.jumps,
        walls_felt(p, start, ray, walls, n).collision_data.facing_direction
            == p.collision_data.facing_direction,
    decreases n,
{
    if n > 0 {
        lemma_walls_keep_count(p, start, ray, walls, (n - 1) as nat);
    }
}

/// A press of the jump key keeps the jump count within its bounds: it
/// never takes a jump that is not there, and never grants more than the
/// maximum.
pub proof fn law_jump_request_keeps_count(p: Player)
    requires
        p.jumps.wf(),
    ensures
        jump_requested(p).jumps.wf(),
        jump_requested(p).jumps.max_jumps == p.jumps.max_jumps,
{
}

/// The collision pass keeps the jump count within its bounds.
pub proof fn law_collisions_keep_count(p: Player, obstacles: Seq<Obstacle>)
    requires
        p.jumps.wf(),
    ensures
        collisions_resolved(p, obstacles).jumps.wf(),
        collisions_resolved(p, obstacles).jumps.max_jumps == p.jumps.max_jumps,
        collisions_resolved(p, obstacles).collision_data.facing_direction
            == p.collision_data.facing_direction,
{
    let listed = in_order(p.body.position, obstacles);
    lemma_contacts_keep_count(pass_begun(p), p.body.position, listed, listed.len());
}

/// The jump count stays within its bounds. After a whole tick, whatever
/// the input and the obstacles, no more jumps are left than the maximum,
/// and the maximum is what it was.
pub proof fn law_jump_count_invariant(
    p: Player,
    ray: Raycast,
    input: InputIntents,
    obstacles: Seq<Obstacle>,
    gravity: Gravity,
    dt: Fixed,
)
    requires
        p.jumps.wf(),
    ensures
        stepped(p, ray, input, obstacles, gravity, dt).jumps.wf(),
        stepped(p, ray, input, obstacles, gravity, dt).jumps.max_jumps == p.jumps.max_jumps,
        p.collision_data.wf() ==> stepped(p, ray, input, obstacles, gravity, dt).collision_data.wf(),
{
    law_jump_request_keeps_count(p);
    let a = advanced(p, input, gravity, dt);
    assert(a.jumps == input_applied(p, input).jumps);
    assert(a.collision_data == input_applied(p, input).collision_data);
    law_collisions_keep_count(a, obstacles);
    let resolved = collisions_resolved(a, obstacles);
    let ray2 = crate::raycast::wall_ray_of(resolved, ray);
    lemma_walls_keep_count(
        unstuck(resolved),
        resolved.body.position,
        ray2,
        in_order(resolved.body.position, obstacles),
        obstacles.len(),
    );
}

/// Jumps come in a fixed sequence. An actor that stands on the ground with
/// two jumps, away from any wall, gets the full jump speed from the first
/// press of the jump key and the reduced speed from the second; a third
/// press changes nothing.
pub proof fn law_double_jump(p: Player)
    requires
        p.collision_data.below,
        !p.collision_data.either_side(),
        p.jumps.jumps_remaining == 2,
        p.jumps.max_jumps == 2,
    ensures
        ({
            let first = jump_requested(p);
            let second = jump_requested(first);
            let third = jump_requested(second);
            &&& first.body.velocity.0.y == p.jump_force.times(Fixed { raw: JUMP_SCALE }).times(
                Fixed { raw: 1000 },
            )
            &&& first.jumps.jumps_remaining == 1
            &&& second.body.velocity.0.y == p.jump_force.times(Fixed { raw: JUMP_SCALE }).times(
                Fixed { raw: AIR_JUMP_ADJUSTER },
            )
            &&& second.jumps.jumps_remaining == 0
            &&& third == second
        }),
{
}

/// A wall jump refills the jumps. An actor in the air with a wall on
/// either side has all its jumps after a press of the jump key, however
/// many it had before.
pub proof fn law_wall_jump_refills(p: Player)
    requires
        !p.collision_data.below,
        p.collision_data.either_side(),
    ensures
        spec_jump_kind(p) == JumpKind::Wall,
        jump_requested(p).jumps.jumps_remaining == p.jumps.max_jumps,
{
}

/// An obstacle whose top edge the actor's centre has reached gives the
/// actor no wall contact: resolving the contact with it leaves the side
/// flags as they were, and so does probing it leave the wall flag.
pub proof fn law_no_wall_contact_from_above(p: Player, start: Vec2, ray: Raycast, o: Obstacle)
    requires
        !beside(start, o),
    ensures
        contact_resolved(p, start, o).collision_data.left == p.collision_data.left,
        contact_resolved(p, start, o).collision_data.right == p.collision_data.right,
        contact_resolved(p, start, o).collision_data.touching_wall == p.collision_data.touching_wall,
        wall_felt(p, start, ray, o).collision_data.left == p.collision_data.left,
        wall_felt(p, start, ray, o).collision_data.right == p.collision_data.right,
        wall_felt(p, start, ray, o).collision_data.touching_wall == p.collision_data.touching_wall,
{
}

/// The side flags after some contacts, none of them with an obstacle that
/// the actor is beside.
proof fn lemma_contacts_from_above(
    p: Player,
    start: Vec2,
    obstacles: Seq<Obstacle>,
    n: nat,
)
    requires
        n <= obstacles.len(),
        forall|i: int| 0 <= i < obstacles.len() ==> !beside(start, #[trigger] obstacles[i]),
    ensures
        contacts_resolved(p, start, obstacles, n).collision_data.left == p.collision_data.left,
        contacts_resolved(p, start, obstacles, n).collision_data.right == p.collision_data.right,
    decreases n,
{
    if n > 0 {
        lemma_contacts_from_above(p, start, obstacles, (n - 1) as nat);
        assert(!beside(start, obstacles[n - 1]));
    }
}

/// The wall flag after some probes, none of them of an obstacle that the
/// actor is beside.
proof fn lemma_walls_from_above(
    p: Player,
    start: Vec2,
    ray: Raycast,
    walls: Seq<Obstacle>,
    n: nat,
)
    requires
        n <= walls.len(),
        forall|i: int| 0 <= i < walls.len() ==> !beside(start, #[trigger] walls[i]),
    ensures
        walls_felt(p, start, ray, walls, n).collision_data.touching_wall
            == p.collision_data.touching_wall,
    decreases n,
{
    if n > 0 {
        lemma_walls_from_above(p, start, ray, walls, (n - 1) as nat);
        assert(!beside(start, walls[n - 1]));
    }
}

/// Standing on top is not touching a wall. An actor whose centre has
/// reached the top edge of every obstacle comes out of the collision pass
/// with neither side flag set, and out of the wall probe without the wall
/// flag.
pub proof fn law_side_versus_ground(p: Player, ray: Raycast, obstacles: Seq<Obstacle>)
    requires
        forall|i: int|
            0 <= i < obstacles.len() ==> !beside(p.body.position, #[trigger] obstacles[i]),
    ensures
        !collisions_resolved(p, obstacles).collision_data.left,
        !collisions_resolved(p, obstacles).collision_data.right,
        !wall_probed(p, ray, obstacles).collision_data.touching_wall,
{
    let start = p.body.position;
    let listed = in_order(start, obstacles);
    lemma_in_order_holds_the_same(start, obstacles);
    assert forall|i: int| 0 <= i < listed.len() implies !beside(start, #[trigger] listed[i]) by {
        assert(obstacles.contains(listed[i]));
        let j = choose|j: int| 0 <= j < obstacles.len() && obstacles[j] == listed[i];
        assert(!beside(start, obstacles[j]));
    }
    lemma_contacts_from_above(pass_begun(p), start, listed, listed.len());
    lemma_walls_from_above(unstuck(p), start, ray, listed, listed.len());
}

/// Holding the jump key keeps the whole rise. While the actor rises with
/// the key held, shaping the arc leaves its velocity alone; with the key
/// released the rise is cut by one more gravity.
pub proof fn law_low_jump_only_on_release(p: Player, gravity: Gravity, dt: Fixed)
    requires
        p.body.velocity.0.y@ > 0,
    ensures
        arc_shaped(p, gravity, true, dt) == p,
        !p.collision_data.below && !p.collision_data.touching_wall ==> arc_shaped(
            p,
            gravity,
            false,
            dt,
        ).body.velocity.0.y == p.body.velocity.0.y.minus(
            gravity.0.times(Fixed { raw: 1000 }).times(dt),
        ),
{
}

/// One of the first `n` obstacles lies on the given side of the box of
/// `size` at `start`.
pub open spec fn hit_within(
    start: Vec2,
    size: Vec2,
    obstacles: Seq<Obstacle>,
    n: int,
    side: Collision,
) -> bool {
    exists|i: int| 0 <= i < n && contact_side(start, size, #[trigger] obstacles[i]) == Some(side)
}

/// One of the first `n` obstacles lies on the given side of the box of
/// `size` at `start`, which is beside it.
pub open spec fn wall_within(
    start: Vec2,
    size: Vec2,
    obstacles: Seq<Obstacle>,
    n: int,
    side: Collision,
) -> bool {
    exists|i: int|
        0 <= i < n && contact_side(start, size, #[trigger] obstacles[i]) == Some(side) && beside(
            start,
            obstacles[i],
        )
}

/// The flags after some contacts say which sides were met.
proof fn lemma_flags_within(q: Player, start: Vec2, obstacles: Seq<Obstacle>, n: nat)
    requires
        n <= obstacles.len(),
        !q.collision_data.below,
        !q.collision_data.above,
        !q.collision_data.left,
        !q.collision_data.right,
    ensures
        ({
            let r = contacts_resolved(q, start, obstacles, n);
            let size = q.collider.get_size();
            &&& r.collider == q.collider
            &&& r.collision_data.below == hit_within(
                start,
                size,
                obstacles,
                n as int,
                Collision::Bottom,
            )
            &&& r.collision_data.above == hit_within(start, size, obstacles, n as int, Collision::Top)
            &&& r.collision_data.right == wall_within(
                start,
                size,
                obstacles,
                n as int,
                Collision::Right,
            )
            &&& r.collision_data.left == wall_within(
                start,
                size,
                obstacles,
                n as int,
                Collision::Left,
            )
        }),
    decreases n,
{
    if n > 0 {
        lemma_flags_within(q, start, obstacles, (n - 1) as nat);
        let size = q.collider.get_size();
        let o = obstacles[n - 1];
        let side = contact_side(start, size, o);
        assert forall|s: Collision| #[trigger]
            hit_within(start, size, obstacles, n as int, s) == (hit_within(
                start,
                size,
                obstacles,
                n - 1,
                s,
            ) || side == Some(s)) by {
            if hit_within(start, size, obstacles, n as int, s) {
                let i = choose|i: int|
                    0 <= i < n && contact_side(start, size, #[trigger] obstacles[i]) == Some(s);
                if i < n - 1 {
                    assert(hit_within(start, size, obstacles, n - 1, s));
                }
            }
            if hit_within(start, size, obstacles, n - 1, s) {
                let i = choose|i: int|
                    0 <= i < n - 1 && contact_side(start, size, #[trigger] obstacles[i]) == Some(s);
                assert(contact_side(start, size, obstacles[i]) == Some(s));
            }
            if side == Some(s) {
                assert(contact_side(start, size, obstacles[n - 1]) == Some(s));
            }
        }
        assert forall|s: Collision| #[trigger]
            wall_within(start, size, obstacles, n as int, s) == (wall_within(
                start,
                size,
                obstacles,
                n - 1,
                s,
            ) || (side == Some(s) && beside(start, o))) by {
            if wall_within(start, size, obstacles, n as int, s) {
                let i = choose|i: int|
                    0 <= i < n && contact_side(start, size, #[trigger] obstacles[i]) == Some(s)
                        && beside(start, obstacles[i]);
                if i < n - 1 {
                    assert(wall_within(start, size, obstacles, n - 1, s));
                }
            }
            if wall_within(start, size, obstacles, n - 1, s) {
                let i = choose|i: int|
                    0 <= i < n - 1 && contact_side(start, size, #[trigger] obstacles[i]) == Some(s)
                        && beside(start, obstacles[i]);
                assert(contact_side(start, size, obstacles[i]) == Some(s));
            }
            if side == Some(s) && beside(start, o) {
                assert(contact_side(start, size, obstacles[n - 1]) == Some(s));
            }
        }
    } else {
        let size = q.collider.get_size();
        assert forall|s: Collision| !(#[trigger] hit_within(start, size, obstacles, 0, s)) by {}
        assert forall|s: Collision| !(#[trigger] wall_within(start, size, obstacles, 0, s)) by {}
    }
}

/// The flags say which sides were met. After a collision pass the actor
/// stands exactly when some obstacle lies under its probed box, has an
/// obstacle overhead exactly when one lies over it, and is blocked on a
/// side exactly when an obstacle that it is beside lies on that side.
pub proof fn law_flags_tell_the_contacts(p: Player, obstacles: Seq<Obstacle>)
    ensures
        ({
            let r = collisions_resolved(p, obstacles);
            let start = p.body.position;
            let size = p.collider.get_size();
            let n = obstacles.len() as int;
            &&& r.collision_data.below == hit_within(start, size, obstacles, n, Collision::Bottom)
            &&& r.collision_data.above == hit_within(start, size, obstacles, n, Collision::Top)
            &&& r.collision_data.right == wall_within(start, size, obstacles, n, Collision::Right)
            &&& r.collision_data.left == wall_within(start, size, obstacles, n, Collision::Left)
        }),
{
    let start = p.body.position;
    let size = p.collider.get_size();
    let listed = in_order(start, obstacles);
    lemma_in_order_holds_the_same(start, obstacles);
    lemma_flags_within(pass_begun(p), start, listed, listed.len());
    assert(all_among(listed, obstacles));
    assert(all_among(obstacles, listed));
    assert forall|s: Collision|
        hit_within(start, size, listed, listed.len() as int, s) == hit_within(
            start,
            size,
            obstacles,
            obstacles.len() as int,
            s,
        ) && wall_within(start, size, listed, listed.len() as int, s) == wall_within(
            start,
            size,
            obstacles,
            obstacles.len() as int,
            s,
        ) by {
        lemma_among_keeps_hits(start, size, listed, obstacles, s);
        lemma_among_keeps_hits(start, size, obstacles, listed, s);
    }
}

/// Every obstacle of `a` is among those of `b`.
pub open spec fn all_among(a: Seq<Obstacle>, b: Seq<Obstacle>) -> bool {
    forall|i: int| 0 <= i < a.len() ==> b.contains(#[trigger] a[i])
}

/// The flags do not depend on the order of the obstacles. Two lists that
/// hold the same obstacles, in whatever order and however often, leave the
/// actor with the same four directional flags.
pub proof fn law_flags_ignore_order(p: Player, a: Seq<Obstacle>, b: Seq<Obstacle>)
    requires
        all_among(a, b),
        all_among(b, a),
    ensures
        collisions_resolved(p, a).collision_data.below == collisions_resolved(
            p,
            b,
        ).collision_data.below,
        collisions_resolved(p, a).collision_data.above == collisions_resolved(
            p,
            b,
        ).collision_data.above,
        collisions_resolved(p, a).collision_data.left == collisions_resolved(
            p,
            b,
        ).collision_data.left,
        collisions_resolved(p, a).collision_data.right == collisions_resolved(
            p,
            b,
        ).collision_data.right,
{
    law_flags_tell_the_contacts(p, a);
    law_flags_tell_the_contacts(p, b);
    let start = p.body.position;
    let size = p.collider.get_size();
    assert forall|s: Collision|
        hit_within(start, size, a, a.len() as int, s) == hit_within(
            start,
            size,
            b,
            b.len() as int,
            s,
        ) && wall_within(start, size, a, a.len() as int, s) == wall_within(
            start,
            size,
            b,
            b.len() as int,
            s,
        ) by {
        lemma_among_keeps_hits(start, size, a, b, s);
        lemma_among_keeps_hits(start, size, b, a, s);
    }
}

/// The collision pass does not depend on the order of the list. Two lists
/// that hold the same obstacles, each as often in one as in the other,
/// leave the same actor: position, velocity, gravity switch, flags and
/// jump count, and report the same landing. The same holds of the two
/// probes.
pub proof fn law_pass_ignores_order(p: Player, ray: Raycast, a: Seq<Obstacle>, b: Seq<Obstacle>)
    requires
        a.to_multiset() == b.to_multiset(),
    ensures
        collisions_resolved(p, a) == collisions_resolved(p, b),
        landing(p, a) == landing(p, b),
        wall_probed(p, ray, a) == wall_probed(p, ray, b),
        ground_probed(p, ray, a) == ground_probed(p, ray, b),
{
    law_same_obstacles_same_order(p.body.position, a, b);
    lemma_in_order_holds_the_same(p.body.position, a);
    lemma_in_order_holds_the_same(p.body.position, b);
}

/// A tick does not depend on the order of the list. Two lists that hold
/// the same obstacles, each as often in one as in the other, leave the
/// same actor after a whole tick and report the same events.
pub proof fn law_step_ignores_order(
    p: Player,
    ray: Raycast,
    input: InputIntents,
    a: Seq<Obstacle>,
    b: Seq<Obstacle>,
    gravity: Gravity,
    dt: Fixed,
)
    requires
        a.to_multiset() == b.to_multiset(),
    ensures
        stepped(p, ray, input, a, gravity, dt) == stepped(p, ray, input, b, gravity, dt),
        step_events(p, input, a, gravity, dt) == step_events(p, input, b, gravity, dt),
{
    let moved = advanced(p, input, gravity, dt);
    law_pass_ignores_order(moved, ray, a, b);
    let resolved = collisions_resolved(moved, a);
    law_pass_ignores_order(resolved, crate::raycast::wall_ray_of(resolved, ray), a, b);
}

/// A tick of the actor that is driven by acceleration does not depend on
/// the order of the list either.
pub proof fn law_actor_step_ignores_order(
    a: crate::comp::actor::Actor,
    movement: Vec2,
    actions: Seq<crate::comp::actor::Action>,
    listed: Seq<Obstacle>,
    other: Seq<Obstacle>,
    gravity: Gravity,
    jump_held: bool,
    dt: Fixed,
)
    requires
        listed.to_multiset() == other.to_multiset(),
    ensures
        crate::sys::actor::actor_stepped(a, movement, actions, listed, gravity, jump_held, dt)
            == crate::sys::actor::actor_stepped(a, movement, actions, other, gravity, jump_held, dt),
{
    let moved = crate::sys::actor::moved_on(a, movement, actions, gravity, dt);
    law_same_obstacles_same_order(moved.body.position, listed, other);
    lemma_in_order_holds_the_same(moved.body.position, listed);
    lemma_in_order_holds_the_same(moved.body.position, other);
}

/// What is met in a list is met in every list that holds its obstacles.
proof fn lemma_among_keeps_hits(
    start: Vec2,
    size: Vec2,
    a: Seq<Obstacle>,
    b: Seq<Obstacle>,
    s: Collision,
)
    requires
        all_among(a, b),
    ensures
        hit_within(start, size, a, a.len() as int, s) ==> hit_within(
            start,
            size,
            b,
            b.len() as int,
            s,
        ),
        wall_within(start, size, a, a.len() as int, s) ==> wall_within(
            start,
            size,
            b,
            b.len() as int,
            s,
        ),
{
    if hit_within(start, size, a, a.len() as int, s) {
        let i = choose|i: int|
            0 <= i < a.len() && contact_side(start, size, #[trigger] a[i]) == Some(s);
        assert(b.contains(a[i]));
        let j = choose|j: int| 0 <= j < b.len() && b[j] == a[i];
        assert(contact_side(start, size, b[j]) == Some(s));
    }
    if wall_within(start, size, a, a.len() as int, s) {
        let i = choose|i: int|
            0 <= i < a.len() && contact_side(start, size, #[trigger] a[i]) == Some(s) && beside(
                start,
                a[i],
            );
        assert(b.contains(a[i]));
        let j = choose|j: int| 0 <= j < b.len() && b[j] == a[i];
        assert(contact_side(start, size, b[j]) == Some(s) && beside(start, b[j]));
    }
}

/// One contact sets one flag at most. Resolving the contact with a single
/// obstacle, from cleared flags, never leaves the actor both standing and
/// with an obstacle overhead, and sets no more than one of the four
/// directional flags.
pub proof fn law_one_flag_per_contact(p: Player, start: Vec2, o: Obstacle)
    requires
        !p.collision_data.below,
        !p.collision_data.above,
        !p.collision_data.left,
        !p.collision_data.right,
    ensures
        ({
            let d = contact_resolved(p, start, o).collision_data;
            &&& !(d.below && d.above)
            &&& (if d.below { 1int } else { 0int }) + (if d.above { 1int } else { 0int }) + (if d.left {
                1int
            } else {
                0int
            }) + (if d.right { 1int } else { 0int }) <= 1
        }),
{
}

/// The jump key follows the state of the actor. On the ground a press
/// leads to a jump off the ground, next to a wall side to a wall jump, in
/// the air to an air jump, and to nothing where a jump would be needed and
/// none is left.
pub proof fn law_jump_follows_state(p: Player)
    ensures
        spec_jump_kind(p) == JumpKind::Ground ==> spec_motion_state(p) == MotionState::Idle
            || spec_motion_state(p) == MotionState::Grounded,
        spec_jump_kind(p) == JumpKind::Wall ==> spec_motion_state(p) == MotionState::WallAdjacent,
        spec_jump_kind(p) == JumpKind::Air ==> spec_motion_state(p) == MotionState::Airborne
            || spec_motion_state(p) == MotionState::WallAdjacent,
        spec_jump_kind(p) == JumpKind::Rejected ==> p.jumps.jumps_remaining == 0,
        spec_jump_kind(p) != JumpKind::Rejected ==> !jump_requested(p).collision_data.below
            && jump_requested(p).body.attraction.is_active,
{
}

} // verus!
