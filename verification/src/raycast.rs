//! The probes that feel for walls and ground around an actor.
use vstd::prelude::*;
use crate::collide_aabb::collide;
use crate::collide_aabb::spec_collide;
use crate::collide_aabb::Collision;
use crate::comp::physics::Body;
use crate::comp::physics::CollisionData;
use crate::comp::physics::GravitationalAttraction;
use crate::comp::physics::Raycast;
use crate::fixed::Fixed;
use crate::nearest::in_order;
use crate::nearest::sort_by_distance;
use crate::obstacle::Obstacle;
use crate::obstacle::ObstacleKind;
use crate::player::beside;
use crate::player::grounded_on;
use crate::player::Player;
use crate::vec2::Vec2;

verus! {

/// The wall probe of an actor moved to where the actor is: it starts at
/// the middle of the edge that the actor faces. An actor that does not
/// face right faces left. The direction and the length of the probe stay
/// as they are.
pub open spec fn wall_ray_of(p: Player, ray: Raycast) -> Raycast {
    if p.collision_data.facing_direction > 0 {
        Raycast {
            origin: Vec2 {
                x: p.body.position.x.plus(p.collider.w.half()),
                y: p.body.position.y,
            },
            ..ray
        }
    } else {
        Raycast {
            origin: Vec2 {
                x: p.body.position.x.minus(p.collider.w.half()),
                y: p.body.position.y,
            },
            ..ray
        }
    }
}

/// The ground probe of an actor moved to where the actor is: it starts at
/// the middle of the actor's bottom edge. The direction and the length of
/// the probe stay as they are.
pub open spec fn ground_ray_of(p: Player, ray: Raycast) -> Raycast {
    Raycast {
        origin: Vec2 { x: p.body.position.x, y: p.body.position.y.minus(p.collider.h.half()) },
        ..ray
    }
}

/// Moves the origins of the two probes of an actor to where the actor is
/// now.
pub fn update_raycast_system(player: &Player, raycast: &mut Raycast, ground_raycast: &mut Raycast)
    ensures
        *final(raycast) == wall_ray_of(*player, *old(raycast)),
        *final(ground_raycast) == ground_ray_of(*player, *old(ground_raycast)),
{
    let position: Vec2 = player.body.position;
    if player.collision_data.facing_direction > 0 {
        raycast.origin = Vec2 { x: position.x.plus(player.collider.w.half()), y: position.y };
    } else {
        raycast.origin = Vec2 { x: position.x.minus(player.collider.w.half()), y: position.y };
    }
    ground_raycast.origin = Vec2 { x: position.x, y: position.y.minus(player.collider.h.half()) };
}

/// Where the outline of a probe is drawn while debugging: its centre and
/// its size.
pub fn draw_raycast_gizmo_system(raycast: &Raycast) -> (outline: (Vec2, Vec2))
    ensures
        outline.0 == raycast.origin,
        outline.1 == raycast.probe_size(),
{
    (raycast.origin, raycast.probe_size())
}

/// The side of `o` that the probe lies on; `None` for an obstacle without
/// positive extents, and where the probe does not reach it.
pub open spec fn probe_side(ray: Raycast, o: Obstacle) -> Option<Collision> {
    if o.collider.is_solid() {
        spec_collide(ray.origin, ray.probe_size(), o.position, o.collider.get_size())
    } else {
        None
    }
}

/// Tests the probe against one obstacle.
pub fn probe_hit(ray: &Raycast, o: &Obstacle) -> (hit: Option<Collision>)
    ensures
        hit == probe_side(*ray, *o),
{
    if o.collider.is_solid() {
        collide(ray.origin, ray.probe_size(), o.position, o.collider.get_size())
    } else {
        None
    }
}

/// The actor set on the top corner of `o`, over the side that the probe
/// came from: flush with the obstacle's left edge where `from_left`, with
/// its right edge where not, and with its feet on the top edge.
pub open spec fn mantled_on(p: Player, o: Obstacle, from_left: bool) -> Player {
    let x = if from_left {
        o.left() + p.half_width()
    } else {
        o.right() - p.half_width()
    };
    Player {
        body: Body {
            position: Vec2 { x: Fixed::of(x), y: Fixed::of(o.top() + p.half_height()) },
            ..p.body
        },
        ..p
    }
}

/// The actor after its wall probe was tested against one obstacle. `start`
/// is where the actor was when the probing began. Only an obstacle of the
/// wall kind that the probe crosses sideways counts. Where the actor's
/// centre is below the top edge of such a wall, the actor touches the wall.
/// Where it is not, the actor is set on the wall's top corner and touches
/// no wall.
pub open spec fn wall_felt(p: Player, start: Vec2, ray: Raycast, o: Obstacle) -> Player {
    if o.kind != ObstacleKind::Wall {
        p
    } else {
        match probe_side(ray, o) {
            Some(Collision::Left) => if beside(start, o) {
                Player {
                    collision_data: CollisionData { touching_wall: true, ..p.collision_data },
                    ..p
                }
            } else {
                mantled_on(p, o, true)
            },
            Some(Collision::Right) => if beside(start, o) {
                Player {
                    collision_data: CollisionData { touching_wall: true, ..p.collision_data },
                    ..p
                }
            } else {
                mantled_on(p, o, false)
            },
            _ => p,
        }
    }
}

/// The actor after its wall probe was tested against the first `n` of
/// `walls` in order.
pub open spec fn walls_felt(p: Player, start: Vec2, ray: Raycast, walls: Seq<Obstacle>, n: nat) -> Player
    decreases n,
{
    if n == 0 {
        p
    } else {
        wall_felt(walls_felt(p, start, ray, walls, (n - 1) as nat), start, ray, walls[n - 1])
    }
}

/// The actor with the wall flag cleared, as it is before the probing.
pub open spec fn unstuck(p: Player) -> Player {
    Player { collision_data: CollisionData { touching_wall: false, ..p.collision_data }, ..p }
}

/// The actor with gravity switched off where it touches a wall.
pub open spec fn stuck_to_wall(p: Player) -> Player {
    if p.collision_data.touching_wall {
        Player {
            body: Body { attraction: GravitationalAttraction { is_active: false }, ..p.body },
            ..p
        }
    } else {
        p
    }
}

/// The actor after its wall probe was tested against all of `walls`,
/// taken in their order as seen from the actor, nearest first. Gravity is
/// switched off where the actor touches a wall, and is left as it was
/// where it touches none.
pub open spec fn wall_probed(p: Player, ray: Raycast, walls: Seq<Obstacle>) -> Player {
    stuck_to_wall(
        walls_felt(
            unstuck(p),
            p.body.position,
            ray,
            in_order(p.body.position, walls),
            walls.len(),
        ),
    )
}

/// Tests the wall probe against one obstacle.
pub fn feel_wall(player: &mut Player, start: Vec2, ray: &Raycast, o: &Obstacle)
    ensures
        *final(player) == wall_felt(*old(player), start, *ray, *o),
{
    if o.kind != ObstacleKind::Wall {
        return ;
    }
    let hit: Option<Collision> = probe_hit(ray, o);
    let from_left: bool = match hit {
        Some(Collision::Left) => true,
        Some(Collision::Right) => false,
        _ => {
            return ;
        },
    };
    if start.y.wide() < o.top_wide() {
        player.collision_data.touching_wall = true;
    } else {
        let x: i128 = if from_left {
            o.left_wide() + player.collider.w.half().wide()
        } else {
            o.right_wide() - player.collider.w.half().wide()
        };
        let y: i128 = o.top_wide() + player.collider.h.half().wide();
        player.body.position = Vec2 { x: Fixed::from_wide(x), y: Fixed::from_wide(y) };
    }
}

/// Feels for walls with the actor's wall probe, taking the walls in their
/// order as seen from the actor. An actor that touches a wall stops
/// falling. The step only ever switches gravity off: where no wall is
/// touched the switch stays as the caller left it, so it is to be run
/// after the collision pass, which switches gravity on first.
pub fn raycast_hit_system(player: &mut Player, raycast: &Raycast, walls: &Vec<Obstacle>)
    ensures
        *final(player) == wall_probed(*old(player), *raycast, walls@),
{
    let start: Vec2 = player.body.position;
    let sorted: Vec<Obstacle> = sort_by_distance(start, walls);
    player.collision_data.touching_wall = false;
    let mut i: usize = 0;
    while i < sorted.len()
        invariant
            i <= sorted@.len(),
            sorted@.len() == walls@.len(),
            *player == walls_felt(unstuck(*old(player)), start, *raycast, sorted@, i as nat),
        decreases sorted@.len() - i,
    {
        feel_wall(player, start, raycast, &sorted[i]);
        i += 1;
    }
    if player.collision_data.touching_wall {
        player.body.attraction = GravitationalAttraction { is_active: false };
    }
}

/// The actor set down on `o` by its ground probe: as [`grounded_on`] sets
/// it down, but with what is remembered of the standing left as it was,
/// so that the collision pass still reports the landing.
pub open spec fn probed_down(p: Player, o: Obstacle) -> Player {
    let down = grounded_on(p, o);
    Player {
        collision_data: CollisionData {
            prev_below: p.collision_data.prev_below,
            ..down.collision_data
        },
        ..down
    }
}

/// The actor after its ground probe was tested against one obstacle: set
/// down on the obstacle where the probe sticks out of its top edge.
pub open spec fn ground_felt(p: Player, ray: Raycast, o: Obstacle) -> Player {
    if probe_side(ray, o) == Some(Collision::Top) {
        probed_down(p, o)
    } else {
        p
    }
}

/// The actor after its ground probe was tested against the first `n` of
/// `grounds` in order.
pub open spec fn grounds_felt(p: Player, ray: Raycast, grounds: Seq<Obstacle>, n: nat) -> Player
    decreases n,
{
    if n == 0 {
        p
    } else {
        ground_felt(grounds_felt(p, ray, grounds, (n - 1) as nat), ray, grounds[n - 1])
    }
}

/// The actor after its ground probe was tested against all of `grounds`,
/// taken in their order as seen from the actor, nearest first.
pub open spec fn ground_probed(p: Player, ray: Raycast, grounds: Seq<Obstacle>) -> Player {
    grounds_felt(p, ray, in_order(p.body.position, grounds), grounds.len())
}

/// Feels for ground with the actor's ground probe, taking the obstacles in
/// their order as seen from the actor, and sets the actor down on what it
/// finds. What is remembered of the standing is left alone.
pub fn ground_check_system(player: &mut Player, ground_raycast: &Raycast, grounds: &Vec<Obstacle>)
    ensures
        *final(player) == ground_probed(*old(player), *ground_raycast, grounds@),
{
    let sorted: Vec<Obstacle> = sort_by_distance(player.body.position, grounds);
    let mut i: usize = 0;
    while i < sorted.len()
        invariant
            i <= sorted@.len(),
            sorted@.len() == grounds@.len(),
            *player == grounds_felt(*old(player), *ground_raycast, sorted@, i as nat),
        decreases sorted@.len() - i,
    {
        let hit: Option<Collision> = probe_hit(ground_raycast, &sorted[i]);
        if hit == Some(Collision::Top) {
            let remembered: bool = player.collision_data.prev_below;
            crate::player::set_down(player, &sorted[i]);
            player.collision_data.prev_below = remembered;
        }
        i += 1;
    }
}

} // verus!
