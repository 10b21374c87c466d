//! A fixed order for the obstacles of a tick: nearest first.
//!
//! The order goes by the distance of an obstacle from the actor and, among
//! obstacles at the same distance, by the obstacle's own values. No two
//! different obstacles share a place in it, so a set of obstacles has one
//! order only, however it was listed.
use vstd::prelude::*;
use vstd::relations::sorted_by;
use vstd::relations::total_ordering;
use vstd::seq_lib::lemma_sorted_unique;
use vstd::seq_lib::to_multiset_build;
use vstd::seq_lib::to_multiset_insert;
use crate::obstacle::Obstacle;
use crate::obstacle::ObstacleKind;
use crate::vec2::lemma_square_nonneg_fits;
use crate::vec2::Vec2;

verus! {

/// The square of the distance from `position` to the centre of `o`, in
/// raw units squared.
pub open spec fn distance_key(position: Vec2, o: Obstacle) -> int {
    o.position.minus(position).norm_squared()
}

/// Computes the square of the distance from `position` to the centre of
/// an obstacle.
pub fn distance_squared(position: Vec2, o: &Obstacle) -> (key: u128)
    ensures
        key == distance_key(position, *o),
{
    let d: Vec2 = o.position.minus(position);
    proof {
        lemma_square_nonneg_fits(d.x@);
        lemma_square_nonneg_fits(d.y@);
    }
    let xx: i128 = (d.x.raw as i128) * (d.x.raw as i128);
    let yy: i128 = (d.y.raw as i128) * (d.y.raw as i128);
    (xx as u128) + (yy as u128)
}

/// Place of a kind among the kinds: ground before wall.
pub open spec fn kind_rank(kind: ObstacleKind) -> int {
    match kind {
        ObstacleKind::Ground => 0,
        ObstacleKind::Wall => 1,
    }
}

/// `a` stands no later than `b` in the order as seen from `position`. The
/// nearer obstacle stands first. At the same distance the first of these
/// that differs decides, the smaller value first: the centre's `x`, its
/// `y`, the width, the height, the velocity's `x`, its `y`, and the kind.
pub open spec fn no_later(position: Vec2, a: Obstacle, b: Obstacle) -> bool {
    if distance_key(position, a) != distance_key(position, b) {
        distance_key(position, a) < distance_key(position, b)
    } else if a.position.x@ != b.position.x@ {
        a.position.x@ < b.position.x@
    } else if a.position.y@ != b.position.y@ {
        a.position.y@ < b.position.y@
    } else if a.collider.w@ != b.collider.w@ {
        a.collider.w@ < b.collider.w@
    } else if a.collider.h@ != b.collider.h@ {
        a.collider.h@ < b.collider.h@
    } else if a.velocity.0.x@ != b.velocity.0.x@ {
        a.velocity.0.x@ < b.velocity.0.x@
    } else if a.velocity.0.y@ != b.velocity.0.y@ {
        a.velocity.0.y@ < b.velocity.0.y@
    } else {
        kind_rank(a.kind) <= kind_rank(b.kind)
    }
}

/// The order as seen from `position`, as a relation.
pub open spec fn order(position: Vec2) -> spec_fn(Obstacle, Obstacle) -> bool {
    |a: Obstacle, b: Obstacle| no_later(position, a, b)
}

/// The order is total: any two obstacles are ordered, in one way only
/// unless they are the same obstacle, and the order carries through a
/// third.
pub proof fn law_order_is_total(position: Vec2)
    ensures
        total_ordering(order(position)),
{
    let leq = order(position);
    assert forall|a: Obstacle| #[trigger] leq(a, a) by {}
    assert forall|a: Obstacle, b: Obstacle| #[trigger] leq(a, b) && #[trigger] leq(b, a) implies a
        == b by {
        assert(a.position.x == b.position.x);
        assert(a.position.y == b.position.y);
        assert(a.position == b.position);
        assert(a.collider.w == b.collider.w);
        assert(a.collider.h == b.collider.h);
        assert(a.collider == b.collider);
        assert(a.velocity.0.x == b.velocity.0.x);
        assert(a.velocity.0.y == b.velocity.0.y);
        assert(a.velocity.0 == b.velocity.0);
        assert(a.velocity == b.velocity);
        assert(a.kind == b.kind);
    }
    assert forall|a: Obstacle, b: Obstacle, c: Obstacle| #[trigger]
        leq(a, b) && #[trigger] leq(b, c) implies leq(a, c) by {}
    assert forall|a: Obstacle, b: Obstacle| #[trigger] leq(a, b) || #[trigger] leq(b, a) by {}
}

/// Tells whether `a` stands later than `b` in the order as seen from
/// `position`.
pub fn stands_later(position: Vec2, a: &Obstacle, b: &Obstacle) -> (later: bool)
    ensures
        later == !no_later(position, *a, *b),
{
    let ka: u128 = distance_squared(position, a);
    let kb: u128 = distance_squared(position, b);
    if ka != kb {
        ka > kb
    } else if a.position.x.raw != b.position.x.raw {
        a.position.x.raw > b.position.x.raw
    } else if a.position.y.raw != b.position.y.raw {
        a.position.y.raw > b.position.y.raw
    } else if a.collider.w.raw != b.collider.w.raw {
        a.collider.w.raw > b.collider.w.raw
    } else if a.collider.h.raw != b.collider.h.raw {
        a.collider.h.raw > b.collider.h.raw
    } else if a.velocity.0.x.raw != b.velocity.0.x.raw {
        a.velocity.0.x.raw > b.velocity.0.x.raw
    } else if a.velocity.0.y.raw != b.velocity.0.y.raw {
        a.velocity.0.y.raw > b.velocity.0.y.raw
    } else {
        match (a.kind, b.kind) {
            (ObstacleKind::Wall, ObstacleKind::Ground) => true,
            _ => false,
        }
    }
}

/// No obstacle of `s` is farther from `position` than one that follows it.
pub open spec fn sorted_by_distance(position: Vec2, s: Seq<Obstacle>) -> bool {
    forall|i: int, j: int|
        0 <= i <= j < s.len() ==> distance_key(position, #[trigger] s[i]) <= distance_key(
            position,
            #[trigger] s[j],
        )
}

/// Index of the first obstacle among the first `n` of `s` that stands
/// later than `o`, or `n` where none does.
pub open spec fn slot(position: Vec2, s: Seq<Obstacle>, o: Obstacle, n: nat) -> nat
    decreases n,
{
    if n == 0 {
        0
    } else {
        let before = slot(position, s, o, (n - 1) as nat);
        if before < n - 1 {
            before
        } else if !no_later(position, s[n - 1], o) {
            (n - 1) as nat
        } else {
            n
        }
    }
}

/// The first `n` of `obstacles` in their order as seen from `position`.
pub open spec fn nearest_first(position: Vec2, obstacles: Seq<Obstacle>, n: nat) -> Seq<Obstacle>
    decreases n,
{
    if n == 0 {
        Seq::<Obstacle>::empty()
    } else {
        let before = nearest_first(position, obstacles, (n - 1) as nat);
        let o = obstacles[n - 1];
        before.insert(slot(position, before, o, before.len()) as int, o)
    }
}

/// All of `obstacles` in their order as seen from `position`.
pub open spec fn in_order(position: Vec2, obstacles: Seq<Obstacle>) -> Seq<Obstacle> {
    nearest_first(position, obstacles, obstacles.len())
}

/// What stands before the slot stands no later than `o`, and what stands
/// at it stands later.
proof fn lemma_slot(position: Vec2, s: Seq<Obstacle>, o: Obstacle, n: nat)
    requires
        n <= s.len(),
    ensures
        slot(position, s, o, n) <= n,
        forall|i: int|
            0 <= i < slot(position, s, o, n) ==> no_later(position, #[trigger] s[i], o),
        slot(position, s, o, n) < n ==> !no_later(position, s[slot(position, s, o, n) as int], o),
    decreases n,
{
    if n > 0 {
        lemma_slot(position, s, o, (n - 1) as nat);
    }
}

/// Once a later obstacle is found, looking further does not change the
/// slot.
proof fn lemma_slot_stays(position: Vec2, s: Seq<Obstacle>, o: Obstacle, n: nat, m: nat)
    requires
        n <= m,
        slot(position, s, o, n) < n,
    ensures
        slot(position, s, o, m) == slot(position, s, o, n),
    decreases m - n,
{
    if n < m {
        lemma_slot_stays(position, s, o, n, (m - 1) as nat);
    }
}

/// The order of [`nearest_first`] is sorted, by the order and so by
/// distance, and holds the obstacles that were listed, each as often as it
/// was listed.
pub proof fn law_nearest_first_sorts(position: Vec2, obstacles: Seq<Obstacle>, n: nat)
    requires
        n <= obstacles.len(),
    ensures
        sorted_by(nearest_first(position, obstacles, n), order(position)),
        sorted_by_distance(position, nearest_first(position, obstacles, n)),
        nearest_first(position, obstacles, n).len() == n,
        nearest_first(position, obstacles, n).to_multiset() == obstacles.subrange(
            0,
            n as int,
        ).to_multiset(),
    decreases n,
{
    let leq = order(position);
    if n == 0 {
        assert(obstacles.subrange(0, 0) =~= Seq::<Obstacle>::empty());
    } else {
        law_nearest_first_sorts(position, obstacles, (n - 1) as nat);
        law_order_is_total(position);
        let before = nearest_first(position, obstacles, (n - 1) as nat);
        let o = obstacles[n - 1];
        let at = slot(position, before, o, before.len()) as int;
        lemma_slot(position, before, o, before.len());
        let after = before.insert(at, o);
        assert forall|i: int, j: int| 0 <= i < j < after.len() implies #[trigger] leq(
            after[i],
            after[j],
        ) by {
            if i < at {
                assert(after[i] == before[i]);
                assert(leq(before[i], o));
                if j > at {
                    assert(after[j] == before[j - 1]);
                    assert(leq(before[i], before[j - 1]));
                } else if j < at {
                    assert(after[j] == before[j]);
                    assert(leq(before[i], before[j]));
                }
            } else if i == at {
                assert(after[j] == before[j - 1]);
                assert(!leq(before[at], o));
                assert(leq(o, before[at]) || leq(before[at], o));
                if j - 1 > at {
                    assert(leq(before[at], before[j - 1]));
                }
                assert(leq(o, before[at]) && leq(before[at], before[j - 1]) ==> leq(
                    o,
                    before[j - 1],
                ));
            } else {
                assert(after[i] == before[i - 1]);
                assert(after[j] == before[j - 1]);
                assert(leq(before[i - 1], before[j - 1]));
            }
        }
        to_multiset_insert(before, at, o);
        to_multiset_build(obstacles.subrange(0, n - 1), o);
        assert(obstacles.subrange(0, n - 1).push(o) =~= obstacles.subrange(0, n as int));
    }
    let sorted = nearest_first(position, obstacles, n);
    assert forall|i: int, j: int| 0 <= i <= j < sorted.len() implies distance_key(
        position,
        #[trigger] sorted[i],
    ) <= distance_key(position, #[trigger] sorted[j]) by {
        if i < j {
            assert(leq(sorted[i], sorted[j]));
        }
    }
}

/// One set of obstacles has one order. Two lists that hold the same
/// obstacles, each as often in one as in the other, come out in the same
/// order.
pub proof fn law_same_obstacles_same_order(position: Vec2, a: Seq<Obstacle>, b: Seq<Obstacle>)
    requires
        a.to_multiset() == b.to_multiset(),
    ensures
        in_order(position, a) == in_order(position, b),
{
    law_nearest_first_sorts(position, a, a.len());
    law_nearest_first_sorts(position, b, b.len());
    law_order_is_total(position);
    assert(a.subrange(0, a.len() as int) =~= a);
    assert(b.subrange(0, b.len() as int) =~= b);
    lemma_sorted_unique(in_order(position, a), in_order(position, b), order(position));
}

/// A list of one obstacle is in order.
pub proof fn lemma_one_is_in_order(position: Vec2, o: Obstacle)
    ensures
        in_order(position, seq![o]) == seq![o],
{
    let s = seq![o];
    assert(nearest_first(position, s, 0) =~= Seq::<Obstacle>::empty());
    reveal_with_fuel(nearest_first, 2);
    reveal_with_fuel(slot, 2);
    assert(s[0] == o);
    assert(Seq::<Obstacle>::empty().insert(0, o) =~= seq![o]);
}

/// The obstacles in order are those that were listed.
pub proof fn lemma_in_order_holds_the_same(position: Vec2, obstacles: Seq<Obstacle>)
    ensures
        in_order(position, obstacles).len() == obstacles.len(),
        in_order(position, obstacles).to_multiset() == obstacles.to_multiset(),
        forall|i: int|
            0 <= i < obstacles.len() ==> obstacles.contains(
                #[trigger] in_order(position, obstacles)[i],
            ),
        forall|i: int|
            0 <= i < obstacles.len() ==> in_order(position, obstacles).contains(
                #[trigger] obstacles[i],
            ),
{
    law_nearest_first_sorts(position, obstacles, obstacles.len());
    assert(obstacles.subrange(0, obstacles.len() as int) =~= obstacles);
    let sorted = in_order(position, obstacles);
    assert forall|i: int| 0 <= i < obstacles.len() implies obstacles.contains(
        #[trigger] sorted[i],
    ) by {
        vstd::seq_lib::to_multiset_contains(sorted, sorted[i]);
        vstd::seq_lib::to_multiset_contains(obstacles, sorted[i]);
        assert(sorted.contains(sorted[i]));
    }
    assert forall|i: int| 0 <= i < obstacles.len() implies sorted.contains(
        #[trigger] obstacles[i],
    ) by {
        vstd::seq_lib::to_multiset_contains(sorted, obstacles[i]);
        vstd::seq_lib::to_multiset_contains(obstacles, obstacles[i]);
        assert(obstacles.contains(obstacles[i]));
    }
}

/// Finds the place of an obstacle in a list.
fn find_slot(position: Vec2, sorted: &Vec<Obstacle>, o: &Obstacle) -> (at: usize)
    ensures
        at == slot(position, sorted@, *o, sorted@.len()),
        at <= sorted@.len(),
{
    let mut i: usize = 0;
    while i < sorted.len()
        invariant
            i <= sorted@.len(),
            slot(position, sorted@, *o, i as nat) == i,
        decreases sorted@.len() - i,
    {
        if stands_later(position, &sorted[i], o) {
            proof {
                lemma_slot_stays(position, sorted@, *o, (i + 1) as nat, sorted@.len());
            }
            return i;
        }
        i += 1;
    }
    i
}

/// Puts the obstacles in their order as seen from `position`: nearest
/// first, and by their own values where the distance is the same. The
/// result does not depend on how the obstacles were listed.
pub fn sort_by_distance(position: Vec2, obstacles: &Vec<Obstacle>) -> (sorted: Vec<Obstacle>)
    ensures
        sorted@ == in_order(position, obstacles@),
        sorted@.len() == obstacles@.len(),
        sorted_by(sorted@, order(position)),
        sorted_by_distance(position, sorted@),
        sorted@.to_multiset() == obstacles@.to_multiset(),
{
    let mut sorted: Vec<Obstacle> = Vec::new();
    let mut i: usize = 0;
    while i < obstacles.len()
        invariant
            i <= obstacles@.len(),
            sorted@ == nearest_first(position, obstacles@, i as nat),
            sorted@.len() == i,
        decreases obstacles@.len() - i,
    {
        let at: usize = find_slot(position, &sorted, &obstacles[i]);
        sorted.insert(at, obstacles[i]);
        i += 1;
    }
    proof {
        law_nearest_first_sorts(position, obstacles@, obstacles@.len());
        assert(obstacles@.subrange(0, obstacles@.len() as int) =~= obstacles@);
    }
    sorted
}

} // verus!
