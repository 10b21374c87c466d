//! Overlap test for two axis-aligned boxes, with the side that was hit.
//!
//! A box is given by its centre and its full size; its edges lie half a size
//! away from the centre on each axis. Edges are computed exactly, so two boxes
//! that only touch do not overlap.
use vstd::prelude::*;
use crate::fixed::trunc_div;
use crate::vec2::Vec2;

verus! {

/// The side of the second box on which the first box lies.
#[derive(Clone, Copy, Debug, PartialEq, Eq, Structural)]
pub enum Collision {
    /// The first box reaches over the left edge of the second.
    Left,
    /// The first box reaches over the right edge of the second.
    Right,
    /// The first box reaches over the top edge of the second.
    Top,
    /// The first box reaches over the bottom edge of the second.
    Bottom,
    /// The boxes overlap and no single edge of the second is crossed.
    Inside,
}

/// Left edge of the box centred at `pos`, in thousandths.
pub open spec fn left_edge(pos: Vec2, size: Vec2) -> int {
    pos.x@ - trunc_div(size.x@, 2)
}

/// Right edge of the box centred at `pos`, in thousandths.
pub open spec fn right_edge(pos: Vec2, size: Vec2) -> int {
    pos.x@ + trunc_div(size.x@, 2)
}

/// Bottom edge of the box centred at `pos`, in thousandths.
pub open spec fn bottom_edge(pos: Vec2, size: Vec2) -> int {
    pos.y@ - trunc_div(size.y@, 2)
}

/// Top edge of the box centred at `pos`, in thousandths.
pub open spec fn top_edge(pos: Vec2, size: Vec2) -> int {
    pos.y@ + trunc_div(size.y@, 2)
}

/// The two boxes share interior points.
pub open spec fn overlaps(a_pos: Vec2, a_size: Vec2, b_pos: Vec2, b_size: Vec2) -> bool {
    &&& left_edge(a_pos, a_size) < right_edge(b_pos, b_size)
    &&& right_edge(a_pos, a_size) > left_edge(b_pos, b_size)
    &&& bottom_edge(a_pos, a_size) < top_edge(b_pos, b_size)
    &&& top_edge(a_pos, a_size) > bottom_edge(b_pos, b_size)
}

/// On one axis, the interval `[a_min, a_max]` sticks out below `b_min` and
/// ends inside `[b_min, b_max]`.
pub open spec fn crosses_low(a_min: int, a_max: int, b_min: int, b_max: int) -> bool {
    a_min < b_min && a_max > b_min && a_max < b_max
}

/// On one axis, the interval `[a_min, a_max]` starts inside `[b_min, b_max]`
/// and sticks out above `b_max`.
pub open spec fn crosses_high(a_min: int, a_max: int, b_min: int, b_max: int) -> bool {
    a_min > b_min && a_min < b_max && a_max > b_max
}

/// How far the first interval reaches into the second across the edge it
/// crosses; `None` where it crosses neither edge alone.
pub open spec fn axis_depth(a_min: int, a_max: int, b_min: int, b_max: int) -> Option<int> {
    if crosses_low(a_min, a_max, b_min, b_max) {
        Some(a_max - b_min)
    } else if crosses_high(a_min, a_max, b_min, b_max) {
        Some(b_max - a_min)
    } else {
        None
    }
}

/// Horizontal penetration of the first box into the second.
pub open spec fn x_depth(a_pos: Vec2, a_size: Vec2, b_pos: Vec2, b_size: Vec2) -> Option<int> {
    axis_depth(
        left_edge(a_pos, a_size),
        right_edge(a_pos, a_size),
        left_edge(b_pos, b_size),
        right_edge(b_pos, b_size),
    )
}

/// Vertical penetration of the first box into the second.
pub open spec fn y_depth(a_pos: Vec2, a_size: Vec2, b_pos: Vec2, b_size: Vec2) -> Option<int> {
    axis_depth(
        bottom_edge(a_pos, a_size),
        top_edge(a_pos, a_size),
        bottom_edge(b_pos, b_size),
        top_edge(b_pos, b_size),
    )
}

/// The vertical axis decides the side: it is crossed, and either the
/// horizontal axis is not or the vertical penetration is strictly smaller.
pub open spec fn vertical_wins(xd: Option<int>, yd: Option<int>) -> bool {
    match (xd, yd) {
        (_, None) => false,
        (None, Some(_)) => true,
        (Some(x), Some(y)) => y < x,
    }
}

/// The side of box `b` on which box `a` lies, or `None` where they do not
/// overlap. Of a horizontal and a vertical crossing the shallower one is
/// reported, the horizontal one where both are equally deep.
pub open spec fn spec_collide(a_pos: Vec2, a_size: Vec2, b_pos: Vec2, b_size: Vec2) -> Option<
    Collision,
> {
    if !overlaps(a_pos, a_size, b_pos, b_size) {
        None
    } else if vertical_wins(
        x_depth(a_pos, a_size, b_pos, b_size),
        y_depth(a_pos, a_size, b_pos, b_size),
    ) {
        if crosses_low(
            bottom_edge(a_pos, a_size),
            top_edge(a_pos, a_size),
            bottom_edge(b_pos, b_size),
            top_edge(b_pos, b_size),
        ) {
            Some(Collision::Bottom)
        } else {
            Some(Collision::Top)
        }
    } else if crosses_low(
        left_edge(a_pos, a_size),
        right_edge(a_pos, a_size),
        left_edge(b_pos, b_size),
        right_edge(b_pos, b_size),
    ) {
        Some(Collision::Left)
    } else if crosses_high(
        left_edge(a_pos, a_size),
        right_edge(a_pos, a_size),
        left_edge(b_pos, b_size),
        right_edge(b_pos, b_size),
    ) {
        Some(Collision::Right)
    } else {
        Some(Collision::Inside)
    }
}

/// Penetration along one axis, computed on wide integers.
fn depth_on_axis(a_min: i128, a_max: i128, b_min: i128, b_max: i128) -> (d: Option<i128>)
    requires
        -0x1_0000_0000_0000_0000 <= a_min <= 0x1_0000_0000_0000_0000,
        -0x1_0000_0000_0000_0000 <= a_max <= 0x1_0000_0000_0000_0000,
        -0x1_0000_0000_0000_0000 <= b_min <= 0x1_0000_0000_0000_0000,
        -0x1_0000_0000_0000_0000 <= b_max <= 0x1_0000_0000_0000_0000,
    ensures
        match d {
            Some(v) => axis_depth(a_min as int, a_max as int, b_min as int, b_max as int) == Some(
                v as int,
            ),
            None => axis_depth(a_min as int, a_max as int, b_min as int, b_max as int) is None,
        },
{
    if a_min < b_min && a_max > b_min && a_max < b_max {
        Some(a_max - b_min)
    } else if a_min > b_min && a_min < b_max && a_max > b_max {
        Some(b_max - a_min)
    } else {
        None
    }
}

/// Tests the box `a` against the box `b` and tells on which side of `b` it
/// lies.
pub fn collide(a_pos: Vec2, a_size: Vec2, b_pos: Vec2, b_size: Vec2) -> (hit: Option<Collision>)
    ensures
        hit == spec_collide(a_pos, a_size, b_pos, b_size),
{
    let a_min_x: i128 = a_pos.x.wide() - a_size.x.half().wide();
    let a_max_x: i128 = a_pos.x.wide() + a_size.x.half().wide();
    let a_min_y: i128 = a_pos.y.wide() - a_size.y.half().wide();
    let a_max_y: i128 = a_pos.y.wide() + a_size.y.half().wide();
    let b_min_x: i128 = b_pos.x.wide() - b_size.x.half().wide();
    let b_max_x: i128 = b_pos.x.wide() + b_size.x.half().wide();
    let b_min_y: i128 = b_pos.y.wide() - b_size.y.half().wide();
    let b_max_y: i128 = b_pos.y.wide() + b_size.y.half().wide();
    if !(a_min_x < b_max_x && a_max_x > b_min_x && a_min_y < b_max_y && a_max_y > b_min_y) {
        return None;
    }
    let xd: Option<i128> = depth_on_axis(a_min_x, a_max_x, b_min_x, b_max_x);
    let yd: Option<i128> = depth_on_axis(a_min_y, a_max_y, b_min_y, b_max_y);
    let vertical: bool = match (xd, yd) {
        (_, None) => false,
        (None, Some(_)) => true,
        (Some(x), Some(y)) => y < x,
    };
    if vertical {
        if a_min_y < b_min_y && a_max_y > b_min_y && a_max_y < b_max_y {
            Some(Collision::Bottom)
        } else {
            Some(Collision::Top)
        }
    } else if a_min_x < b_min_x && a_max_x > b_min_x && a_max_x < b_max_x {
        Some(Collision::Left)
    } else if a_min_x > b_min_x && a_min_x < b_max_x && a_max_x > b_max_x {
        Some(Collision::Right)
    } else {
        Some(Collision::Inside)
    }
}

} // verus!
