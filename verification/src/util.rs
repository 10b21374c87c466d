//! Small geometric helpers.
use vstd::prelude::*;
use crate::fixed::Fixed;
use crate::tuning::SCR_HEIGHT;
use crate::tuning::SCR_WIDTH;
use crate::vec2::Vec2;

verus! {

/// Width and height of a rectangle.
#[derive(Clone, Copy, Debug, PartialEq, Eq, Structural)]
pub struct Size {
    /// Extent along `x`.
    pub width: Fixed,
    /// Extent along `y`.
    pub height: Fixed,
}

impl Size {
    /// The size `width` by `height`.
    pub fn new(width: Fixed, height: Fixed) -> (size: Size)
        ensures
            size == (Size { width, height }),
    {
        Size { width, height }
    }
}

/// The Euclidean distance between two points, rounded down to the nearest
/// thousandth.
pub fn get_distance(a: &Vec2, b: &Vec2) -> (d: Fixed)
    ensures
        d == b.minus(*a).length(),
{
    b.minus(*a).length()
}

/// The displacement that leads from `a` to `b`.
pub fn get_direction(a: &Vec2, b: &Vec2) -> (dir: Vec2)
    ensures
        dir == b.minus(*a),
{
    Vec2 { x: b.x.minus(a.x), y: b.y.minus(a.y) }
}

/// The size of the play field, as a value: the square over the height of
/// the primary window, and the default screen where there is no window.
pub open spec fn spec_get_window_size(primary: Option<Size>) -> Size {
    match primary {
        Some(window) => Size { width: window.height, height: window.height },
        None => Size { width: Fixed { raw: SCR_WIDTH }, height: Fixed { raw: SCR_HEIGHT } },
    }
}

/// The size of the play field, given the size of the primary window if
/// there is one.
#[verifier::when_used_as_spec(spec_get_window_size)]
pub fn get_window_size(primary: Option<Size>) -> (size: Size)
    ensures
        size == spec_get_window_size(primary),
{
    match primary {
        Some(window) => Size { width: window.height, height: window.height },
        None => Size { width: Fixed { raw: SCR_WIDTH }, height: Fixed { raw: SCR_HEIGHT } },
    }
}

} // verus!
