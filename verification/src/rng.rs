//! The one source of chance.
use vstd::prelude::*;
use rand::Rng;
use crate::fixed::Fixed;

verus! {

/// Draws from the thread's random number generator with
/// `rand::Rng::gen_range` on the half-open range `lower..upper`. Believed
/// without proof: the draw lies in the range. Which value comes is left
/// open. The range must not be empty, since the generator panics on an
/// empty one.
#[verifier::external_body]
pub(crate) fn gen_range(lower: i64, upper: i64) -> (r: i64)
    requires
        lower < upper,
    ensures
        lower <= r < upper,
{
    rand::thread_rng().gen_range(lower..upper)
}

/// A random number of at least `lower` and less than `upper`; `lower`
/// itself where the bounds leave no room.
pub fn random_between(lower: Fixed, upper: Fixed) -> (r: Fixed)
    ensures
        lower@ < upper@ ==> lower@ <= r@ < upper@,
        lower@ >= upper@ ==> r == lower,
{
    if lower.raw < upper.raw {
        Fixed { raw: gen_range(lower.raw, upper.raw) }
    } else {
        lower
    }
}

/// A random index below `len`; `None` exactly when `len` is zero.
pub fn random_index(len: usize) -> (r: Option<usize>)
    ensures
        len == 0 <==> r is None,
        r matches Some(i) ==> i < len,
{
    if len == 0 {
        None
    } else if len as u64 > 0x7fff_ffff_ffff_ffff {
        Some(gen_range(0, 0x7fff_ffff_ffff_ffff) as usize)
    } else {
        Some(gen_range(0, len as i64) as usize)
    }
}

} // verus!
