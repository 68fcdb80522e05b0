//! Food placed in the world for the flock.

use vstd::prelude::*;

verus! {

/// Marker for actors that are drawn toward food.
#[derive(Clone, Copy, Debug, PartialEq, Eq, Structural, Default)]
pub struct LikesFood;

} // verus!
