//! Scattered grass: the decoration the levels sprinkle over the field at
//! random positions.

use vstd::prelude::*;

use crate::fixed::COORD_MAX;
use crate::vec3::Vec2;

verus! {

/// Whether a point lies inside the rectangle spanned by the extents.
pub open spec fn within_extents(p: Vec2, extents: Vec2) -> bool {
    -extents.x <= p.x <= extents.x && -extents.y <= p.y <= extents.y
}

/// Scatter `num` positions at random over
/// `[-extents.x, extents.x] x [-extents.y, extents.y]`.
///
/// The draws come from `rand::random`; whatever they come to, exactly
/// `num` positions come back and every one lies inside the rectangle.
pub fn generate_positions(num: usize, extents: Vec2) -> (r: Vec<Vec2>)
    requires
        0 <= extents.x <= COORD_MAX,
        0 <= extents.y <= COORD_MAX,
    ensures
        r@.len() == num,
        forall|i: int| 0 <= i < r@.len() ==> within_extents(#[trigger] r@[i], extents),
{
    let span_x: u64 = (2 * extents.x + 1) as u64;
    let span_y: u64 = (2 * extents.y + 1) as u64;
    let mut positions: Vec<Vec2> = Vec::new();
    let mut k: usize = 0;
    while k < num
        invariant
            k == positions@.len() <= num,
            0 <= extents.x <= COORD_MAX,
            0 <= extents.y <= COORD_MAX,
            span_x == 2 * extents.x + 1,
            span_y == 2 * extents.y + 1,
            forall|i: int| 0 <= i < positions@.len() ==> within_extents(
                #[trigger] positions@[i],
                extents,
            ),
        decreases num - k,
    {
        let dx: u64 = rand::random::<u64>() % span_x;
        let dy: u64 = rand::random::<u64>() % span_y;
        let x: i64 = dx as i64 - extents.x;
        let y: i64 = dy as i64 - extents.y;
        positions.push(Vec2 { x, y });
        k = k + 1;
    }
    positions
}

} // verus!
