//! Points, extents and the overlap test.

use vstd::prelude::*;
use crate::fixed::{clamped, magnitude};

verus! {

/// A point or a displacement in the plane, each component in millionths.
#[derive(Clone, Copy, Debug, PartialEq, Eq, Structural)]
pub struct Vec2 {
    pub x: i64,
    pub y: i64,
}

impl Vec2 {
    /// The origin.
    pub fn zero() -> (r: Vec2)
        ensures
            r == (Vec2 { x: 0, y: 0 }),
    {
        Vec2 { x: 0, y: 0 }
    }

    /// The point `(x, y)`.
    pub fn new(x: i64, y: i64) -> (r: Vec2)
        ensures
            r == (Vec2 { x, y }),
    {
        Vec2 { x, y }
    }
}

/// Whether the box around `p1` with half-extent `e1` and the box around `p2`
/// with half-extent `e2` overlap: on each axis the centres are closer than
/// the sum of the half-extents.
pub open spec fn overlaps(p1: Vec2, e1: Vec2, p2: Vec2, e2: Vec2) -> bool {
    &&& magnitude(p1.x - p2.x) < e1.x + e2.x
    &&& magnitude(p1.y - p2.y) < e1.y + e2.y
}

/// The overlap test does not depend on which box is named first.
pub proof fn lemma_overlap_symmetric(p1: Vec2, e1: Vec2, p2: Vec2, e2: Vec2)
    ensures
        overlaps(p1, e1, p2, e2) == overlaps(p2, e2, p1, e1),
{
}

/// Tests two axis-aligned boxes, given by centre and half-extent, for overlap.
pub fn collide(p1: &Vec2, e1: &Vec2, p2: &Vec2, e2: &Vec2) -> (r: bool)
    ensures
        r == overlaps(*p1, *e1, *p2, *e2),
{
    let dx: i128 = if p1.x < p2.x {
        p2.x as i128 - p1.x as i128
    } else {
        p1.x as i128 - p2.x as i128
    };
    let dy: i128 = if p1.y < p2.y {
        p2.y as i128 - p1.y as i128
    } else {
        p1.y as i128 - p2.y as i128
    };
    dx < e1.x as i128 + e2.x as i128 && dy < e1.y as i128 + e2.y as i128
}

/// Raises `x` to `min`, then lowers it to `max`.
pub fn clamp(x: i64, min: i64, max: i64) -> (r: i64)
    ensures
        r == clamped(x as int, min as int, max as int),
{
    let raised: i64 = if x > min { x } else { min };
    if raised < max { raised } else { max }
}

} // verus!
