//! The sole geometric predicate of the game: open-interval AABB overlap.
//! Touching edges do not count as a collision.

use vstd::prelude::*;
use crate::GameObject;
use crate::transform::Transform;

verus! {

/// Two axis-aligned rectangles overlap when each one's near edge lies
/// strictly before the other's far edge on both axes. Open intervals:
/// rectangles that merely share an edge do not overlap.
pub open spec fn rects_overlap(a: Transform, b: Transform) -> bool {
    &&& a.x < b.x + b.width
    &&& a.x + a.width > b.x
    &&& a.y < b.y + b.height
    &&& a.y + a.height > b.y
}

/// Overlap test over any pair of transforms; widening to `i128` keeps the
/// edge sums exact whatever the fields hold.
pub fn overlaps(a: &Transform, b: &Transform) -> (r: bool)
    ensures
        r == rects_overlap(*a, *b),
{
    (a.x as i128) < (b.x as i128) + (b.width as i128)
        && (a.x as i128) + (a.width as i128) > (b.x as i128)
        && (a.y as i128) < (b.y as i128) + (b.height as i128)
        && (a.y as i128) + (a.height as i128) > (b.y as i128)
}

/// The overlap test is symmetric in its two rectangles.
pub proof fn lemma_overlap_symmetric(a: Transform, b: Transform)
    ensures
        rects_overlap(a, b) == rects_overlap(b, a),
{
}

/// A rectangle overlaps itself exactly when it has positive extent on both
/// axes.
pub proof fn lemma_overlap_self(a: Transform)
    ensures
        rects_overlap(a, a) == (a.width > 0 && a.height > 0),
{
}

/// Anything that exposes a transform can be tested for intersection against
/// a bare rectangle or against another game object. Stateless capability:
/// the test reads the transforms and nothing else.
pub trait Collider {
    /// The transform this collider exposes, as contracts see it.
    spec fn transform_spec(&self) -> Transform;

    fn get_transform(&self) -> (t: &Transform)
        ensures
            *t == self.transform_spec(),
    ;

    fn intersects(&self, other: &Transform) -> (r: bool)
        ensures
            r == rects_overlap(self.transform_spec(), *other),
    ;

    fn collide<T: GameObject>(&self, game_obj: &T) -> (r: bool)
        ensures
            r == rects_overlap(self.transform_spec(), game_obj.transform_spec()),
    ;
}

} // verus!
