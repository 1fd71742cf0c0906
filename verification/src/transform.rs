//! Spatial state of an entity: top-left position, extent, facing and speed,
//! all in fixed-point world coordinates (1000 steps per world unit).

use vstd::prelude::*;
use crate::Direction;

verus! {

/// Largest coordinate magnitude, extent and speed a well-formed transform
/// may hold; generous enough for any playable map while keeping every
/// per-frame computation inside `i64`.
pub const COORD_LIMIT: i64 = 1_000_000_000;

/// Position, size, facing and velocity of a movable entity. `x`/`y` are the
/// top-left corner; `velocity_x`/`velocity_y` are nonnegative speeds in
/// coordinate steps per second, the sign of a move being dictated by the
/// facing.
#[derive(Debug, Clone, Copy, PartialEq, Eq, Structural)]
pub struct Transform {
    pub x: i64,
    pub y: i64,
    pub direction: Direction,
    pub width: i64,
    pub height: i64,
    pub velocity_x: i64,
    pub velocity_y: i64,
}

impl Transform {
    /// Well-formedness: strictly positive extent, and every field within
    /// `COORD_LIMIT`, so that sums and scaled displacements fit in `i64`.
    pub open spec fn wf(&self) -> bool {
        &&& 0 < self.width <= COORD_LIMIT
        &&& 0 < self.height <= COORD_LIMIT
        &&& -COORD_LIMIT <= self.x <= COORD_LIMIT
        &&& -COORD_LIMIT <= self.y <= COORD_LIMIT
        &&& 0 <= self.velocity_x <= COORD_LIMIT
        &&& 0 <= self.velocity_y <= COORD_LIMIT
    }
}

/// Read access to an axis-aligned rectangle: the four scalars and the two
/// derived far edges.
pub trait Rect {
    spec fn rect_x(&self) -> int;

    spec fn rect_y(&self) -> int;

    spec fn rect_w(&self) -> int;

    spec fn rect_h(&self) -> int;

    fn x(&self) -> (r: i64)
        ensures
            r == self.rect_x(),
    ;

    fn y(&self) -> (r: i64)
        ensures
            r == self.rect_y(),
    ;

    fn w(&self) -> (r: i64)
        ensures
            r == self.rect_w(),
    ;

    fn h(&self) -> (r: i64)
        ensures
            r == self.rect_h(),
    ;

    /// Right edge, `x + w`.
    fn xw(&self) -> (r: i64)
        requires
            i64::MIN <= self.rect_x() + self.rect_w() <= i64::MAX,
        ensures
            r == self.rect_x() + self.rect_w(),
    ;

    /// Bottom edge, `y + h`.
    fn yh(&self) -> (r: i64)
        requires
            i64::MIN <= self.rect_y() + self.rect_h() <= i64::MAX,
        ensures
            r == self.rect_y() + self.rect_h(),
    ;
}

impl Rect for Transform {
    open spec fn rect_x(&self) -> int {
        self.x as int
    }

    open spec fn rect_y(&self) -> int {
        self.y as int
    }

    open spec fn rect_w(&self) -> int {
        self.width as int
    }

    open spec fn rect_h(&self) -> int {
        self.height as int
    }

    fn x(&self) -> i64 {
        self.x
    }

    fn y(&self) -> i64 {
        self.y
    }

    fn w(&self) -> i64 {
        self.width
    }

    fn h(&self) -> i64 {
        self.height
    }

    fn xw(&self) -> i64 {
        self.x + self.width
    }

    fn yh(&self) -> i64 {
        self.y + self.height
    }
}

} // verus!
