//! Integer points, as windows and pointers report them.

use pathfinder_geometry::vector::Vector2I;
use vstd::prelude::*;

verus! {

/// A point or an extent in whole pixels.
#[derive(Clone, Copy, Debug, PartialEq, Eq, Structural)]
pub struct Point2DI {
    pub x: i32,
    pub y: i32,
}

/// Whether `value` can be held in an `i32`.
pub open spec fn fits_i32(value: int) -> bool {
    i32::MIN <= value <= i32::MAX
}

impl Point2DI {
    pub open spec fn origin() -> Point2DI {
        Point2DI { x: 0, y: 0 }
    }

    /// Whether both coordinates of `self - other` can be held.
    pub open spec fn can_subtract(self, other: Point2DI) -> bool {
        fits_i32(self.x - other.x) && fits_i32(self.y - other.y)
    }

    /// The offset that leads from `other` to `self`.
    pub open spec fn minus(self, other: Point2DI) -> Point2DI
        recommends
            self.can_subtract(other),
    {
        Point2DI { x: (self.x - other.x) as i32, y: (self.y - other.y) as i32 }
    }

    pub fn new(x: i32, y: i32) -> (point: Point2DI)
        ensures
            point == (Point2DI { x, y }),
    {
        Point2DI { x, y }
    }

    /// Whether `subtract` may be called with `other`.
    pub fn subtractable(self, other: Point2DI) -> (ok: bool)
        ensures
            ok == self.can_subtract(other),
    {
        self.x.checked_sub(other.x).is_some() && self.y.checked_sub(other.y).is_some()
    }

    /// Subtracts `other` coordinate by coordinate.
    ///
    /// Trusted: calls `Vector2I - Vector2I` of `pathfinder_geometry`, which
    /// subtracts lane by lane. The contract claims the exact differences, and
    /// leaves out the inputs on which a lane would not fit in an `i32`.
    #[verifier::external_body]
    pub(crate) fn subtract(self, other: Point2DI) -> (difference: Point2DI)
        requires
            self.can_subtract(other),
        ensures
            difference == self.minus(other),
    {
        let difference = Vector2I::new(self.x, self.y) - Vector2I::new(other.x, other.y);
        Point2DI { x: difference.x(), y: difference.y() }
    }
}

} // verus!
