//! Capability contracts through which the surrounding rendering system
//! consumes shapes: a bounding-box query and a pixel-position
//! enumeration.  [`Rectangle`] is the base case with identity behaviour.

use vstd::prelude::*;

use crate::geometry::Point;
use crate::points::spec_rect_points;
use crate::points::Points;
use crate::rectangle::Rectangle;

verus! {

/// A shape with a smallest enclosing rectangle.
pub trait Dimensions {
    /// The bounding rectangle as a mathematical value.
    spec fn spec_bounding_box(&self) -> Rectangle;

    /// Returns the smallest rectangle that encloses the shape.
    fn bounding_box(&self) -> (r: Rectangle)
        ensures
            r == self.spec_bounding_box(),
    ;
}

/// A shape that can enumerate every pixel position it covers.
pub trait PointsIter {
    /// The covered pixel positions, in the order they are produced.
    spec fn spec_points(&self) -> Seq<Point>;

    /// Returns the enumeration of the covered pixel positions.
    fn points(&self) -> (it: Points)
        ensures
            it.wf(),
            it.remaining() == self.spec_points(),
    ;
}

impl Dimensions for Rectangle {
    open spec fn spec_bounding_box(&self) -> Rectangle {
        *self
    }

    fn bounding_box(&self) -> (r: Rectangle) {
        *self
    }
}

impl PointsIter for Rectangle {
    open spec fn spec_points(&self) -> Seq<Point> {
        spec_rect_points(*self)
    }

    fn points(&self) -> (it: Points) {
        Points::new(self)
    }
}

} // verus!
