//! Basic geometric value types: signed coordinates, unsigned extents and
//! anchor selectors.

use vstd::prelude::*;

use crate::math::extent_as_i32;
use crate::math::i32_saturating_add;
use crate::math::i32_saturating_sub;
use crate::math::imax;
use crate::math::imin;
use crate::math::max_i32;
use crate::math::min_i32;
use crate::math::sat_i32;
use crate::math::sat_u32;
use crate::math::u32_to_i32_saturating;

verus! {

/// A 2D point on the signed integer pixel grid.
#[derive(Clone, Copy, PartialEq, Eq, Structural, PartialOrd, Ord, Hash, Debug, Default)]
pub struct Point {
    pub x: i32,
    pub y: i32,
}

/// A 2D extent with unsigned width and height.
#[derive(Clone, Copy, PartialEq, Eq, Structural, PartialOrd, Ord, Hash, Debug, Default)]
pub struct Size {
    pub width: u32,
    pub height: u32,
}

/// Inclusive span between two coordinates on one axis, clamped to `u32`.
///
/// Both coordinates count as part of the span, so equal coordinates give
/// a span of one.
pub open spec fn spec_axis_span(a: int, b: int) -> int {
    if a <= b {
        sat_u32(b - a + 1)
    } else {
        sat_u32(a - b + 1)
    }
}

impl Point {
    pub fn new(x: i32, y: i32) -> (r: Point)
        ensures
            r == (Point { x, y }),
    {
        Point { x, y }
    }

    pub fn zero() -> (r: Point)
        ensures
            r == (Point { x: 0i32, y: 0i32 }),
    {
        Point { x: 0, y: 0 }
    }

    /// A point with the same value for both coordinates.
    pub fn new_equal(v: i32) -> (r: Point)
        ensures
            r == (Point { x: v, y: v }),
    {
        Point { x: v, y: v }
    }

    /// The componentwise minimum of two points.
    pub fn component_min(self, other: Point) -> (r: Point)
        ensures
            r.x == imin(self.x as int, other.x as int),
            r.y == imin(self.y as int, other.y as int),
    {
        Point { x: min_i32(self.x, other.x), y: min_i32(self.y, other.y) }
    }

    /// The componentwise maximum of two points.
    pub fn component_max(self, other: Point) -> (r: Point)
        ensures
            r.x == imax(self.x as int, other.x as int),
            r.y == imax(self.y as int, other.y as int),
    {
        Point { x: max_i32(self.x, other.x), y: max_i32(self.y, other.y) }
    }

    /// Moves the point up and to the left by a size, saturating.
    pub fn sub_size(self, size: Size) -> (r: Point)
        ensures
            r.x == sat_i32(self.x - extent_as_i32(size.width as int)),
            r.y == sat_i32(self.y - extent_as_i32(size.height as int)),
    {
        Point {
            x: i32_saturating_sub(self.x, u32_to_i32_saturating(size.width)),
            y: i32_saturating_sub(self.y, u32_to_i32_saturating(size.height)),
        }
    }

    /// Moves the point down and to the right by a size, saturating.
    pub fn add_size(self, size: Size) -> (r: Point)
        ensures
            r.x == sat_i32(self.x + extent_as_i32(size.width as int)),
            r.y == sat_i32(self.y + extent_as_i32(size.height as int)),
    {
        Point {
            x: i32_saturating_add(self.x, u32_to_i32_saturating(size.width)),
            y: i32_saturating_add(self.y, u32_to_i32_saturating(size.height)),
        }
    }
}

impl Size {
    pub fn new(width: u32, height: u32) -> (r: Size)
        ensures
            r == (Size { width, height }),
    {
        Size { width, height }
    }

    pub fn zero() -> (r: Size)
        ensures
            r == (Size { width: 0u32, height: 0u32 }),
    {
        Size { width: 0, height: 0 }
    }

    /// A size with the same value for width and height.
    pub fn new_equal(v: u32) -> (r: Size)
        ensures
            r == (Size { width: v, height: v }),
    {
        Size { width: v, height: v }
    }

    /// Componentwise saturating addition.
    pub fn saturating_add(self, other: Size) -> (r: Size)
        ensures
            r.width == sat_u32(self.width + other.width),
            r.height == sat_u32(self.height + other.height),
    {
        Size {
            width: self.width.saturating_add(other.width),
            height: self.height.saturating_add(other.height),
        }
    }

    /// Componentwise saturating subtraction; clamps at zero.
    pub fn saturating_sub(self, other: Size) -> (r: Size)
        ensures
            r.width == sat_u32(self.width - other.width),
            r.height == sat_u32(self.height - other.height),
    {
        Size {
            width: self.width.saturating_sub(other.width),
            height: self.height.saturating_sub(other.height),
        }
    }

    /// The size of the axis-aligned rectangle with the two given points as
    /// inclusive corners, in either order.
    pub fn from_bounding_box(corner_1: Point, corner_2: Point) -> (r: Size)
        ensures
            r.width == spec_axis_span(corner_1.x as int, corner_2.x as int),
            r.height == spec_axis_span(corner_1.y as int, corner_2.y as int),
    {
        Size {
            width: axis_span(corner_1.x, corner_2.x),
            height: axis_span(corner_1.y, corner_2.y),
        }
    }
}

/// Inclusive span between two coordinates, clamped to `u32`.
fn axis_span(a: i32, b: i32) -> (r: u32)
    ensures
        r == spec_axis_span(a as int, b as int),
{
    let lo: i64 = if a <= b {
        a as i64
    } else {
        b as i64
    };
    let hi: i64 = if a <= b {
        b as i64
    } else {
        a as i64
    };
    let span: i64 = hi - lo + 1;
    if span > u32::MAX as i64 {
        u32::MAX
    } else {
        span as u32
    }
}

/// Horizontal anchor: a reference vertical edge or center line.
#[derive(Clone, Copy, PartialEq, Eq, Structural, Hash, Debug)]
pub enum AnchorX {
    Left,
    Center,
    Right,
}

/// Vertical anchor: a reference horizontal edge or center line.
#[derive(Clone, Copy, PartialEq, Eq, Structural, Hash, Debug)]
pub enum AnchorY {
    Top,
    Center,
    Bottom,
}

/// One of the nine combinations of a horizontal and a vertical anchor.
#[derive(Clone, Copy, PartialEq, Eq, Structural, Hash, Debug)]
pub enum AnchorPoint {
    TopLeft,
    TopCenter,
    TopRight,
    CenterLeft,
    Center,
    CenterRight,
    BottomLeft,
    BottomCenter,
    BottomRight,
}

impl AnchorPoint {
    /// The horizontal component of the anchor point.
    pub open spec fn spec_x(self) -> AnchorX {
        match self {
            AnchorPoint::TopLeft | AnchorPoint::CenterLeft | AnchorPoint::BottomLeft => {
                AnchorX::Left
            },
            AnchorPoint::TopCenter | AnchorPoint::Center | AnchorPoint::BottomCenter => {
                AnchorX::Center
            },
            AnchorPoint::TopRight | AnchorPoint::CenterRight | AnchorPoint::BottomRight => {
                AnchorX::Right
            },
        }
    }

    /// The vertical component of the anchor point.
    pub open spec fn spec_y(self) -> AnchorY {
        match self {
            AnchorPoint::TopLeft | AnchorPoint::TopCenter | AnchorPoint::TopRight => AnchorY::Top,
            AnchorPoint::CenterLeft | AnchorPoint::Center | AnchorPoint::CenterRight => {
                AnchorY::Center
            },
            AnchorPoint::BottomLeft | AnchorPoint::BottomCenter | AnchorPoint::BottomRight => {
                AnchorY::Bottom
            },
        }
    }

    /// The anchor point made of the given horizontal and vertical anchors.
    ///
    /// Composition and decomposition are mutually inverse: the result's
    /// components are exactly the two arguments.
    pub fn new(x: AnchorX, y: AnchorY) -> (r: AnchorPoint)
        ensures
            r.spec_x() == x,
            r.spec_y() == y,
    {
        match (y, x) {
            (AnchorY::Top, AnchorX::Left) => AnchorPoint::TopLeft,
            (AnchorY::Top, AnchorX::Center) => AnchorPoint::TopCenter,
            (AnchorY::Top, AnchorX::Right) => AnchorPoint::TopRight,
            (AnchorY::Center, AnchorX::Left) => AnchorPoint::CenterLeft,
            (AnchorY::Center, AnchorX::Center) => AnchorPoint::Center,
            (AnchorY::Center, AnchorX::Right) => AnchorPoint::CenterRight,
            (AnchorY::Bottom, AnchorX::Left) => AnchorPoint::BottomLeft,
            (AnchorY::Bottom, AnchorX::Center) => AnchorPoint::BottomCenter,
            (AnchorY::Bottom, AnchorX::Right) => AnchorPoint::BottomRight,
        }
    }

    /// The horizontal component of the anchor point.
    pub fn x(self) -> (r: AnchorX)
        ensures
            r == self.spec_x(),
    {
        match self {
            AnchorPoint::TopLeft | AnchorPoint::CenterLeft | AnchorPoint::BottomLeft => {
                AnchorX::Left
            },
            AnchorPoint::TopCenter | AnchorPoint::Center | AnchorPoint::BottomCenter => {
                AnchorX::Center
            },
            AnchorPoint::TopRight | AnchorPoint::CenterRight | AnchorPoint::BottomRight => {
                AnchorX::Right
            },
        }
    }

    /// The vertical component of the anchor point.
    pub fn y(self) -> (r: AnchorY)
        ensures
            r == self.spec_y(),
    {
        match self {
            AnchorPoint::TopLeft | AnchorPoint::TopCenter | AnchorPoint::TopRight => AnchorY::Top,
            AnchorPoint::CenterLeft | AnchorPoint::Center | AnchorPoint::CenterRight => {
                AnchorY::Center
            },
            AnchorPoint::BottomLeft | AnchorPoint::BottomCenter | AnchorPoint::BottomRight => {
                AnchorY::Bottom
            },
        }
    }
}

} // verus!
