//! The axis-aligned rectangle and its geometric operations.

use core::ops::Range;
use vstd::prelude::*;

use crate::geometry::spec_axis_span;
use crate::geometry::AnchorPoint;
use crate::geometry::AnchorX;
use crate::geometry::AnchorY;
use crate::geometry::Point;
use crate::geometry::Size;
use crate::math::extent_as_i32;
use crate::math::half_i32;
use crate::math::half_toward_zero;
use crate::math::i32_saturating_add;
use crate::math::i32_saturating_sub;
use crate::math::imax;
use crate::math::imin;
use crate::math::max_i32;
use crate::math::sat_i32;
use crate::math::sat_u32;
use crate::math::u32_to_i32_saturating;

verus! {

/// An axis-aligned rectangle: a top-left corner on the signed pixel grid
/// and an unsigned extent.
///
/// A rectangle with zero width or height has a position but no area: it
/// contains no point and has no bottom-right corner, yet intersection and
/// envelope still treat it as occupying its top-left position.
#[derive(Clone, Copy, PartialEq, Eq, Structural, PartialOrd, Ord, Hash, Debug, Default)]
pub struct Rectangle {
    /// Top left point of the rectangle.
    pub top_left: Point,
    /// Size of the rectangle.
    pub size: Size,
}

/// Exclusive end coordinate of an axis interval, as computed by the
/// saturating conversion and addition.
pub open spec fn axis_end(start: int, extent: int) -> int {
    sat_i32(start + extent_as_i32(extent))
}

/// Inclusive last coordinate of an axis interval; meaningful for a
/// positive extent.
pub open spec fn axis_last(start: int, extent: int) -> int {
    sat_i32(axis_end(start, extent) - 1)
}

/// Distance from the first to the last coordinate of an axis interval,
/// with a zero extent behaving as extent one.
pub open spec fn anchor_delta(extent: int) -> int {
    imax(extent_as_i32(extent), 1) - 1
}

/// Offset from the top-left corner to the center along one axis:
/// `floor((extent - 1) / 2)`, with a zero extent behaving as extent one.
pub open spec fn spec_center_offset_1d(extent: int) -> int {
    if extent == 0 {
        0
    } else {
        (extent - 1) / 2
    }
}

/// Signed change of the anchored edge when an axis extent is replaced,
/// with zero extents behaving as extent one.
pub open spec fn resize_delta(old_extent: int, new_extent: int) -> int {
    imax(extent_as_i32(old_extent), 1) - imax(extent_as_i32(new_extent), 1)
}

/// Whether two inclusive integer intervals overlap: the second contains
/// an endpoint of the first, or the first strictly contains the second.
pub open spec fn spec_overlaps(a_start: int, a_end: int, b_start: int, b_end: int) -> bool {
    ||| (b_start <= a_start && a_start <= b_end)
    ||| (b_start <= a_end && a_end <= b_end)
    ||| (a_start < b_start && a_end > b_end)
}

/// Offset between the top left corner and the center point of a rectangle
/// with the given size.
fn center_offset(size: Size) -> (r: Size)
    ensures
        r.width == spec_center_offset_1d(size.width as int),
        r.height == spec_center_offset_1d(size.height as int),
{
    let s = size.saturating_sub(Size::new_equal(1));
    Size { width: s.width / 2, height: s.height / 2 }
}

impl Rectangle {
    /// Whether the rectangle has zero width or zero height.
    pub open spec fn spec_is_zero_sized(self) -> bool {
        self.size.width == 0 || self.size.height == 0
    }

    /// Inclusive x coordinate of the right edge; meaningful for a
    /// positive width.
    pub open spec fn last_x(self) -> int {
        axis_last(self.top_left.x as int, self.size.width as int)
    }

    /// Inclusive y coordinate of the bottom edge; meaningful for a
    /// positive height.
    pub open spec fn last_y(self) -> int {
        axis_last(self.top_left.y as int, self.size.height as int)
    }

    /// Exclusive end of the range of x coordinates.
    pub open spec fn spec_columns_end(self) -> int {
        axis_end(self.top_left.x as int, self.size.width as int)
    }

    /// Exclusive end of the range of y coordinates.
    pub open spec fn spec_rows_end(self) -> int {
        axis_end(self.top_left.y as int, self.size.height as int)
    }

    /// The bottom-right corner, defined only for non-zero-sized
    /// rectangles.
    pub open spec fn spec_bottom_right(self) -> Option<Point> {
        if self.spec_is_zero_sized() {
            None
        } else {
            Some(Point { x: self.last_x() as i32, y: self.last_y() as i32 })
        }
    }

    /// Whether the point lies between the top-left and bottom-right
    /// corners on both axes; always false for zero-sized rectangles.
    pub open spec fn spec_contains(self, point: Point) -> bool {
        &&& point.x >= self.top_left.x
        &&& point.y >= self.top_left.y
        &&& !self.spec_is_zero_sized()
        &&& point.x <= self.last_x()
        &&& point.y <= self.last_y()
    }

    /// The zero rectangle: origin position, zero size.
    pub open spec fn spec_zero() -> Rectangle {
        Rectangle { top_left: Point { x: 0, y: 0 }, size: Size { width: 0, height: 0 } }
    }

    /// The rectangle with the two given points as inclusive corners, in
    /// either order.
    pub open spec fn spec_with_corners(corner_1: Point, corner_2: Point) -> Rectangle {
        Rectangle {
            top_left: Point {
                x: imin(corner_1.x as int, corner_2.x as int) as i32,
                y: imin(corner_1.y as int, corner_2.y as int) as i32,
            },
            size: Size {
                width: spec_axis_span(corner_1.x as int, corner_2.x as int) as u32,
                height: spec_axis_span(corner_1.y as int, corner_2.y as int) as u32,
            },
        }
    }

    /// The rectangle of the given size whose center offset lands on
    /// `center`; for even extents the top-left corner is biased one unit
    /// toward the top-left.
    pub open spec fn spec_with_center(center: Point, size: Size) -> Rectangle {
        Rectangle {
            top_left: Point {
                x: sat_i32(center.x - spec_center_offset_1d(size.width as int)) as i32,
                y: sat_i32(center.y - spec_center_offset_1d(size.height as int)) as i32,
            },
            size,
        }
    }

    /// The center point, rounded down (toward the top-left) for even
    /// extents.
    pub open spec fn spec_center(self) -> Point {
        Point {
            x: sat_i32(self.top_left.x + spec_center_offset_1d(self.size.width as int)) as i32,
            y: sat_i32(self.top_left.y + spec_center_offset_1d(self.size.height as int)) as i32,
        }
    }

    /// Coordinate of the requested vertical edge or center line, with a
    /// zero width behaving as width one.
    pub open spec fn spec_anchor_x(self, anchor_x: AnchorX) -> int {
        sat_i32(
            self.top_left.x + match anchor_x {
                AnchorX::Left => 0,
                AnchorX::Center => anchor_delta(self.size.width as int) / 2,
                AnchorX::Right => anchor_delta(self.size.width as int),
            },
        )
    }

    /// Coordinate of the requested horizontal edge or center line, with a
    /// zero height behaving as height one.
    pub open spec fn spec_anchor_y(self, anchor_y: AnchorY) -> int {
        sat_i32(
            self.top_left.y + match anchor_y {
                AnchorY::Top => 0,
                AnchorY::Center => anchor_delta(self.size.height as int) / 2,
                AnchorY::Bottom => anchor_delta(self.size.height as int),
            },
        )
    }

    /// The point at the given anchor of the rectangle.
    pub open spec fn spec_anchor_point(self, anchor_point: AnchorPoint) -> Point {
        Point {
            x: self.spec_anchor_x(anchor_point.spec_x()) as i32,
            y: self.spec_anchor_y(anchor_point.spec_y()) as i32,
        }
    }

    /// The intersection of two rectangles: the overlapping area if both
    /// are non-zero-sized and overlap on both axes; a zero-sized input
    /// contained in the other is kept as the degenerate intersection; in
    /// every other case the zero rectangle.
    pub open spec fn spec_intersection(self, other: Rectangle) -> Rectangle {
        if !self.spec_is_zero_sized() && !other.spec_is_zero_sized() {
            if spec_overlaps(
                self.top_left.x as int,
                self.last_x(),
                other.top_left.x as int,
                other.last_x(),
            ) && spec_overlaps(
                self.top_left.y as int,
                self.last_y(),
                other.top_left.y as int,
                other.last_y(),
            ) {
                Rectangle::spec_with_corners(
                    Point {
                        x: imax(self.top_left.x as int, other.top_left.x as int) as i32,
                        y: imax(self.top_left.y as int, other.top_left.y as int) as i32,
                    },
                    Point {
                        x: imin(self.last_x(), other.last_x()) as i32,
                        y: imin(self.last_y(), other.last_y()) as i32,
                    },
                )
            } else {
                Rectangle::spec_zero()
            }
        } else if self.spec_is_zero_sized() && !other.spec_is_zero_sized() {
            if other.spec_contains(self.top_left) {
                self
            } else {
                Rectangle::spec_zero()
            }
        } else if !self.spec_is_zero_sized() && other.spec_is_zero_sized() {
            if self.spec_contains(other.top_left) {
                other
            } else {
                Rectangle::spec_zero()
            }
        } else {
            Rectangle::spec_zero()
        }
    }

    /// The minimal rectangle covering both inputs, with zero extents
    /// treated as extent one so that each input still occupies its
    /// position.
    pub open spec fn spec_envelope(self, other: Rectangle) -> Rectangle {
        Rectangle::spec_with_corners(
            Point {
                x: imin(self.top_left.x as int, other.top_left.x as int) as i32,
                y: imin(self.top_left.y as int, other.top_left.y as int) as i32,
            },
            Point {
                x: imax(
                    self.spec_anchor_x(AnchorX::Right),
                    other.spec_anchor_x(AnchorX::Right),
                ) as i32,
                y: imax(
                    self.spec_anchor_y(AnchorY::Bottom),
                    other.spec_anchor_y(AnchorY::Bottom),
                ) as i32,
            },
        )
    }

    /// The rectangle with its width replaced, shifted so that the anchored
    /// vertical edge or center line keeps its coordinate.
    pub open spec fn spec_resized_width(self, width: int, anchor_x: AnchorX) -> Rectangle {
        Rectangle {
            top_left: Point {
                x: sat_i32(
                    self.top_left.x + match anchor_x {
                        AnchorX::Left => 0,
                        AnchorX::Center => half_toward_zero(
                            resize_delta(self.size.width as int, width),
                        ),
                        AnchorX::Right => resize_delta(self.size.width as int, width),
                    },
                ) as i32,
                y: self.top_left.y,
            },
            size: Size { width: width as u32, height: self.size.height },
        }
    }

    /// The rectangle with its height replaced, shifted so that the
    /// anchored horizontal edge or center line keeps its coordinate.
    pub open spec fn spec_resized_height(self, height: int, anchor_y: AnchorY) -> Rectangle {
        Rectangle {
            top_left: Point {
                x: self.top_left.x,
                y: sat_i32(
                    self.top_left.y + match anchor_y {
                        AnchorY::Top => 0,
                        AnchorY::Center => half_toward_zero(
                            resize_delta(self.size.height as int, height),
                        ),
                        AnchorY::Bottom => resize_delta(self.size.height as int, height),
                    },
                ) as i32,
            },
            size: Size { width: self.size.width, height: height as u32 },
        }
    }

    /// The rectangle resized on both axes relative to the given anchor
    /// point.
    pub open spec fn spec_resized(self, size: Size, anchor_point: AnchorPoint) -> Rectangle {
        self.spec_resized_width(size.width as int, anchor_point.spec_x()).spec_resized_height(
            size.height as int,
            anchor_point.spec_y(),
        )
    }

    /// The rectangle grown (positive) or shrunk (negative) by the given
    /// number of pixels per side around its center; extents clamp at zero
    /// and at the `u32` maximum.
    pub open spec fn spec_offset(self, amount: int) -> Rectangle {
        Rectangle::spec_with_center(
            self.spec_center(),
            Size {
                width: sat_u32(self.size.width + 2 * amount) as u32,
                height: sat_u32(self.size.height + 2 * amount) as u32,
            },
        )
    }

    /// Creates a new rectangle from the top left point and the size.
    pub fn new(top_left: Point, size: Size) -> (r: Rectangle)
        ensures
            r == (Rectangle { top_left, size }),
    {
        Rectangle { top_left, size }
    }

    /// Creates a new rectangle with the given size and the top left corner
    /// at the origin.
    pub fn new_at_origin(size: Size) -> (r: Rectangle)
        ensures
            r == (Rectangle { top_left: Point { x: 0i32, y: 0i32 }, size }),
    {
        Rectangle { top_left: Point::zero(), size }
    }

    /// Creates a new rectangle from two inclusive corners, in either
    /// order.
    pub fn with_corners(corner_1: Point, corner_2: Point) -> (r: Rectangle)
        ensures
            r == Rectangle::spec_with_corners(corner_1, corner_2),
    {
        let top_left = corner_1.component_min(corner_2);
        Rectangle { top_left, size: Size::from_bounding_box(corner_1, corner_2) }
    }

    /// Creates a new rectangle from the center point and the size.
    ///
    /// For even extents the center does not lie on the pixel grid, and the
    /// top-left corner is rounded up toward the center.
    pub fn with_center(center: Point, size: Size) -> (r: Rectangle)
        ensures
            r == Rectangle::spec_with_center(center, size),
    {
        Rectangle { top_left: center.sub_size(center_offset(size)), size }
    }

    /// Returns a zero sized rectangle at the origin.
    pub fn zero() -> (r: Rectangle)
        ensures
            r == Rectangle::spec_zero(),
    {
        Rectangle { top_left: Point::zero(), size: Size::zero() }
    }

    /// Returns the center of this rectangle, rounded down for even
    /// extents.
    pub fn center(&self) -> (r: Point)
        ensures
            r == self.spec_center(),
    {
        self.top_left.add_size(center_offset(self.size))
    }

    /// Returns the bottom right corner, or `None` for a zero-sized
    /// rectangle, which has no inclusive corner.
    pub fn bottom_right(&self) -> (r: Option<Point>)
        ensures
            r == self.spec_bottom_right(),
    {
        if self.size.width > 0 && self.size.height > 0 {
            let p = self.top_left.add_size(self.size);
            Some(Point { x: i32_saturating_sub(p.x, 1), y: i32_saturating_sub(p.y, 1) })
        } else {
            None
        }
    }

    /// Returns whether the rectangle contains the given point.
    pub fn contains(&self, point: Point) -> (r: bool)
        ensures
            r == self.spec_contains(point),
    {
        if point.x >= self.top_left.x && point.y >= self.top_left.y {
            match self.bottom_right() {
                Some(bottom_right) => point.x <= bottom_right.x && point.y <= bottom_right.y,
                None => false,
            }
        } else {
            false
        }
    }

    /// Returns the intersection of `self` and `other`, or a zero sized
    /// rectangle if they do not overlap.
    pub fn intersection(&self, other: &Rectangle) -> (r: Rectangle)
        ensures
            r == self.spec_intersection(*other),
    {
        match (other.bottom_right(), self.bottom_right()) {
            (Some(other_bottom_right), Some(self_bottom_right)) => {
                if overlaps(
                    self.top_left.x,
                    self_bottom_right.x,
                    other.top_left.x,
                    other_bottom_right.x,
                ) && overlaps(
                    self.top_left.y,
                    self_bottom_right.y,
                    other.top_left.y,
                    other_bottom_right.y,
                ) {
                    return Rectangle::with_corners(
                        self.top_left.component_max(other.top_left),
                        self_bottom_right.component_min(other_bottom_right),
                    );
                }
            },
            (Some(_), None) => {
                // A zero sized self intersects where its position lies inside other.
                if other.contains(self.top_left) {
                    return *self;
                }
            },
            (None, Some(_)) => {
                // A zero sized other intersects where its position lies inside self.
                if self.contains(other.top_left) {
                    return *other;
                }
            },
            (None, None) => {},
        }
        Rectangle::zero()
    }

    /// Returns the minimum sized rectangle that envelopes both `self` and
    /// `other`, treating zero extents as one so that a zero-sized input
    /// is still represented at its position.
    pub fn envelope(&self, other: &Rectangle) -> (r: Rectangle)
        ensures
            r == self.spec_envelope(*other),
    {
        let top_left = self.top_left.component_min(other.top_left);
        let bottom_right = self.anchor_point(AnchorPoint::BottomRight).component_max(
            other.anchor_point(AnchorPoint::BottomRight),
        );
        Rectangle::with_corners(top_left, bottom_right)
    }

    /// Returns a copy resized on both axes relative to the given anchor
    /// point.
    pub fn resized(&self, size: Size, anchor_point: AnchorPoint) -> (r: Rectangle)
        ensures
            r == self.spec_resized(size, anchor_point),
    {
        let mut result = *self;
        result.resize_width_mut(size.width, anchor_point.x());
        result.resize_height_mut(size.height, anchor_point.y());
        result
    }

    /// Returns a copy with the given width, resized relative to the given
    /// anchor edge.
    pub fn resized_width(&self, width: u32, anchor_x: AnchorX) -> (r: Rectangle)
        ensures
            r == self.spec_resized_width(width as int, anchor_x),
    {
        let mut result = *self;
        result.resize_width_mut(width, anchor_x);
        result
    }

    /// Returns a copy with the given height, resized relative to the given
    /// anchor edge.
    pub fn resized_height(&self, height: u32, anchor_y: AnchorY) -> (r: Rectangle)
        ensures
            r == self.spec_resized_height(height as int, anchor_y),
    {
        let mut result = *self;
        result.resize_height_mut(height, anchor_y);
        result
    }

    fn resize_width_mut(&mut self, width: u32, anchor_x: AnchorX)
        ensures
            *final(self) == old(self).spec_resized_width(width as int, anchor_x),
    {
        // A zero extent behaves as extent one on both sides of the change.
        let delta = max_i32(u32_to_i32_saturating(self.size.width), 1) - max_i32(
            u32_to_i32_saturating(width),
            1,
        );
        let shift = match anchor_x {
            AnchorX::Left => 0i32,
            AnchorX::Center => half_i32(delta),
            AnchorX::Right => delta,
        };
        self.top_left.x = i32_saturating_add(self.top_left.x, shift);
        self.size.width = width;
    }

    fn resize_height_mut(&mut self, height: u32, anchor_y: AnchorY)
        ensures
            *final(self) == old(self).spec_resized_height(height as int, anchor_y),
    {
        // A zero extent behaves as extent one on both sides of the change.
        let delta = max_i32(u32_to_i32_saturating(self.size.height), 1) - max_i32(
            u32_to_i32_saturating(height),
            1,
        );
        let shift = match anchor_y {
            AnchorY::Top => 0i32,
            AnchorY::Center => half_i32(delta),
            AnchorY::Bottom => delta,
        };
        self.top_left.y = i32_saturating_add(self.top_left.y, shift);
        self.size.height = height;
    }

    /// Offsets the rectangle symmetrically around its center by the given
    /// number of pixels per side; negative values shrink it, clamping the
    /// size at zero.
    pub fn offset(&self, offset: i32) -> (r: Rectangle)
        ensures
            r == self.spec_offset(offset as int),
    {
        let size = Size {
            width: offset_extent(self.size.width, offset),
            height: offset_extent(self.size.height, offset),
        };
        Rectangle::with_center(self.center(), size)
    }

    /// Returns the point at the given anchor of the rectangle.
    pub fn anchor_point(&self, anchor_point: AnchorPoint) -> (r: Point)
        ensures
            r == self.spec_anchor_point(anchor_point),
    {
        Point { x: self.anchor_x(anchor_point.x()), y: self.anchor_y(anchor_point.y()) }
    }

    /// Returns the x coordinate of the given anchor edge or center line.
    pub fn anchor_x(&self, anchor_x: AnchorX) -> (r: i32)
        ensures
            r == self.spec_anchor_x(anchor_x),
    {
        // A zero extent behaves as extent one.
        let delta = max_i32(u32_to_i32_saturating(self.size.width), 1) - 1;
        let shift = match anchor_x {
            AnchorX::Left => 0i32,
            AnchorX::Center => half_i32(delta),
            AnchorX::Right => delta,
        };
        i32_saturating_add(self.top_left.x, shift)
    }

    /// Returns the y coordinate of the given anchor edge or center line.
    pub fn anchor_y(&self, anchor_y: AnchorY) -> (r: i32)
        ensures
            r == self.spec_anchor_y(anchor_y),
    {
        // A zero extent behaves as extent one.
        let delta = max_i32(u32_to_i32_saturating(self.size.height), 1) - 1;
        let shift = match anchor_y {
            AnchorY::Top => 0i32,
            AnchorY::Center => half_i32(delta),
            AnchorY::Bottom => delta,
        };
        i32_saturating_add(self.top_left.y, shift)
    }

    /// Returns the half-open range of y coordinates covered by the
    /// rectangle; empty for a zero height.
    pub fn rows(&self) -> (r: Range<i32>)
        ensures
            r.start == self.top_left.y,
            r.end == self.spec_rows_end(),
    {
        self.top_left.y..i32_saturating_add(
            self.top_left.y,
            u32_to_i32_saturating(self.size.height),
        )
    }

    /// Returns the half-open range of x coordinates covered by the
    /// rectangle; empty for a zero width.
    pub fn columns(&self) -> (r: Range<i32>)
        ensures
            r.start == self.top_left.x,
            r.end == self.spec_columns_end(),
    {
        self.top_left.x..i32_saturating_add(
            self.top_left.x,
            u32_to_i32_saturating(self.size.width),
        )
    }

    /// Returns whether the rectangle is zero sized, that is, has zero
    /// width or zero height.
    pub fn is_zero_sized(&self) -> (r: bool)
        ensures
            r == self.spec_is_zero_sized(),
    {
        self.size.height == 0 || self.size.width == 0
    }
}

/// Checks whether the two inclusive ranges overlap.
fn overlaps(first_start: i32, first_end: i32, second_start: i32, second_end: i32) -> (r: bool)
    ensures
        r == spec_overlaps(
            first_start as int,
            first_end as int,
            second_start as int,
            second_end as int,
        ),
{
    (second_start <= first_start && first_start <= second_end) || (second_start <= first_end
        && first_end <= second_end) || (first_start < second_start && first_end > second_end)
}

/// One axis extent after offsetting by the given amount on each side,
/// clamped to the `u32` range.
fn offset_extent(extent: u32, amount: i32) -> (r: u32)
    ensures
        r == sat_u32(extent + 2 * amount),
{
    let v: i64 = extent as i64 + 2 * (amount as i64);
    if v < 0 {
        0
    } else if v > u32::MAX as i64 {
        u32::MAX
    } else {
        v as u32
    }
}

} // verus!
