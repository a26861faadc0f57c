//! General properties of the rectangle operations, proved once and for
//! all rectangles in the stated coordinate ranges.
//!
//! The saturating arithmetic clamps derived coordinates at the `i32`
//! bounds, so the geometric laws hold exactly on rectangles whose derived
//! coordinates stay in range; each lemma states that condition through
//! [`rect_fits`] or [`envelope_fits`].

use vstd::prelude::*;

use crate::geometry::AnchorX;
use crate::geometry::AnchorY;
use crate::geometry::Point;
use crate::geometry::Size;
use crate::math::imax;
use crate::math::imin;
use crate::points::lemma_grid_points_len;
use crate::points::spec_rect_points;
use crate::rectangle::spec_overlaps;
use crate::rectangle::Rectangle;

verus! {

/// Whether every derived coordinate of the rectangle stays inside the
/// `i32` range, so the saturating arithmetic computes the exact
/// mathematical values.
pub open spec fn rect_fits(r: Rectangle) -> bool {
    &&& r.size.width <= i32::MAX
    &&& r.size.height <= i32::MAX
    &&& r.top_left.x + imax(r.size.width as int, 1) <= i32::MAX
    &&& r.top_left.y + imax(r.size.height as int, 1) <= i32::MAX
}

/// Whether the envelope of the two rectangles spans at most the `i32`
/// range on each axis, so its extent is computed exactly.
pub open spec fn envelope_fits(a: Rectangle, b: Rectangle) -> bool {
    &&& imax(a.spec_anchor_x(AnchorX::Right), b.spec_anchor_x(AnchorX::Right)) - imin(
        a.top_left.x as int,
        b.top_left.x as int,
    ) < i32::MAX
    &&& imax(a.spec_anchor_y(AnchorY::Bottom), b.spec_anchor_y(AnchorY::Bottom)) - imin(
        a.top_left.y as int,
        b.top_left.y as int,
    ) < i32::MAX
}

/// The three-way inclusive-interval test is equivalent to the intervals
/// having a common point.
pub proof fn lemma_overlaps_iff_common_point(a_start: int, a_end: int, b_start: int, b_end: int)
    requires
        a_start <= a_end,
        b_start <= b_end,
    ensures
        spec_overlaps(a_start, a_end, b_start, b_end) <==> imax(a_start, b_start) <= imin(
            a_end,
            b_end,
        ),
{
}

/// A non-zero-sized rectangle intersected with itself is itself.
pub proof fn lemma_intersection_self(r: Rectangle)
    requires
        rect_fits(r),
        !r.spec_is_zero_sized(),
    ensures
        r.spec_intersection(r) == r,
{
}

/// A zero-sized rectangle intersected with itself collapses to the zero
/// rectangle, the canonical empty intersection.
pub proof fn lemma_intersection_self_zero_sized(r: Rectangle)
    requires
        r.spec_is_zero_sized(),
    ensures
        r.spec_intersection(r) == Rectangle::spec_zero(),
{
}

/// A rectangle enveloped with itself gives itself, with zero extents
/// widened to one so the rectangle still occupies its position.
pub proof fn lemma_envelope_self(r: Rectangle)
    requires
        rect_fits(r),
    ensures
        r.spec_envelope(r) == (Rectangle {
            top_left: r.top_left,
            size: Size {
                width: imax(r.size.width as int, 1) as u32,
                height: imax(r.size.height as int, 1) as u32,
            },
        }),
        !r.spec_is_zero_sized() ==> r.spec_envelope(r) == r,
{
}

/// Intersection is commutative.
pub proof fn lemma_intersection_commutative(a: Rectangle, b: Rectangle)
    requires
        rect_fits(a),
        rect_fits(b),
    ensures
        a.spec_intersection(b) == b.spec_intersection(a),
{
    if !a.spec_is_zero_sized() && !b.spec_is_zero_sized() {
        lemma_overlaps_iff_common_point(
            a.top_left.x as int,
            a.last_x(),
            b.top_left.x as int,
            b.last_x(),
        );
        lemma_overlaps_iff_common_point(
            b.top_left.x as int,
            b.last_x(),
            a.top_left.x as int,
            a.last_x(),
        );
        lemma_overlaps_iff_common_point(
            a.top_left.y as int,
            a.last_y(),
            b.top_left.y as int,
            b.last_y(),
        );
        lemma_overlaps_iff_common_point(
            b.top_left.y as int,
            b.last_y(),
            a.top_left.y as int,
            a.last_y(),
        );
    }
}

/// Envelope is commutative, for all rectangles.
pub proof fn lemma_envelope_commutative(a: Rectangle, b: Rectangle)
    ensures
        a.spec_envelope(b) == b.spec_envelope(a),
{
}

/// The envelope contains every point of either input, and covers both
/// inputs' positions even when they are zero-sized.
pub proof fn lemma_envelope_contains(a: Rectangle, b: Rectangle, p: Point)
    requires
        rect_fits(a),
        rect_fits(b),
        envelope_fits(a, b),
    ensures
        a.spec_contains(p) ==> a.spec_envelope(b).spec_contains(p),
        b.spec_contains(p) ==> a.spec_envelope(b).spec_contains(p),
        a.spec_envelope(b).spec_contains(a.top_left),
        a.spec_envelope(b).spec_contains(b.top_left),
{
}

/// A point lies in the intersection exactly when it lies in both inputs.
pub proof fn lemma_intersection_contains(a: Rectangle, b: Rectangle, p: Point)
    requires
        rect_fits(a),
        rect_fits(b),
    ensures
        a.spec_intersection(b).spec_contains(p) <==> (a.spec_contains(p) && b.spec_contains(p)),
{
    if !a.spec_is_zero_sized() && !b.spec_is_zero_sized() {
        lemma_overlaps_iff_common_point(
            a.top_left.x as int,
            a.last_x(),
            b.top_left.x as int,
            b.last_x(),
        );
        lemma_overlaps_iff_common_point(
            a.top_left.y as int,
            a.last_y(),
            b.top_left.y as int,
            b.last_y(),
        );
    }
}

/// Rectangles that do not overlap on at least one axis intersect in the
/// zero rectangle.
pub proof fn lemma_intersection_disjoint(a: Rectangle, b: Rectangle)
    requires
        rect_fits(a),
        rect_fits(b),
        !a.spec_is_zero_sized(),
        !b.spec_is_zero_sized(),
        (a.last_x() < b.top_left.x || b.last_x() < a.top_left.x) || (a.last_y() < b.top_left.y
            || b.last_y() < a.top_left.y),
    ensures
        a.spec_intersection(b) == Rectangle::spec_zero(),
{
    lemma_overlaps_iff_common_point(
        a.top_left.x as int,
        a.last_x(),
        b.top_left.x as int,
        b.last_x(),
    );
    lemma_overlaps_iff_common_point(
        a.top_left.y as int,
        a.last_y(),
        b.top_left.y as int,
        b.last_y(),
    );
}

/// A rectangle yields exactly `width * height` points.
pub proof fn lemma_points_count(r: Rectangle)
    requires
        rect_fits(r),
    ensures
        spec_rect_points(r).len() == r.size.width * r.size.height,
{
    lemma_grid_points_len(
        r.top_left.x as int,
        r.spec_columns_end() - r.top_left.x,
        r.top_left.y as int,
        r.spec_rows_end() - r.top_left.y,
    );
}

/// The row range is empty exactly for a zero height, the column range
/// exactly for a zero width; so one of the two is empty exactly when the
/// rectangle is zero-sized.
pub proof fn lemma_rows_columns_empty(r: Rectangle)
    requires
        rect_fits(r),
    ensures
        (r.spec_rows_end() <= r.top_left.y) <==> r.size.height == 0,
        (r.spec_columns_end() <= r.top_left.x) <==> r.size.width == 0,
        ((r.spec_rows_end() <= r.top_left.y) || (r.spec_columns_end() <= r.top_left.x))
            <==> r.spec_is_zero_sized(),
{
}

} // verus!
