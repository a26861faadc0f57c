use rect2d::AnchorPoint;
use rect2d::AnchorX;
use rect2d::AnchorY;
use rect2d::Point;
use rect2d::PointsIter;
use rect2d::Rectangle;
use rect2d::Size;

#[test]
fn intersection_with_self_identity() {
    let rect = Rectangle::new(Point::new(-7, 3), Size::new(12, 9));
    assert_eq!(rect.intersection(&rect), rect);
}

#[test]
fn intersection_with_self_zero_sized() {
    // A zero-sized rectangle has no area, so even its self-intersection
    // is the canonical zero rectangle at the origin.
    let rect = Rectangle::new(Point::new(1, 2), Size::new(0, 5));
    assert_eq!(rect.intersection(&rect), Rectangle::zero());
}

#[test]
fn envelope_with_self_identity() {
    let rect = Rectangle::new(Point::new(-4, -9), Size::new(3, 14));
    assert_eq!(rect.envelope(&rect), rect);
}

#[test]
fn intersection_commutes() {
    let rect1 = Rectangle::new(Point::new(-5, -5), Size::new(10, 10));
    let rect2 = Rectangle::new(Point::new(0, 0), Size::new(10, 10));
    let expected = Rectangle::new(Point::new(0, 0), Size::new(5, 5));

    assert_eq!(rect1.intersection(&rect2), expected);
    assert_eq!(rect2.intersection(&rect1), expected);

    let zero_sized = Rectangle::new(Point::new(2, 2), Size::zero());
    assert_eq!(
        rect1.intersection(&zero_sized),
        zero_sized.intersection(&rect1)
    );
}

#[test]
fn envelope_commutes_and_contains_inputs() {
    let rect1 = Rectangle::new(Point::new(-10, 5), Size::new(4, 4));
    let rect2 = Rectangle::new(Point::new(3, -2), Size::new(6, 3));
    let envelope = rect1.envelope(&rect2);

    assert_eq!(envelope, rect2.envelope(&rect1));

    assert!(envelope.contains(rect1.top_left));
    assert!(envelope.contains(rect1.bottom_right().unwrap()));
    assert!(envelope.contains(rect2.top_left));
    assert!(envelope.contains(rect2.bottom_right().unwrap()));
}

#[test]
fn disjoint_axis_intersection_is_zero() {
    // Overlap on y only: the x intervals are disjoint.
    let rect1 = Rectangle::new(Point::new(0, 0), Size::new(5, 20));
    let rect2 = Rectangle::new(Point::new(10, 0), Size::new(5, 20));
    assert_eq!(rect1.intersection(&rect2), Rectangle::zero());

    // Overlap on x only: the y intervals are disjoint.
    let rect3 = Rectangle::new(Point::new(0, 0), Size::new(20, 5));
    let rect4 = Rectangle::new(Point::new(0, 10), Size::new(20, 5));
    assert_eq!(rect3.intersection(&rect4), Rectangle::zero());
}

#[test]
fn points_count_matches_area() {
    let rect = Rectangle::new(Point::new(-3, 4), Size::new(7, 5));
    assert_eq!(rect.points().count(), 35);

    let zero_width = Rectangle::new(Point::new(1, 1), Size::new(0, 9));
    assert_eq!(zero_width.points().count(), 0);

    let zero_height = Rectangle::new(Point::new(1, 1), Size::new(9, 0));
    assert_eq!(zero_height.points().count(), 0);
}

#[test]
fn points_row_major_order() {
    let rect = Rectangle::new(Point::new(10, 20), Size::new(3, 2));
    let mut it = rect.points();
    let mut got = Vec::new();
    while let Some(p) = it.next() {
        got.push(p);
    }
    assert_eq!(
        got,
        vec![
            Point::new(10, 20),
            Point::new(11, 20),
            Point::new(12, 20),
            Point::new(10, 21),
            Point::new(11, 21),
            Point::new(12, 21),
        ]
    );
    assert_eq!(it.next(), None);
}

#[test]
fn points_zero_sized_yields_nothing() {
    let mut it = Rectangle::new(Point::new(5, 5), Size::new(0, 3)).points();
    assert_eq!(it.next(), None);
    assert_eq!(it.next(), None);
}

#[test]
fn rows_and_columns_values() {
    let rect = Rectangle::new(Point::new(10, 20), Size::new(3, 4));
    assert_eq!(rect.rows(), 20..24);
    assert_eq!(rect.columns(), 10..13);
}

#[test]
fn rows_and_columns_empty_iff_zero_sized() {
    let filled = Rectangle::new(Point::new(-2, -2), Size::new(1, 1));
    assert!(!filled.is_zero_sized());
    assert!(!filled.rows().is_empty());
    assert!(!filled.columns().is_empty());

    let zero_width = Rectangle::new(Point::new(-2, -2), Size::new(0, 4));
    assert!(zero_width.is_zero_sized());
    assert!(zero_width.columns().is_empty());
    assert!(!zero_width.rows().is_empty());

    let zero_height = Rectangle::new(Point::new(-2, -2), Size::new(4, 0));
    assert!(zero_height.is_zero_sized());
    assert!(zero_height.rows().is_empty());
    assert!(!zero_height.columns().is_empty());
}

#[test]
fn contains_edges_and_outside() {
    let rect = Rectangle::new(Point::new(10, 20), Size::new(3, 4));

    assert!(rect.contains(Point::new(10, 20)));
    assert!(rect.contains(Point::new(12, 23)));
    assert!(!rect.contains(Point::new(9, 20)));
    assert!(!rect.contains(Point::new(13, 20)));
    assert!(!rect.contains(Point::new(10, 19)));
    assert!(!rect.contains(Point::new(10, 24)));

    let zero_sized = Rectangle::new(Point::new(10, 20), Size::zero());
    assert!(!zero_sized.contains(Point::new(10, 20)));
}

#[test]
fn with_corners_order_independent() {
    let expected = Rectangle::new(Point::new(-3, -4), Size::new(10, 12));

    assert_eq!(
        Rectangle::with_corners(Point::new(-3, -4), Point::new(6, 7)),
        expected
    );
    assert_eq!(
        Rectangle::with_corners(Point::new(6, 7), Point::new(-3, -4)),
        expected
    );
    assert_eq!(
        Rectangle::with_corners(Point::new(-3, 7), Point::new(6, -4)),
        expected
    );
}

#[test]
fn with_center_even_size_bias() {
    // For even extents the top-left corner rounds up toward the center.
    let rect = Rectangle::with_center(Point::new(10, 20), Size::new(4, 4));
    assert_eq!(rect, Rectangle::new(Point::new(9, 19), Size::new(4, 4)));

    let odd = Rectangle::with_center(Point::new(10, 20), Size::new(5, 5));
    assert_eq!(odd, Rectangle::new(Point::new(8, 18), Size::new(5, 5)));

    // A zero extent behaves as extent one: no offset at all.
    let zero = Rectangle::with_center(Point::new(10, 20), Size::zero());
    assert_eq!(zero.top_left, Point::new(10, 20));
}

#[test]
fn new_at_origin_places_top_left_at_zero() {
    let rect = Rectangle::new_at_origin(Size::new(7, 8));
    assert_eq!(rect, Rectangle::new(Point::zero(), Size::new(7, 8)));
}

#[test]
fn anchor_components_compose() {
    let all = [
        AnchorPoint::TopLeft,
        AnchorPoint::TopCenter,
        AnchorPoint::TopRight,
        AnchorPoint::CenterLeft,
        AnchorPoint::Center,
        AnchorPoint::CenterRight,
        AnchorPoint::BottomLeft,
        AnchorPoint::BottomCenter,
        AnchorPoint::BottomRight,
    ];
    for &anchor in &all {
        assert_eq!(AnchorPoint::new(anchor.x(), anchor.y()), anchor);
    }
    assert_eq!(AnchorPoint::new(AnchorX::Right, AnchorY::Center).x(), AnchorX::Right);
    assert_eq!(AnchorPoint::new(AnchorX::Right, AnchorY::Center).y(), AnchorY::Center);
}

#[test]
fn saturating_coordinate_arithmetic() {
    // The bottom-right corner clamps instead of wrapping past i32::MAX.
    let wide = Rectangle::new(Point::new(0, 0), Size::new(u32::MAX, 1));
    assert_eq!(
        wide.bottom_right(),
        Some(Point::new(i32::MAX - 1, 0))
    );

    let far = Rectangle::new(Point::new(i32::MAX, 0), Size::new(5, 1));
    assert_eq!(far.bottom_right(), Some(Point::new(i32::MAX - 1, 0)));

    // Extreme shrinking clamps the size at zero instead of wrapping.
    let rect = Rectangle::new(Point::new(10, 20), Size::new(3, 4));
    assert_eq!(rect.offset(i32::MIN).size, Size::zero());
}
