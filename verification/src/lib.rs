//! Axis-aligned rectangle primitive for integer-grid raster graphics.
//!
//! The crate provides the [`Rectangle`] value type together with its
//! construction, containment, intersection, envelope, anchoring, resizing
//! and offsetting operations, and the row-major [`Points`] enumeration of
//! the pixel positions a rectangle covers.  All coordinate arithmetic
//! saturates at the representable bounds instead of wrapping or panicking.

pub mod capability;
pub mod geometry;
pub mod laws;
pub mod math;
pub mod points;
pub mod rectangle;

pub use capability::Dimensions;
pub use capability::PointsIter;
pub use geometry::AnchorPoint;
pub use geometry::AnchorX;
pub use geometry::AnchorY;
pub use geometry::Point;
pub use geometry::Size;
pub use points::Points;
pub use rectangle::Rectangle;
