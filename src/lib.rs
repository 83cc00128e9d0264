//! An axis-aligned rectangle with integer dimensions, its area, and a
//! containment test between two rectangles.

pub mod rectangle;

pub use rectangle::Rectangle;
