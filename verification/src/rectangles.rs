//! The first rectangle exercise: a rectangle and a free function for
//! its area.

use vstd::prelude::*;

verus! {

/// A rectangle, measured in pixels.
#[derive(Debug)]
pub struct Rectangle {
    pub width: u32,
    pub height: u32,
}

/// The area of the rectangle, width times height.
pub fn area(rectangle: &Rectangle) -> (a: u32)
    requires
        rectangle.width * rectangle.height <= u32::MAX,
    ensures
        a == rectangle.width * rectangle.height,
{
    rectangle.width * rectangle.height
}

} // verus!
