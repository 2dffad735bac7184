//! Plain geometry for the widget model: points, rectangles and the length
//! strategies a widget can ask for along one axis.

use vstd::prelude::*;

verus! {

/// A position, in integral units relative to the enclosing region.
#[derive(Clone, Copy, Debug, PartialEq, Eq, Structural)]
pub struct Point {
    pub x: u32,
    pub y: u32,
}

/// An axis-aligned region, positioned relative to its parent region.
#[derive(Clone, Copy, Debug, PartialEq, Eq, Structural)]
pub struct Rectangle {
    pub x: u32,
    pub y: u32,
    pub width: u32,
    pub height: u32,
}

impl Rectangle {
    /// Whether a point lies inside the rectangle.
    pub open spec fn spec_contains(self, p: Point) -> bool {
        &&& self.x <= p.x < self.x + self.width
        &&& self.y <= p.y < self.y + self.height
    }

    /// Tests whether a point lies inside the rectangle.
    pub fn contains(&self, p: Point) -> (r: bool)
        ensures
            r == self.spec_contains(p),
    {
        p.x >= self.x && p.x - self.x < self.width && p.y >= self.y && p.y - self.y < self.height
    }
}

/// The length strategy of one widget axis.
#[derive(Clone, Copy, Debug, PartialEq, Eq, Structural)]
pub enum Length {
    /// Fill all the available space.
    Fill,
    /// Fill a portion of the available space relative to the siblings.
    FillPortion(u16),
    /// Take as little space as the limits allow.
    Shrink,
    /// A fixed number of units, clamped into the limits.
    Units(u16),
}

/// Addition on `u32` that saturates at the largest value instead of
/// overflowing; positions in a layout accumulate with it.
pub open spec fn spec_sat_add(a: u32, b: u32) -> u32 {
    if a + b > u32::MAX {
        u32::MAX
    } else {
        (a + b) as u32
    }
}

/// Adds two coordinates, saturating at `u32::MAX`.
pub fn sat_add(a: u32, b: u32) -> (r: u32)
    ensures
        r == spec_sat_add(a, b),
{
    if a > u32::MAX - b {
        u32::MAX
    } else {
        a + b
    }
}

} // verus!
