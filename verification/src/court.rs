//! The playing field.

use vstd::prelude::*;

verus! {

/// The size of the playing field, in thousandths of a pixel. Its corner at the
/// top left is the origin; `x` grows to the right and `y` grows downward.
#[derive(Clone, Copy, Debug, PartialEq, Eq, Structural)]
pub struct Court {
    pub width: u32,
    pub height: u32,
}

impl Court {
    /// The `x` of the middle of the field.
    pub open spec fn spec_center_x(self) -> int {
        self.width as int / 2
    }

    /// The `y` of the middle of the field.
    pub open spec fn spec_center_y(self) -> int {
        self.height as int / 2
    }

    /// A field of the given width and height.
    pub fn new(width: u32, height: u32) -> (court: Court)
        ensures
            court.width == width,
            court.height == height,
    {
        Court { width, height }
    }

    /// The `x` of the middle of the field.
    pub fn center_x(&self) -> (x: i64)
        ensures
            x == self.spec_center_x(),
    {
        let half: u32 = self.width / 2;
        half as i64
    }

    /// The `y` of the middle of the field.
    pub fn center_y(&self) -> (y: i64)
        ensures
            y == self.spec_center_y(),
    {
        let half: u32 = self.height / 2;
        half as i64
    }
}

} // verus!
