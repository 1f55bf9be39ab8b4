use vstd::prelude::*;

verus! {

/// What is left of an extent of `extent` pixels once a border of
/// `border_width` pixels is taken off at both ends; nothing, if the borders do
/// not fit.
pub open spec fn inner_extent(extent: u32, border_width: u32) -> u32 {
    if extent >= 2 * border_width {
        (extent - 2 * border_width) as u32
    } else {
        0
    }
}

/// Computes `inner_extent`.
pub fn shrink_extent(extent: u32, border_width: u32) -> (inner: u32)
    ensures
        inner == inner_extent(extent, border_width),
{
    if extent / 2 >= border_width {
        extent - 2 * border_width
    } else {
        0
    }
}

/// A rectangle in pixel units.
#[derive(Clone, Copy, Debug, PartialEq, Eq, Structural)]
pub struct Area {
    pub x: u32,
    pub y: u32,
    pub width: u32,
    pub height: u32,
}

impl Area {
    /// The first column to the right of the rectangle.
    pub open spec fn right(self) -> int {
        self.x + self.width
    }

    /// The first row below the rectangle.
    pub open spec fn bottom(self) -> int {
        self.y + self.height
    }

    /// Both far edges are pixel coordinates that a `u32` can hold.
    pub open spec fn representable(self) -> bool {
        self.right() <= u32::MAX && self.bottom() <= u32::MAX
    }

    /// The pixel at column `px`, row `py` lies inside the rectangle.
    pub open spec fn covers(self, px: int, py: int) -> bool {
        self.x <= px < self.right() && self.y <= py < self.bottom()
    }

    /// The number of pixels in the rectangle.
    pub open spec fn pixels(self) -> nat {
        (self.width * self.height) as nat
    }

    /// The rectangle shrunk by a border: the room that is left for a window
    /// whose border of `border_width` pixels on every side is to stay inside
    /// the rectangle. The origin stays, since the display server counts a
    /// window's position from the outer corner of its border; width and height
    /// lose the border twice.
    pub open spec fn shrunk(self, border_width: u32) -> Area {
        Area {
            x: self.x,
            y: self.y,
            width: inner_extent(self.width, border_width),
            height: inner_extent(self.height, border_width),
        }
    }

    /// Computes `shrunk`.
    pub fn shrink(&self, border_width: u32) -> (inner: Area)
        ensures
            inner == self.shrunk(border_width),
    {
        Area {
            x: self.x,
            y: self.y,
            width: shrink_extent(self.width, border_width),
            height: shrink_extent(self.height, border_width),
        }
    }
}

} // verus!
