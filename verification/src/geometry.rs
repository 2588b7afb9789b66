//! Rectangles of an atlas and the move instructions built from them.

use vstd::prelude::*;

verus! {

/// An axis-aligned block of pixels: its top-left corner and its size.
#[derive(Clone, Copy, Debug, PartialEq, Eq, Structural)]
pub struct Rect {
    pub x: u32,
    pub y: u32,
    pub width: u32,
    pub height: u32,
}

impl Rect {
    /// The rectangle with corner `(x, y)` and the given size.
    pub fn new(x: u32, y: u32, width: u32, height: u32) -> (r: Rect)
        ensures
            r == (Rect { x, y, width, height }),
    {
        Rect { x, y, width, height }
    }

    /// A rectangle holds at least one pixel.
    pub open spec fn is_valid(self) -> bool {
        self.width > 0 && self.height > 0
    }

    /// The column just right of the rectangle.
    pub open spec fn right(self) -> int {
        self.x + self.width
    }

    /// The row just below the rectangle.
    pub open spec fn bottom(self) -> int {
        self.y + self.height
    }

    /// Whether the pixel `(x, y)` lies inside the rectangle.
    pub open spec fn covers(self, x: int, y: int) -> bool {
        self.x <= x < self.right() && self.y <= y < self.bottom()
    }

    /// Whether the rectangle lies inside a grid of the given size.
    pub open spec fn within(self, width: int, height: int) -> bool {
        self.is_valid() && self.right() <= width && self.bottom() <= height
    }

    /// Whether two rectangles share no pixel.
    pub open spec fn disjoint(self, other: Rect) -> bool {
        self.right() <= other.x || other.right() <= self.x || self.bottom() <= other.y
            || other.bottom() <= self.y
    }
}

/// One remap instruction: the block at `src` is written to `dst`, resampled
/// to the size of `dst` where the sizes differ.
#[derive(Clone, Copy, Debug, PartialEq, Eq, Structural)]
pub struct MoveOp {
    pub src: Rect,
    pub dst: Rect,
}

impl MoveOp {
    /// The instruction that moves `src` to `dst`.
    pub fn new(src: Rect, dst: Rect) -> (m: MoveOp)
        ensures
            m == (MoveOp { src, dst }),
    {
        MoveOp { src, dst }
    }

    /// Both rectangles lie inside a grid of the given size.
    pub open spec fn within(self, width: int, height: int) -> bool {
        self.src.within(width, height) && self.dst.within(width, height)
    }
}

} // verus!
