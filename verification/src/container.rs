//! Integer grid geometry: points, rectangular regions and directions.

use vstd::prelude::*;

verus! {

/// A cell of the grid.
#[derive(Debug, Clone, Copy, PartialEq, Eq, Structural)]
pub struct Point {
    pub x: usize,
    pub y: usize,
}

/// An axis-aligned region given by two corners. A region whose corners
/// coincide stands for a single cell.
#[derive(Debug, Clone, Copy, PartialEq, Eq, Structural)]
pub struct Container {
    pub top: Point,
    pub bottom: Point,
    pub padding_vertical: usize,
    pub padding_horizontal: usize,
}

/// A direction of travel on the grid.
#[derive(Debug, Clone, Copy, PartialEq, Eq, Structural)]
pub enum Direction {
    LEFT,
    RIGHT,
    UP,
    DOWN,
}

impl Container {
    /// The bottom corner lies neither left of nor above the top corner.
    pub open spec fn wf(&self) -> bool {
        self.top.x <= self.bottom.x && self.top.y <= self.bottom.y
    }

    /// Horizontal extent.
    pub open spec fn width(&self) -> int {
        self.bottom.x - self.top.x
    }

    /// Vertical extent.
    pub open spec fn height(&self) -> int {
        self.bottom.y - self.top.y
    }

    /// The single-cell region at `p`, without padding.
    pub open spec fn cell(p: Point) -> Container {
        Container { top: p, bottom: p, padding_vertical: 0, padding_horizontal: 0 }
    }

    /// The region spanned by the two corners, without padding.
    pub fn new(top: Point, bottom: Point) -> (c: Self)
        requires
            top.x <= bottom.x,
            top.y <= bottom.y,
        ensures
            c == (Container { top, bottom, padding_vertical: 0, padding_horizontal: 0 }),
            c.wf(),
    {
        Self { top, bottom, padding_horizontal: 0, padding_vertical: 0 }
    }

    pub fn get_width(&self) -> (w: usize)
        requires
            self.wf(),
        ensures
            w == self.width(),
    {
        self.bottom.x - self.top.x
    }

    pub fn get_height(&self) -> (h: usize)
        requires
            self.wf(),
        ensures
            h == self.height(),
    {
        self.bottom.y - self.top.y
    }
}

} // verus!
