//! Rectangles, sizes and side insets on the terminal grid.

use vstd::prelude::*;

verus! {

/// A width and height in cells.
#[derive(Clone, Copy, Debug, PartialEq, Eq, Structural)]
pub struct Size {
    pub width: u16,
    pub height: u16,
}

impl Size {
    /// A size of `width` by `height` cells.
    pub fn new(width: u16, height: u16) -> (s: Size)
        ensures
            s.width == width,
            s.height == height,
    {
        Size { width, height }
    }
}

/// Insets measured from each side of a rectangle.
#[derive(Clone, Copy, Debug, PartialEq, Eq, Structural)]
pub struct Sides {
    pub top: u16,
    pub right: u16,
    pub bottom: u16,
    pub left: u16,
}

impl Sides {
    /// Insets given side by side.
    pub fn new(top: u16, right: u16, bottom: u16, left: u16) -> (s: Sides)
        ensures
            s == (Sides { top, right, bottom, left }),
    {
        Sides { top, right, bottom, left }
    }

    /// The same inset on all four sides.
    pub fn all(value: u16) -> (s: Sides)
        ensures
            s == (Sides { top: value, right: value, bottom: value, left: value }),
    {
        Sides { top: value, right: value, bottom: value, left: value }
    }
}

impl Default for Sides {
    fn default() -> (s: Sides)
        ensures
            s == (Sides { top: 0, right: 0, bottom: 0, left: 0 }),
    {
        Sides { top: 0, right: 0, bottom: 0, left: 0 }
    }
}

/// `a + b`, held at the largest `u16`.
pub open spec fn sat_add(a: int, b: int) -> int {
    if a + b > u16::MAX as int {
        u16::MAX as int
    } else {
        a + b
    }
}

/// `a - b`, held at zero.
pub open spec fn sat_sub(a: int, b: int) -> int {
    if a - b < 0 {
        0
    } else {
        a - b
    }
}

/// The smaller of two integers.
pub open spec fn min_int(a: int, b: int) -> int {
    if a <= b {
        a
    } else {
        b
    }
}

/// The larger of two integers.
pub open spec fn max_int(a: int, b: int) -> int {
    if a >= b {
        a
    } else {
        b
    }
}

/// An axis-aligned rectangle of cells: origin, width and height.
#[derive(Clone, Copy, Debug, PartialEq, Eq, Structural)]
pub struct Rect {
    pub x: u16,
    pub y: u16,
    pub width: u16,
    pub height: u16,
}

impl Rect {
    /// First column to the right of the rectangle, held at the largest `u16`.
    pub open spec fn spec_right(self) -> int {
        sat_add(self.x as int, self.width as int)
    }

    /// First row below the rectangle, held at the largest `u16`.
    pub open spec fn spec_bottom(self) -> int {
        sat_add(self.y as int, self.height as int)
    }

    /// Whether the cell `(x, y)` lies inside the rectangle.
    pub open spec fn spec_contains(self, x: int, y: int) -> bool {
        self.x <= x < self.spec_right() && self.y <= y < self.spec_bottom()
    }

    /// Whether the rectangle holds no cell.
    pub open spec fn spec_is_empty(self) -> bool {
        self.width == 0 || self.height == 0
    }

    /// The overlap of two rectangles; the zero rectangle when they are disjoint.
    pub open spec fn spec_intersection(self, other: Rect) -> Rect {
        let x = max_int(self.x as int, other.x as int);
        let y = max_int(self.y as int, other.y as int);
        let right = min_int(self.spec_right(), other.spec_right());
        let bottom = min_int(self.spec_bottom(), other.spec_bottom());
        if x < right && y < bottom {
            Rect {
                x: x as u16,
                y: y as u16,
                width: (right - x) as u16,
                height: (bottom - y) as u16,
            }
        } else {
            Rect { x: 0, y: 0, width: 0, height: 0 }
        }
    }

    /// The rectangle shrunk by `sides`; an axis whose insets meet or cross
    /// collapses to width or height zero.
    pub open spec fn spec_inner(self, sides: Sides) -> Rect {
        let x = sat_add(self.x as int, sides.left as int);
        let y = sat_add(self.y as int, sides.top as int);
        let width = sat_sub(sat_sub(self.width as int, sides.left as int), sides.right as int);
        let height = sat_sub(sat_sub(self.height as int, sides.top as int), sides.bottom as int);
        Rect { x: x as u16, y: y as u16, width: width as u16, height: height as u16 }
    }

    /// A rectangle with origin `(x, y)` and the given extent.
    pub fn new(x: u16, y: u16, width: u16, height: u16) -> (r: Rect)
        ensures
            r == (Rect { x, y, width, height }),
    {
        Rect { x, y, width, height }
    }

    /// First column to the right of the rectangle.
    pub fn right(&self) -> (r: u16)
        ensures
            r == self.spec_right(),
    {
        self.x.saturating_add(self.width)
    }

    /// First row below the rectangle.
    pub fn bottom(&self) -> (r: u16)
        ensures
            r == self.spec_bottom(),
    {
        self.y.saturating_add(self.height)
    }

    /// Whether the rectangle holds no cell.
    pub fn is_empty(&self) -> (r: bool)
        ensures
            r == self.spec_is_empty(),
    {
        self.width == 0 || self.height == 0
    }

    /// Whether the cell `(x, y)` lies inside the rectangle.
    pub fn contains(&self, x: u16, y: u16) -> (r: bool)
        ensures
            r == self.spec_contains(x as int, y as int),
    {
        x >= self.x && x < self.right() && y >= self.y && y < self.bottom()
    }

    /// The overlap of two rectangles.
    pub fn intersection(&self, other: &Rect) -> (r: Rect)
        ensures
            r == self.spec_intersection(*other),
    {
        let x = if self.x >= other.x { self.x } else { other.x };
        let y = if self.y >= other.y { self.y } else { other.y };
        let sr = self.right();
        let or = other.right();
        let sb = self.bottom();
        let ob = other.bottom();
        let right = if sr <= or { sr } else { or };
        let bottom = if sb <= ob { sb } else { ob };
        if x < right && y < bottom {
            Rect { x, y, width: right - x, height: bottom - y }
        } else {
            Rect { x: 0, y: 0, width: 0, height: 0 }
        }
    }

    /// The rectangle shrunk by `sides`.
    pub fn inner(&self, sides: Sides) -> (r: Rect)
        ensures
            r == self.spec_inner(sides),
    {
        Rect {
            x: self.x.saturating_add(sides.left),
            y: self.y.saturating_add(sides.top),
            width: self.width.saturating_sub(sides.left).saturating_sub(sides.right),
            height: self.height.saturating_sub(sides.top).saturating_sub(sides.bottom),
        }
    }
}

/// A cell lies in an intersection exactly when it lies in both rectangles.
pub proof fn lemma_intersection_contains(a: Rect, b: Rect, x: int, y: int)
    ensures
        a.spec_intersection(b).spec_contains(x, y) <==> (a.spec_contains(x, y) && b.spec_contains(
            x,
            y,
        )),
{
}

} // verus!
