//! Points and rectangles in device pixels, origin at the top-left corner.
use vstd::prelude::*;

verus! {

/// A screen position in device pixels.
#[derive(Clone, Copy, Debug, PartialEq, Eq, Structural)]
pub struct Position {
    pub x: i32,
    pub y: i32,
}

/// A rectangle given by the two corners of a drag, in drag order.
#[derive(Clone, Copy, Debug, PartialEq, Eq, Structural)]
pub struct Area {
    pub start: Position,
    pub end: Position,
}

/// Distance between two integers.
pub open spec fn abs_diff(a: int, b: int) -> nat {
    if a >= b {
        (a - b) as nat
    } else {
        (b - a) as nat
    }
}

/// The smaller of two integers.
pub open spec fn min_of(a: int, b: int) -> int {
    if a <= b {
        a
    } else {
        b
    }
}

impl Area {
    /// `|start.x - end.x|`
    pub open spec fn width_spec(self) -> nat {
        abs_diff(self.start.x as int, self.end.x as int)
    }

    /// `|start.y - end.y|`
    pub open spec fn height_spec(self) -> nat {
        abs_diff(self.start.y as int, self.end.y as int)
    }

    /// Left edge: the smaller x of the two corners.
    pub open spec fn left_spec(self) -> int {
        min_of(self.start.x as int, self.end.x as int)
    }

    /// Top edge: the smaller y of the two corners.
    pub open spec fn top_spec(self) -> int {
        min_of(self.start.y as int, self.end.y as int)
    }

    /// The rectangle with its corners swapped.
    pub open spec fn reversed(self) -> Area {
        Area { start: self.end, end: self.start }
    }

    /// The horizontal extent, whatever the drag direction.
    pub fn get_width(&self) -> (r: u32)
        ensures
            r as int == self.width_spec(),
    {
        let a = self.start.x as i64;
        let b = self.end.x as i64;
        if a >= b {
            (a - b) as u32
        } else {
            (b - a) as u32
        }
    }

    /// The vertical extent, whatever the drag direction.
    pub fn get_height(&self) -> (r: u32)
        ensures
            r as int == self.height_spec(),
    {
        let a = self.start.y as i64;
        let b = self.end.y as i64;
        if a >= b {
            (a - b) as u32
        } else {
            (b - a) as u32
        }
    }

    /// The top-left corner of the normalized rectangle.
    pub fn top_left(&self) -> (r: Position)
        ensures
            r.x as int == self.left_spec(),
            r.y as int == self.top_spec(),
    {
        let x = if self.start.x <= self.end.x {
            self.start.x
        } else {
            self.end.x
        };
        let y = if self.start.y <= self.end.y {
            self.start.y
        } else {
            self.end.y
        };
        Position { x, y }
    }
}

/// Swapping the two corners of a drag changes neither the width, the height
/// nor the top-left corner: the rectangle does not depend on drag direction.
pub proof fn lemma_drag_direction_invariance(p1: Position, p2: Position)
    ensures
        (Area { start: p1, end: p2 }).width_spec() == (Area { start: p2, end: p1 }).width_spec(),
        (Area { start: p1, end: p2 }).height_spec() == (Area { start: p2, end: p1 }).height_spec(),
        (Area { start: p1, end: p2 }).left_spec() == (Area { start: p2, end: p1 }).left_spec(),
        (Area { start: p1, end: p2 }).top_spec() == (Area { start: p2, end: p1 }).top_spec(),
{
}

/// Width and height are never negative; the normalized rectangle spans
/// exactly from its top-left corner to the farther of the two corners.
pub proof fn lemma_dimensions_nonnegative(a: Area)
    ensures
        a.width_spec() >= 0,
        a.height_spec() >= 0,
        a.left_spec() + a.width_spec() == if a.start.x >= a.end.x {
            a.start.x as int
        } else {
            a.end.x as int
        },
        a.top_spec() + a.height_spec() == if a.start.y >= a.end.y {
            a.start.y as int
        } else {
            a.end.y as int
        },
{
}

} // verus!
