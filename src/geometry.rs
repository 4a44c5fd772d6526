use vstd::prelude::*;

verus! {

/// A point in signed pixel units.
#[derive(Clone, Copy, Default, Debug, PartialEq, Eq, Structural)]
pub struct Point {
    pub x: i16,
    pub y: i16,
}

/// An axis-aligned rectangle: its top-left corner and its extent.
#[derive(Clone, Copy, Default, Debug, PartialEq, Eq, Structural)]
pub struct Rect {
    pub position: Point,
    pub width: i16,
    pub height: i16,
}

/// Whether two rectangles overlap. Strict comparisons: rectangles that only
/// share an edge do not overlap.
pub open spec fn overlaps(a: Rect, b: Rect) -> bool {
    &&& a.spec_x() < b.spec_right()
    &&& a.spec_right() > b.spec_x()
    &&& a.spec_y() < b.spec_bottom()
    &&& a.spec_bottom() > b.spec_y()
}

/// Whether `v` is representable as an `i16`.
pub open spec fn fits_i16(v: int) -> bool {
    i16::MIN <= v <= i16::MAX
}

impl Rect {
    pub open spec fn spec_x(&self) -> int {
        self.position.x as int
    }

    pub open spec fn spec_y(&self) -> int {
        self.position.y as int
    }

    pub open spec fn spec_right(&self) -> int {
        self.position.x + self.width
    }

    pub open spec fn spec_bottom(&self) -> int {
        self.position.y + self.height
    }

    pub fn new(position: Point, width: i16, height: i16) -> (r: Rect)
        ensures
            r == (Rect { position, width, height }),
    {
        Rect { position, width, height }
    }

    pub fn new_from_x_y(x: i16, y: i16, width: i16, height: i16) -> (r: Rect)
        ensures
            r == (Rect { position: Point { x, y }, width, height }),
    {
        Rect::new(Point { x, y }, width, height)
    }

    /// Overlap test, computed without any risk of overflow.
    pub fn intersects(&self, rect: &Rect) -> (r: bool)
        ensures
            r == overlaps(*self, *rect),
    {
        let self_right = self.position.x as i32 + self.width as i32;
        let self_bottom = self.position.y as i32 + self.height as i32;
        let rect_right = rect.position.x as i32 + rect.width as i32;
        let rect_bottom = rect.position.y as i32 + rect.height as i32;
        (self.position.x as i32) < rect_right && self_right > rect.position.x as i32
            && (self.position.y as i32) < rect_bottom && self_bottom > rect.position.y as i32
    }

    pub fn right(&self) -> (r: i16)
        requires
            fits_i16(self.spec_right()),
        ensures
            r == self.spec_right(),
    {
        self.position.x + self.width
    }

    pub fn bottom(&self) -> (r: i16)
        requires
            fits_i16(self.spec_bottom()),
        ensures
            r == self.spec_bottom(),
    {
        self.position.y + self.height
    }

    pub fn set_x(&mut self, x: i16)
        ensures
            *final(self) == (Rect { position: Point { x, y: old(self).position.y }, ..*old(self) }),
    {
        self.position.x = x;
    }

    pub fn x(&self) -> (r: i16)
        ensures
            r == self.position.x,
    {
        self.position.x
    }

    pub fn y(&self) -> (r: i16)
        ensures
            r == self.position.y,
    {
        self.position.y
    }
}

/// Overlap does not depend on the order of the two rectangles, and rectangles
/// that only touch along an edge never overlap.
pub proof fn lemma_overlap_symmetric(a: Rect, b: Rect)
    ensures
        overlaps(a, b) == overlaps(b, a),
        a.spec_right() == b.spec_x() ==> !overlaps(a, b),
        a.spec_bottom() == b.spec_y() ==> !overlaps(a, b),
        b.spec_right() == a.spec_x() ==> !overlaps(a, b),
        b.spec_bottom() == a.spec_y() ==> !overlaps(a, b),
{
}

} // verus!
