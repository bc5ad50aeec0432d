use vstd::prelude::*;

verus! {

/// A board coordinate: `x` is the column and `y` is the row, each in `[0, 2]`
/// for cells of the 3-by-3 board.
#[derive(Clone, Copy, Debug, PartialEq, Eq, Structural)]
pub struct Pos2 {
    pub x: usize,
    pub y: usize,
}

impl Pos2 {
    /// True when the coordinate lies on the 3-by-3 board.
    pub open spec fn spec_in_bounds(self) -> bool {
        self.x <= 2 && self.y <= 2
    }

    pub fn new(x: usize, y: usize) -> (p: Pos2)
        ensures
            p.x == x,
            p.y == y,
    {
        Pos2 { x, y }
    }

    /// Runtime check that the coordinate lies on the board.
    pub fn in_bounds(&self) -> (b: bool)
        ensures
            b == self.spec_in_bounds(),
    {
        self.x <= 2 && self.y <= 2
    }

    /// Component-wise translation, used by presentation layers to move a
    /// cursor; game logic itself never translates coordinates.
    pub fn add(self, rhs: Pos2) -> (p: Pos2)
        requires
            self.x + rhs.x <= usize::MAX,
            self.y + rhs.y <= usize::MAX,
        ensures
            p.x == self.x + rhs.x,
            p.y == self.y + rhs.y,
    {
        Pos2 { x: self.x + rhs.x, y: self.y + rhs.y }
    }

    /// In-place component-wise translation.
    pub fn add_assign(&mut self, rhs: Pos2)
        requires
            old(self).x + rhs.x <= usize::MAX,
            old(self).y + rhs.y <= usize::MAX,
        ensures
            final(self).x == old(self).x + rhs.x,
            final(self).y == old(self).y + rhs.y,
    {
        self.x = self.x + rhs.x;
        self.y = self.y + rhs.y;
    }

    /// Component-wise reverse translation.
    pub fn sub(self, rhs: Pos2) -> (p: Pos2)
        requires
            rhs.x <= self.x,
            rhs.y <= self.y,
        ensures
            p.x == self.x - rhs.x,
            p.y == self.y - rhs.y,
    {
        Pos2 { x: self.x - rhs.x, y: self.y - rhs.y }
    }

    /// In-place component-wise reverse translation.
    pub fn sub_assign(&mut self, rhs: Pos2)
        requires
            rhs.x <= old(self).x,
            rhs.y <= old(self).y,
        ensures
            final(self).x == old(self).x - rhs.x,
            final(self).y == old(self).y - rhs.y,
    {
        self.x = self.x - rhs.x;
        self.y = self.y - rhs.y;
    }
}

impl Default for Pos2 {
    /// The origin cell, top-left of the board.
    fn default() -> (p: Pos2)
        ensures
            p.x == 0,
            p.y == 0,
    {
        Pos2 { x: 0, y: 0 }
    }
}

} // verus!
