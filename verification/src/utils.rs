use vstd::prelude::*;

use crate::pos2::Pos2;

verus! {

/// One of the two players. `Cross` always moves first.
#[derive(Clone, Copy, Debug, PartialEq, Eq, Structural)]
pub enum TTTSide {
    Cross,
    Circle,
}

impl TTTSide {
    /// The side that moves after `self`.
    pub open spec fn spec_opposite(self) -> TTTSide {
        match self {
            TTTSide::Cross => TTTSide::Circle,
            TTTSide::Circle => TTTSide::Cross,
        }
    }

    /// The other player.
    pub fn opposite(self) -> (s: TTTSide)
        ensures
            s == self.spec_opposite(),
    {
        match self {
            TTTSide::Cross => TTTSide::Circle,
            TTTSide::Circle => TTTSide::Cross,
        }
    }
}

impl Default for TTTSide {
    /// `Cross` is the side to move in a fresh game.
    fn default() -> (s: TTTSide)
        ensures
            s == TTTSide::Cross,
    {
        TTTSide::Cross
    }
}

/// One mark on the board: a side's symbol placed at a coordinate.
/// Immutable once created; it leaves the board only by eviction.
#[derive(Clone, Copy, Debug, PartialEq, Eq, Structural)]
pub struct TTTSymbol {
    pub pos: Pos2,
    pub side: TTTSide,
}

impl Default for TTTSymbol {
    fn default() -> (s: TTTSymbol)
        ensures
            s.pos.x == 0,
            s.pos.y == 0,
            s.side == TTTSide::Cross,
    {
        TTTSymbol { pos: Pos2 { x: 0, y: 0 }, side: TTTSide::Cross }
    }
}

} // verus!
