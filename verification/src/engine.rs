use vstd::prelude::*;

use crate::pos2::Pos2;
use crate::utils::{TTTSide, TTTSymbol};

verus! {

/// The side, if any, marking cell `(x, y)` in `history`: the side of the most
/// recent entry placed at that coordinate, or `None` when no entry sits there.
pub open spec fn cell_at(history: Seq<TTTSymbol>, x: int, y: int) -> Option<TTTSide>
    decreases history.len(),
{
    if history.len() == 0 {
        None
    } else if history.last().pos.x == x && history.last().pos.y == y {
        Some(history.last().side)
    } else {
        cell_at(history.drop_last(), x, y)
    }
}

/// The 8 winning lines, in the fixed order the evaluator scans them:
/// the 3 rows top to bottom, then the 3 columns left to right, then the
/// main diagonal, then the anti-diagonal. Each is the 3 coordinates reported
/// for that line.
pub open spec fn line_coords(i: int) -> Seq<Pos2> {
    if i == 0 {
        seq![Pos2 { x: 0, y: 0 }, Pos2 { x: 1, y: 0 }, Pos2 { x: 2, y: 0 }]
    } else if i == 1 {
        seq![Pos2 { x: 0, y: 1 }, Pos2 { x: 1, y: 1 }, Pos2 { x: 2, y: 1 }]
    } else if i == 2 {
        seq![Pos2 { x: 0, y: 2 }, Pos2 { x: 1, y: 2 }, Pos2 { x: 2, y: 2 }]
    } else if i == 3 {
        seq![Pos2 { x: 0, y: 0 }, Pos2 { x: 0, y: 1 }, Pos2 { x: 0, y: 2 }]
    } else if i == 4 {
        seq![Pos2 { x: 1, y: 0 }, Pos2 { x: 1, y: 1 }, Pos2 { x: 1, y: 2 }]
    } else if i == 5 {
        seq![Pos2 { x: 2, y: 0 }, Pos2 { x: 2, y: 1 }, Pos2 { x: 2, y: 2 }]
    } else if i == 6 {
        seq![Pos2 { x: 0, y: 0 }, Pos2 { x: 1, y: 1 }, Pos2 { x: 2, y: 2 }]
    } else {
        seq![Pos2 { x: 2, y: 0 }, Pos2 { x: 1, y: 1 }, Pos2 { x: 0, y: 2 }]
    }
}

/// The winner on three cell contents: the common side when all three hold the
/// same defined side. An empty cell never counts as equal to another empty
/// cell, so a line with any empty cell has no winner.
pub open spec fn triple_winner(
    a: Option<TTTSide>,
    b: Option<TTTSide>,
    c: Option<TTTSide>,
) -> Option<TTTSide> {
    match (a, b, c) {
        (Some(sa), Some(sb), Some(sc)) => if sa == sb && sb == sc {
            Some(sa)
        } else {
            None
        },
        _ => None,
    }
}

/// Whether line `i` is complete in `history`, and for which side.
pub open spec fn line_winner(history: Seq<TTTSymbol>, i: int) -> Option<TTTSide> {
    triple_winner(
        cell_at(history, line_coords(i)[0].x as int, line_coords(i)[0].y as int),
        cell_at(history, line_coords(i)[1].x as int, line_coords(i)[1].y as int),
        cell_at(history, line_coords(i)[2].x as int, line_coords(i)[2].y as int),
    )
}

/// The first complete line at index `i` or after, scanning in priority order.
pub open spec fn first_winning_line_from(history: Seq<TTTSymbol>, i: int) -> Option<int>
    decreases 8 - i,
{
    if i < 0 || i >= 8 {
        None
    } else if line_winner(history, i) is Some {
        Some(i)
    } else {
        first_winning_line_from(history, i + 1)
    }
}

/// The first complete line of `history` in priority order, if any.
pub open spec fn first_winning_line(history: Seq<TTTSymbol>) -> Option<int> {
    first_winning_line_from(history, 0)
}

proof fn lemma_first_line_from(history: Seq<TTTSymbol>, k: int, i: int)
    requires
        0 <= k <= i < 8,
        forall|j: int| k <= j < i ==> line_winner(history, j) is None,
        line_winner(history, i) is Some,
    ensures
        first_winning_line_from(history, k) == Some(i),
    decreases i - k,
{
    if k < i {
        lemma_first_line_from(history, k + 1, i);
    }
}

proof fn lemma_from_props(history: Seq<TTTSymbol>, k: int)
    requires
        0 <= k <= 8,
    ensures
        match first_winning_line_from(history, k) {
            Some(i) => {
                &&& k <= i < 8
                &&& line_winner(history, i) is Some
                &&& forall|j: int| k <= j < i ==> line_winner(history, j) is None
            },
            None => forall|j: int| k <= j < 8 ==> line_winner(history, j) is None,
        },
    decreases 8 - k,
{
    if k < 8 {
        lemma_from_props(history, k + 1);
    }
}

/// Law: the scan order is a fixed priority order. When the evaluator reports
/// line `i` while line `j` is also complete, line `i` comes no later than
/// line `j` in the scan order — rows before columns before diagonals.
pub proof fn lemma_scan_priority(history: Seq<TTTSymbol>, i: int, j: int)
    requires
        first_winning_line(history) == Some(i),
        0 <= j < 8,
        line_winner(history, j) is Some,
    ensures
        0 <= i <= j,
        line_winner(history, i) is Some,
{
    lemma_from_props(history, 0);
}

proof fn lemma_no_line_from(history: Seq<TTTSymbol>, k: int)
    requires
        0 <= k <= 8,
        forall|j: int| k <= j < 8 ==> line_winner(history, j) is None,
    ensures
        first_winning_line_from(history, k) is None,
    decreases 8 - k,
{
    if k < 8 {
        lemma_no_line_from(history, k + 1);
    }
}

/// The stateless win evaluator.
pub struct Engine {}

impl Engine {
    /// Looks up which side, if any, marks cell `(x, y)`: the side of the most
    /// recent entry of `stack` placed at that coordinate.
    fn cell_side(stack: &Vec<TTTSymbol>, x: usize, y: usize) -> (r: Option<TTTSide>)
        ensures
            r == cell_at(stack@, x as int, y as int),
    {
        let mut found: Option<TTTSide> = None;
        let mut i: usize = 0;
        while i < stack.len()
            invariant
                i <= stack.len(),
                found == cell_at(stack@.take(i as int), x as int, y as int),
            decreases stack.len() - i,
        {
            let sym = stack[i];
            if sym.pos.x == x && sym.pos.y == y {
                found = Some(sym.side);
            }
            proof {
                assert(stack@.take(i as int + 1).drop_last() =~= stack@.take(i as int));
                assert(stack@.take(i as int + 1).last() == stack@[i as int]);
            }
            i = i + 1;
        }
        proof {
            assert(stack@.take(stack@.len() as int) =~= stack@);
        }
        found
    }

    /// Builds the 3 reported coordinates of a winning line.
    fn line_vec(a: Pos2, b: Pos2, c: Pos2) -> (r: Vec<Pos2>)
        ensures
            r@ == seq![a, b, c],
    {
        let mut r: Vec<Pos2> = Vec::new();
        r.push(a);
        r.push(b);
        r.push(c);
        proof {
            assert(r@ =~= seq![a, b, c]);
        }
        r
    }

    /// The winner on three cell contents: the common side when all three hold
    /// the same defined side; `None` when any cell is empty or the sides mix.
    pub fn symbols_equal(
        a: Option<TTTSide>,
        b: Option<TTTSide>,
        c: Option<TTTSide>,
    ) -> (winner: Option<TTTSide>)
        ensures
            winner == triple_winner(a, b, c),
    {
        match (a, b, c) {
            (Some(sa), Some(sb), Some(sc)) => if sa == sb && sb == sc {
                Some(sa)
            } else {
                None
            },
            _ => None,
        }
    }

    /// Scans the 8 lines in priority order over the board described by
    /// `stack` and reports the first complete one: its side and its 3
    /// coordinates. Reports `(None, empty)` when no line is complete.
    pub fn calculate_winner(stack: &Vec<TTTSymbol>) -> (r: (Option<TTTSide>, Vec<Pos2>))
        ensures
            match first_winning_line(stack@) {
                Some(i) => {
                    &&& r.0 is Some
                    &&& r.0 == line_winner(stack@, i)
                    &&& r.1@ == line_coords(i)
                },
                None => {
                    &&& r.0 is None
                    &&& r.1@.len() == 0
                },
            },
    {
        let c00 = Self::cell_side(stack, 0, 0);
        let c10 = Self::cell_side(stack, 1, 0);
        let c20 = Self::cell_side(stack, 2, 0);
        let c01 = Self::cell_side(stack, 0, 1);
        let c11 = Self::cell_side(stack, 1, 1);
        let c21 = Self::cell_side(stack, 2, 1);
        let c02 = Self::cell_side(stack, 0, 2);
        let c12 = Self::cell_side(stack, 1, 2);
        let c22 = Self::cell_side(stack, 2, 2);

        if let Some(winner) = Self::symbols_equal(c00, c10, c20) {
            proof {
                lemma_first_line_from(stack@, 0, 0);
            }
            (Some(winner), Self::line_vec(Pos2::new(0, 0), Pos2::new(1, 0), Pos2::new(2, 0)))
        } else if let Some(winner) = Self::symbols_equal(c01, c11, c21) {
            proof {
                lemma_first_line_from(stack@, 0, 1);
            }
            (Some(winner), Self::line_vec(Pos2::new(0, 1), Pos2::new(1, 1), Pos2::new(2, 1)))
        } else if let Some(winner) = Self::symbols_equal(c02, c12, c22) {
            proof {
                lemma_first_line_from(stack@, 0, 2);
            }
            (Some(winner), Self::line_vec(Pos2::new(0, 2), Pos2::new(1, 2), Pos2::new(2, 2)))
        } else if let Some(winner) = Self::symbols_equal(c00, c01, c02) {
            proof {
                lemma_first_line_from(stack@, 0, 3);
            }
            (Some(winner), Self::line_vec(Pos2::new(0, 0), Pos2::new(0, 1), Pos2::new(0, 2)))
        } else if let Some(winner) = Self::symbols_equal(c10, c11, c12) {
            proof {
                lemma_first_line_from(stack@, 0, 4);
            }
            (Some(winner), Self::line_vec(Pos2::new(1, 0), Pos2::new(1, 1), Pos2::new(1, 2)))
        } else if let Some(winner) = Self::symbols_equal(c20, c21, c22) {
            proof {
                lemma_first_line_from(stack@, 0, 5);
            }
            (Some(winner), Self::line_vec(Pos2::new(2, 0), Pos2::new(2, 1), Pos2::new(2, 2)))
        } else if let Some(winner) = Self::symbols_equal(c00, c11, c22) {
            proof {
                lemma_first_line_from(stack@, 0, 6);
            }
            (Some(winner), Self::line_vec(Pos2::new(0, 0), Pos2::new(1, 1), Pos2::new(2, 2)))
        } else if let Some(winner) = Self::symbols_equal(c20, c11, c02) {
            proof {
                lemma_first_line_from(stack@, 0, 7);
            }
            (Some(winner), Self::line_vec(Pos2::new(2, 0), Pos2::new(1, 1), Pos2::new(0, 2)))
        } else {
            proof {
                lemma_no_line_from(stack@, 0);
            }
            (None, Vec::new())
        }
    }
}

} // verus!
