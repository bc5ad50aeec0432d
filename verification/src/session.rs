use vstd::prelude::*;

use crate::engine::{Engine, first_winning_line, line_coords};
use crate::pos2::Pos2;
use crate::utils::{TTTSide, TTTSymbol};

verus! {

/// Whether the session is accepting moves (`InPlay`) or displaying a
/// completed win and waiting for a reset (`WonShowing`).
#[derive(Clone, Copy, Debug, PartialEq, Eq, Structural)]
pub enum GamePhase {
    InPlay,
    WonShowing,
}

/// Whether some entry of `history` sits at coordinate `pos`.
pub open spec fn occupied(history: Seq<TTTSymbol>, pos: Pos2) -> bool {
    exists|k: int| 0 <= k < history.len() && history[k].pos == pos
}

/// The history after an accepted move `sym`: when the sliding window is full
/// the oldest entry is evicted first, then the new entry is appended.
pub open spec fn after_move(history: Seq<TTTSymbol>, sym: TTTSymbol) -> Seq<TTTSymbol> {
    if history.len() == 6 {
        history.remove(0).push(sym)
    } else {
        history.push(sym)
    }
}

/// The mathematical state of a session: the snapshot the presentation layer
/// consumes after each processed event.
pub ghost struct SessionView {
    pub phase: GamePhase,
    pub side: TTTSide,
    pub history: Seq<TTTSymbol>,
    pub winning_line: Seq<Pos2>,
}

impl SessionView {
    /// The session invariant: the sliding window holds at most 6 moves, no
    /// two of them share a coordinate, and every coordinate is on the board.
    pub open spec fn wf(self) -> bool {
        &&& self.history.len() <= 6
        &&& forall|i: int, j: int|
            0 <= i < j < self.history.len() ==> self.history[i].pos != self.history[j].pos
        &&& forall|i: int| 0 <= i < self.history.len() ==> self.history[i].pos.spec_in_bounds()
    }

    /// The state of a fresh or freshly reset session: empty history, `Cross`
    /// to move, `InPlay`, no winning line recorded.
    pub open spec fn initial(self) -> bool {
        &&& self.phase == GamePhase::InPlay
        &&& self.side == TTTSide::Cross
        &&& self.history == Seq::<TTTSymbol>::empty()
        &&& self.winning_line == Seq::<Pos2>::empty()
    }
}

/// Law: in every well-formed session state the move history holds at most 6
/// entries, and no two entries share a coordinate.
pub proof fn lemma_history_window(v: SessionView)
    requires
        v.wf(),
    ensures
        v.history.len() <= 6,
        forall|i: int, j: int|
            0 <= i < j < v.history.len() ==> v.history[i].pos != v.history[j].pos,
{
}

/// Law: when the sliding window is full, an accepted move evicts the oldest
/// entry, whose coordinate then no longer occurs anywhere in the new
/// history — it disappears from the snapshot and is free to be submitted
/// again.
pub proof fn lemma_eviction_frees_oldest(history: Seq<TTTSymbol>, sym: TTTSymbol)
    requires
        history.len() == 6,
        forall|i: int, j: int|
            0 <= i < j < history.len() ==> history[i].pos != history[j].pos,
        !occupied(history, sym.pos),
    ensures
        after_move(history, sym).len() == 6,
        !occupied(after_move(history, sym), history[0].pos),
{
    let h = after_move(history, sym);
    assert(forall|k: int| 0 <= k < 5 ==> h[k] == history[k + 1]);
    assert(h[5] == sym);
    assert(history[0].pos != sym.pos);
    assert(forall|k: int| 0 <= k < 6 ==> h[k].pos != history[0].pos);
}

/// The session controller: the gatekeeper between external input and the
/// board state and win evaluator. It owns the sliding-window move history,
/// the side to move, the phase, and the recorded winning line.
pub struct Session {
    phase: GamePhase,
    side: TTTSide,
    stack: Vec<TTTSymbol>,
    highlighting: Vec<Pos2>,
}

impl View for Session {
    type V = SessionView;

    closed spec fn view(&self) -> SessionView {
        SessionView {
            phase: self.phase,
            side: self.side,
            history: self.stack@,
            winning_line: self.highlighting@,
        }
    }
}

impl Session {
    /// A fresh session: empty board, `Cross` to move, accepting moves.
    pub fn new() -> (s: Session)
        ensures
            s@.wf(),
            s@.initial(),
    {
        Session {
            phase: GamePhase::InPlay,
            side: TTTSide::Cross,
            stack: Vec::new(),
            highlighting: Vec::new(),
        }
    }

    /// Discards all state and returns to the initial state. Safe to call in
    /// any phase; always produces the same empty state.
    pub fn reset(&mut self)
        ensures
            final(self)@.wf(),
            final(self)@.initial(),
    {
        self.phase = GamePhase::InPlay;
        self.side = TTTSide::Cross;
        self.stack = Vec::new();
        self.highlighting = Vec::new();
    }

    /// The current phase.
    pub fn phase(&self) -> (p: GamePhase)
        ensures
            p == self@.phase,
    {
        self.phase
    }

    /// The side to move, or the winning side while `WonShowing`.
    pub fn side(&self) -> (s: TTTSide)
        ensures
            s == self@.side,
    {
        self.side
    }

    /// The move history, oldest first: the snapshot of the visible board.
    pub fn history(&self) -> (h: &Vec<TTTSymbol>)
        ensures
            h@ == self@.history,
    {
        &self.stack
    }

    /// The 3 coordinates of the winning line while `WonShowing`, else empty.
    pub fn winning_line(&self) -> (w: &Vec<Pos2>)
        ensures
            w@ == self@.winning_line,
    {
        &self.highlighting
    }

    /// Whether a symbol currently sits at `pos`.
    pub fn is_occupied(&self, pos: Pos2) -> (b: bool)
        ensures
            b == occupied(self@.history, pos),
    {
        let mut i: usize = 0;
        while i < self.stack.len()
            invariant
                i <= self.stack.len(),
                forall|k: int| 0 <= k < i ==> self.stack@[k].pos != pos,
            decreases self.stack.len() - i,
        {
            if self.stack[i].pos == pos {
                return true;
            }
            i = i + 1;
        }
        false
    }

    /// Processes a move request at `pos`. A no-op while `WonShowing` or when
    /// `pos` is already occupied. Otherwise evicts the oldest entry if the
    /// window is full, appends the new symbol for the side to move, and asks
    /// the win evaluator: on a win the phase becomes `WonShowing`, the moving
    /// side is retained as the winner and the line is recorded; otherwise the
    /// sides alternate.
    pub fn submit_move(&mut self, pos: Pos2)
        requires
            old(self)@.wf(),
            pos.spec_in_bounds(),
        ensures
            final(self)@.wf(),
            (old(self)@.phase == GamePhase::WonShowing || occupied(old(self)@.history, pos))
                ==> final(self)@ == old(self)@,
            (old(self)@.phase == GamePhase::InPlay && !occupied(old(self)@.history, pos)) ==> {
                let h = after_move(
                    old(self)@.history,
                    (TTTSymbol { pos: pos, side: old(self)@.side }),
                );
                &&& final(self)@.history == h
                &&& match first_winning_line(h) {
                    Some(i) => {
                        &&& final(self)@.phase == GamePhase::WonShowing
                        &&& final(self)@.side == old(self)@.side
                        &&& final(self)@.winning_line == line_coords(i)
                    },
                    None => {
                        &&& final(self)@.phase == GamePhase::InPlay
                        &&& final(self)@.side == old(self)@.side.spec_opposite()
                        &&& final(self)@.winning_line == old(self)@.winning_line
                    },
                }
            },
    {
        if self.phase == GamePhase::WonShowing {
            return;
        }
        if self.is_occupied(pos) {
            return;
        }

        if self.stack.len() == 6 {
            self.stack.remove(0);
        }
        let sym = TTTSymbol { pos, side: self.side };
        self.stack.push(sym);

        proof {
            assert(self.stack@ == after_move(old(self)@.history, sym));
            assert(self@.wf()) by {
                let h0 = old(self)@.history;
                let h = self.stack@;
                if h0.len() == 6 {
                    assert(forall|k: int| 0 <= k < 5 ==> h[k] == h0[k + 1]);
                }
            }
        }

        let (winner, poses) = Engine::calculate_winner(&self.stack);
        if winner.is_some() {
            self.phase = GamePhase::WonShowing;
            self.highlighting = poses;
            return;
        }
        self.side = self.side.opposite();
    }
}

} // verus!
