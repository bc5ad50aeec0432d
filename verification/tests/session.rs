use ttt_core::pos2::Pos2;
use ttt_core::session::{GamePhase, Session};
use ttt_core::utils::{TTTSide, TTTSymbol};

fn coords(s: &Session) -> Vec<(usize, usize)> {
    s.history().iter().map(|sym| (sym.pos.x, sym.pos.y)).collect()
}

fn sides(s: &Session) -> Vec<TTTSide> {
    s.history().iter().map(|sym| sym.side).collect()
}

/// Six non-winning moves on distinct cells: X O X O X O with no complete line.
fn six_quiet_moves(s: &mut Session) {
    s.submit_move(Pos2::new(0, 0)); // Cross
    s.submit_move(Pos2::new(1, 0)); // Circle
    s.submit_move(Pos2::new(2, 0)); // Cross
    s.submit_move(Pos2::new(0, 1)); // Circle
    s.submit_move(Pos2::new(1, 1)); // Cross
    s.submit_move(Pos2::new(2, 1)); // Circle
}

#[test]
fn fresh_session_is_initial() {
    let s = Session::new();
    assert!(s.history().is_empty());
    assert_eq!(s.side(), TTTSide::Cross);
    assert_eq!(s.phase(), GamePhase::InPlay);
    assert!(s.winning_line().is_empty());
}

#[test]
fn accepted_move_records_side_and_cell() {
    let mut s = Session::new();
    s.submit_move(Pos2::new(1, 2));
    assert_eq!(
        s.history().as_slice(),
        &[TTTSymbol { pos: Pos2::new(1, 2), side: TTTSide::Cross }]
    );
    assert_eq!(s.side(), TTTSide::Circle);
    assert_eq!(s.phase(), GamePhase::InPlay);
}

#[test]
fn occupied_move_is_a_noop() {
    let mut s = Session::new();
    s.submit_move(Pos2::new(0, 0)); // Cross
    s.submit_move(Pos2::new(1, 1)); // Circle
    let before_coords = coords(&s);
    let before_sides = sides(&s);
    let before_side = s.side();
    let before_phase = s.phase();

    s.submit_move(Pos2::new(0, 0)); // occupied: silently ignored
    assert_eq!(coords(&s), before_coords);
    assert_eq!(sides(&s), before_sides);
    assert_eq!(s.side(), before_side);
    assert_eq!(s.phase(), before_phase);
    assert!(s.winning_line().is_empty());
}

#[test]
fn turns_alternate_on_accepted_moves() {
    let mut s = Session::new();
    assert_eq!(s.side(), TTTSide::Cross);
    s.submit_move(Pos2::new(0, 0));
    assert_eq!(s.side(), TTTSide::Circle);
    s.submit_move(Pos2::new(1, 0));
    assert_eq!(s.side(), TTTSide::Cross);
    s.submit_move(Pos2::new(1, 0)); // rejected: no alternation
    assert_eq!(s.side(), TTTSide::Cross);
    s.submit_move(Pos2::new(2, 2));
    assert_eq!(s.side(), TTTSide::Circle);
}

#[test]
fn row_win_scenario() {
    // (0,0)/Cross, (0,1)/Circle, (1,0)/Cross, (1,1)/Circle, (2,0)/Cross:
    // the 5th move completes the top row for Cross.
    let mut s = Session::new();
    s.submit_move(Pos2::new(0, 0));
    s.submit_move(Pos2::new(0, 1));
    s.submit_move(Pos2::new(1, 0));
    s.submit_move(Pos2::new(1, 1));
    assert_eq!(s.phase(), GamePhase::InPlay);
    s.submit_move(Pos2::new(2, 0));
    assert_eq!(s.phase(), GamePhase::WonShowing);
    assert_eq!(s.side(), TTTSide::Cross);
    assert_eq!(
        s.winning_line().as_slice(),
        &[Pos2::new(0, 0), Pos2::new(1, 0), Pos2::new(2, 0)]
    );
}

#[test]
fn winning_move_retains_the_mover_as_winner() {
    let mut s = Session::new();
    s.submit_move(Pos2::new(2, 2)); // Cross
    s.submit_move(Pos2::new(0, 1)); // Circle
    s.submit_move(Pos2::new(2, 0)); // Cross
    s.submit_move(Pos2::new(1, 1)); // Circle
    s.submit_move(Pos2::new(0, 0)); // Cross
    assert_eq!(s.phase(), GamePhase::InPlay);
    s.submit_move(Pos2::new(2, 1)); // Circle completes the middle row
    assert_eq!(s.phase(), GamePhase::WonShowing);
    assert_eq!(s.side(), TTTSide::Circle);
    assert_eq!(
        s.winning_line().as_slice(),
        &[Pos2::new(0, 1), Pos2::new(1, 1), Pos2::new(2, 1)]
    );
}

#[test]
fn moves_are_ignored_while_won_showing() {
    let mut s = Session::new();
    s.submit_move(Pos2::new(0, 0));
    s.submit_move(Pos2::new(0, 1));
    s.submit_move(Pos2::new(1, 0));
    s.submit_move(Pos2::new(1, 1));
    s.submit_move(Pos2::new(2, 0)); // Cross wins
    assert_eq!(s.phase(), GamePhase::WonShowing);

    let before_coords = coords(&s);
    s.submit_move(Pos2::new(2, 2)); // free cell, but ignored in this phase
    assert_eq!(s.phase(), GamePhase::WonShowing);
    assert_eq!(coords(&s), before_coords);
    assert_eq!(s.side(), TTTSide::Cross);
}

#[test]
fn reset_after_win_restores_initial_state() {
    let mut s = Session::new();
    s.submit_move(Pos2::new(0, 0));
    s.submit_move(Pos2::new(0, 1));
    s.submit_move(Pos2::new(1, 0));
    s.submit_move(Pos2::new(1, 1));
    s.submit_move(Pos2::new(2, 0)); // Cross wins
    assert_eq!(s.phase(), GamePhase::WonShowing);

    s.reset();
    assert!(s.history().is_empty());
    assert_eq!(s.side(), TTTSide::Cross);
    assert_eq!(s.phase(), GamePhase::InPlay);
    assert!(s.winning_line().is_empty());

    // The board is playable again.
    s.submit_move(Pos2::new(0, 0));
    assert_eq!(s.history().len(), 1);
}

#[test]
fn reset_is_safe_in_play() {
    let mut s = Session::new();
    s.submit_move(Pos2::new(1, 1));
    s.reset();
    assert!(s.history().is_empty());
    assert_eq!(s.side(), TTTSide::Cross);
    assert_eq!(s.phase(), GamePhase::InPlay);
    assert!(s.winning_line().is_empty());
}

#[test]
fn history_never_exceeds_six_and_cells_stay_distinct() {
    let mut s = Session::new();
    let moves = [
        (0, 0), (1, 0), (2, 0), (0, 1), (1, 1), (2, 1), (1, 2), (0, 0), (1, 0),
    ];
    for &(x, y) in moves.iter() {
        s.submit_move(Pos2::new(x, y));
        assert!(s.history().len() <= 6);
        let cs = coords(&s);
        for i in 0..cs.len() {
            for j in (i + 1)..cs.len() {
                assert_ne!(cs[i], cs[j]);
            }
        }
    }
}

#[test]
fn seventh_move_evicts_the_first() {
    // Six quiet moves fill the window; the 7th accepted move (at a distinct
    // 7th cell) evicts move #1 at (0,0): its coordinate disappears from the
    // snapshot.
    let mut s = Session::new();
    six_quiet_moves(&mut s);
    assert_eq!(s.history().len(), 6);
    assert!(coords(&s).contains(&(0, 0)));

    s.submit_move(Pos2::new(1, 2)); // 7th move, Cross, no win
    assert_eq!(s.phase(), GamePhase::InPlay);
    assert_eq!(s.history().len(), 6);
    assert!(!coords(&s).contains(&(0, 0)));
    assert_eq!(
        coords(&s),
        vec![(1, 0), (2, 0), (0, 1), (1, 1), (2, 1), (1, 2)]
    );
}

#[test]
fn evicted_cell_is_submittable_again() {
    let mut s = Session::new();
    six_quiet_moves(&mut s);
    s.submit_move(Pos2::new(1, 2)); // evicts (0,0)

    // (0,0) is free again: the move is accepted, not ignored.
    let side_before = s.side();
    s.submit_move(Pos2::new(0, 0));
    assert_eq!(s.phase(), GamePhase::InPlay);
    assert!(coords(&s).contains(&(0, 0)));
    assert_eq!(s.history().len(), 6);
    assert_eq!(s.history()[5].pos, Pos2::new(0, 0));
    assert_eq!(s.history()[5].side, side_before);
    assert_eq!(s.side(), side_before.opposite());
}

#[test]
fn win_detection_sees_only_surviving_moves() {
    // Cross marks the whole top row early, but (0,0) is evicted before the
    // row would ever be judged: a line completed and since partially evicted
    // is not reported.
    let mut s = Session::new();
    s.submit_move(Pos2::new(0, 0)); // Cross
    s.submit_move(Pos2::new(0, 2)); // Circle
    s.submit_move(Pos2::new(1, 0)); // Cross
    s.submit_move(Pos2::new(1, 2)); // Circle
    s.submit_move(Pos2::new(1, 1)); // Cross (avoid completing the row yet)
    s.submit_move(Pos2::new(0, 1)); // Circle: window now full
    s.submit_move(Pos2::new(2, 0)); // Cross: evicts (0,0), top row is NOT complete
    assert_eq!(s.phase(), GamePhase::InPlay);
    assert!(!coords(&s).contains(&(0, 0)));
}
