use sol_chess::draw_state::{DrawState, DRAW_HALFMOVE_THRESHOLD};
use sol_chess::time_control::TimeControl;

#[test]
fn draw_clock_counts_quiet_moves_only() {
    let mut d = DrawState::new(4);
    assert!(!d.is_draw_by_rule());
    d.record_move(false);
    d.record_move(false);
    assert_eq!(d.halfmoves, 2);
    // a capture or pawn move starts the count over
    d.record_move(true);
    assert_eq!(d.halfmoves, 0);
    d.record_move(false);
    d.record_move(false);
    d.record_move(false);
    assert!(!d.is_draw_by_rule());
    d.record_move(false);
    assert!(d.is_draw_by_rule());
    // the counter has no reason to grow past the threshold
    d.record_move(false);
    assert_eq!(d.halfmoves, 4);
}

#[test]
fn draw_clock_reset_restores_baseline() {
    let mut d = DrawState::new(DRAW_HALFMOVE_THRESHOLD);
    d.record_move(false);
    d.record_move(false);
    d.reset();
    assert_eq!(d.halfmoves, 0);
    assert_eq!(d.threshold, DRAW_HALFMOVE_THRESHOLD);
    assert!(!d.is_draw_by_rule());
}

#[test]
fn time_control_holds_its_figures() {
    let t = TimeControl::new(300_000, 2_000);
    assert_eq!(t.budget_ms, 300_000);
    assert_eq!(t.increment_ms, 2_000);
}
