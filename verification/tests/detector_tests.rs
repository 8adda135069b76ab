use sol_chess::board::Board;
use sol_chess::color::Color;
use sol_chess::detector::{has_any_legal_move, in_checkmate, in_stalemate, king_attacked, square_attacked};
use sol_chess::piece::{Piece, PieceKind};
use sol_chess::square::Square;

fn dsq(file: u8, rank: u8) -> Square {
    Square { file, rank }
}

#[test]
fn king_attack_detection() {
    let mut b = Board::empty();
    b.place(dsq(4, 7), Some(Piece { kind: PieceKind::King, color: Color::White }));
    b.place(dsq(4, 0), Some(Piece { kind: PieceKind::King, color: Color::Black }));
    assert!(!king_attacked(&b, Color::White));
    b.place(dsq(4, 3), Some(Piece { kind: PieceKind::Rook, color: Color::Black }));
    assert!(king_attacked(&b, Color::White));
    assert!(!king_attacked(&b, Color::Black));
    // a blocker on the file lifts the check
    b.place(dsq(4, 5), Some(Piece { kind: PieceKind::Pawn, color: Color::Black }));
    assert!(!king_attacked(&b, Color::White));
}

#[test]
fn square_attack_patterns() {
    let mut b = Board::empty();
    b.place(dsq(3, 3), Some(Piece { kind: PieceKind::Knight, color: Color::Black }));
    assert!(square_attacked(&b, dsq(4, 5), Color::Black));
    assert!(square_attacked(&b, dsq(5, 2), Color::Black));
    assert!(!square_attacked(&b, dsq(3, 4), Color::Black));
    // a pawn attacks only its two forward diagonals
    b.place(dsq(2, 2), Some(Piece { kind: PieceKind::Pawn, color: Color::Black }));
    assert!(square_attacked(&b, dsq(1, 3), Color::Black));
    assert!(square_attacked(&b, dsq(3, 3), Color::Black));
    assert!(!square_attacked(&b, dsq(2, 3), Color::Black));
}

#[test]
fn cornered_king_is_checkmated() {
    // White king h1, Black queen g2 guarded by the Black king on g3: one
    // attacker, no capture, no block, no flight square
    let mut b = Board::empty();
    b.place(dsq(7, 7), Some(Piece { kind: PieceKind::King, color: Color::White }));
    b.place(dsq(6, 6), Some(Piece { kind: PieceKind::Queen, color: Color::Black }));
    b.place(dsq(6, 5), Some(Piece { kind: PieceKind::King, color: Color::Black }));
    assert!(king_attacked(&b, Color::White));
    assert!(!has_any_legal_move(&b, Color::White));
    assert!(in_checkmate(&b, Color::White));
    assert!(!in_stalemate(&b, Color::White));
}

#[test]
fn guarded_queen_may_not_be_taken() {
    // same position: capturing the guarded queen would leave the king
    // attacked, so the capture is not a legal escape
    let mut b = Board::empty();
    b.place(dsq(7, 7), Some(Piece { kind: PieceKind::King, color: Color::White }));
    b.place(dsq(6, 6), Some(Piece { kind: PieceKind::Queen, color: Color::Black }));
    b.place(dsq(6, 5), Some(Piece { kind: PieceKind::King, color: Color::Black }));
    assert!(!sol_chess::validator::is_legal(&b, Color::White, dsq(7, 7), dsq(6, 6)));
}

#[test]
fn bare_kings_position_is_stalemate_shaped() {
    // Black king h8 cornered by the White king and queen without being in
    // check: no legal move, no check
    let mut b = Board::empty();
    b.place(dsq(7, 0), Some(Piece { kind: PieceKind::King, color: Color::Black }));
    b.place(dsq(5, 1), Some(Piece { kind: PieceKind::Queen, color: Color::White }));
    b.place(dsq(6, 2), Some(Piece { kind: PieceKind::King, color: Color::White }));
    assert!(!king_attacked(&b, Color::Black));
    assert!(!has_any_legal_move(&b, Color::Black));
    assert!(in_stalemate(&b, Color::Black));
    assert!(!in_checkmate(&b, Color::Black));
}

#[test]
fn open_position_has_moves() {
    let b = Board::starting();
    assert!(has_any_legal_move(&b, Color::White));
    assert!(has_any_legal_move(&b, Color::Black));
    assert!(!in_checkmate(&b, Color::White));
    assert!(!in_stalemate(&b, Color::White));
}
