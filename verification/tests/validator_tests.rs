use sol_chess::board::Board;
use sol_chess::color::Color;
use sol_chess::piece::{Piece, PieceKind};
use sol_chess::square::Square;
use sol_chess::validator::is_legal;

fn vsq(file: u8, rank: u8) -> Square {
    Square { file, rank }
}

#[test]
fn pawn_moves_from_start() {
    let b = Board::starting();
    // single and double push are open; a triple is not
    assert!(is_legal(&b, Color::White, vsq(0, 6), vsq(0, 5)));
    assert!(is_legal(&b, Color::White, vsq(0, 6), vsq(0, 4)));
    assert!(!is_legal(&b, Color::White, vsq(0, 6), vsq(0, 3)));
    // a pawn may not move diagonally onto an empty square
    assert!(!is_legal(&b, Color::White, vsq(0, 6), vsq(1, 5)));
    // nor backward
    assert!(!is_legal(&b, Color::White, vsq(0, 6), vsq(0, 7)));
}

#[test]
fn sliding_pieces_are_blocked() {
    let b = Board::starting();
    // rook, bishop and queen are all walled in at the start
    assert!(!is_legal(&b, Color::White, vsq(0, 7), vsq(0, 4)));
    assert!(!is_legal(&b, Color::White, vsq(2, 7), vsq(4, 5)));
    assert!(!is_legal(&b, Color::White, vsq(3, 7), vsq(3, 4)));
    // the knight jumps over the wall
    assert!(is_legal(&b, Color::White, vsq(1, 7), vsq(2, 5)));
    assert!(is_legal(&b, Color::White, vsq(6, 7), vsq(5, 5)));
    assert!(!is_legal(&b, Color::White, vsq(1, 7), vsq(1, 5)));
}

#[test]
fn no_self_capture_and_no_wrong_color() {
    let b = Board::starting();
    // capturing one's own piece is rejected
    assert!(!is_legal(&b, Color::White, vsq(0, 7), vsq(0, 6)));
    // moving the opponent's piece is rejected
    assert!(!is_legal(&b, Color::White, vsq(0, 1), vsq(0, 2)));
    // moving from an empty square is rejected
    assert!(!is_legal(&b, Color::White, vsq(4, 4), vsq(4, 3)));
}

#[test]
fn rook_capture_along_open_file() {
    let mut b = Board::empty();
    b.place(vsq(0, 7), Some(Piece { kind: PieceKind::Rook, color: Color::White }));
    b.place(vsq(0, 2), Some(Piece { kind: PieceKind::Pawn, color: Color::Black }));
    assert!(is_legal(&b, Color::White, vsq(0, 7), vsq(0, 2)));
    // but not past the target
    assert!(!is_legal(&b, Color::White, vsq(0, 7), vsq(0, 1)));
    // and not sideways off the line
    assert!(!is_legal(&b, Color::White, vsq(0, 7), vsq(1, 5)));
}

#[test]
fn pinned_piece_may_not_expose_king() {
    let mut b = Board::empty();
    b.place(vsq(4, 7), Some(Piece { kind: PieceKind::King, color: Color::White }));
    b.place(vsq(4, 5), Some(Piece { kind: PieceKind::Rook, color: Color::White }));
    b.place(vsq(4, 0), Some(Piece { kind: PieceKind::Rook, color: Color::Black }));
    // the White rook shields its king: moving it off the file is illegal
    assert!(!is_legal(&b, Color::White, vsq(4, 5), vsq(5, 5)));
    // moving along the file, staying between king and attacker, is fine
    assert!(is_legal(&b, Color::White, vsq(4, 5), vsq(4, 3)));
    // capturing the attacker is fine too
    assert!(is_legal(&b, Color::White, vsq(4, 5), vsq(4, 0)));
}

#[test]
fn queen_side_castle_relocates_rook_and_clears_rights() {
    // White king e1 and rook a1 alone with the Black king far away: the
    // two-square king move toward the rook is accepted
    let mut b = Board::empty();
    b.place(vsq(4, 7), Some(Piece { kind: PieceKind::King, color: Color::White }));
    b.place(vsq(0, 7), Some(Piece { kind: PieceKind::Rook, color: Color::White }));
    b.place(vsq(4, 0), Some(Piece { kind: PieceKind::King, color: Color::Black }));
    assert!(is_legal(&b, Color::White, vsq(4, 7), vsq(2, 7)));
    b.apply(Color::White, vsq(4, 7), vsq(2, 7));
    assert_eq!(
        b.piece_at(vsq(2, 7)),
        Some(Piece { kind: PieceKind::King, color: Color::White })
    );
    assert_eq!(
        b.piece_at(vsq(3, 7)),
        Some(Piece { kind: PieceKind::Rook, color: Color::White })
    );
    assert_eq!(b.piece_at(vsq(0, 7)), None);
    assert_eq!(b.piece_at(vsq(4, 7)), None);
    assert!(!b.castling().white_king_side);
    assert!(!b.castling().white_queen_side);
}

#[test]
fn castle_rejected_through_attacked_square() {
    let mut b = Board::empty();
    b.place(vsq(4, 7), Some(Piece { kind: PieceKind::King, color: Color::White }));
    b.place(vsq(0, 7), Some(Piece { kind: PieceKind::Rook, color: Color::White }));
    b.place(vsq(4, 0), Some(Piece { kind: PieceKind::King, color: Color::Black }));
    // a Black rook eyes d1, the square the king would cross
    b.place(vsq(3, 0), Some(Piece { kind: PieceKind::Rook, color: Color::Black }));
    assert!(!is_legal(&b, Color::White, vsq(4, 7), vsq(2, 7)));
}

#[test]
fn castle_rejected_when_blocked_or_rights_gone() {
    let mut b = Board::empty();
    b.place(vsq(4, 7), Some(Piece { kind: PieceKind::King, color: Color::White }));
    b.place(vsq(0, 7), Some(Piece { kind: PieceKind::Rook, color: Color::White }));
    b.place(vsq(4, 0), Some(Piece { kind: PieceKind::King, color: Color::Black }));
    // a piece between king and rook blocks the castle
    b.place(vsq(1, 7), Some(Piece { kind: PieceKind::Knight, color: Color::White }));
    assert!(!is_legal(&b, Color::White, vsq(4, 7), vsq(2, 7)));
    b.place(vsq(1, 7), None);
    assert!(is_legal(&b, Color::White, vsq(4, 7), vsq(2, 7)));
    // losing the right (the rook has moved away and back) bars it too
    b.apply(Color::White, vsq(0, 7), vsq(0, 5));
    b.apply(Color::White, vsq(0, 5), vsq(0, 7));
    assert!(!is_legal(&b, Color::White, vsq(4, 7), vsq(2, 7)));
}

#[test]
fn accepted_moves_leave_own_king_safe() {
    // every move the validator accepts on the starting board leaves the
    // mover's king unattacked once applied
    let b = Board::starting();
    let mut accepted = 0;
    for ff in 0..8 {
        for fr in 0..8 {
            for tf in 0..8 {
                for tr in 0..8 {
                    let from = vsq(ff, fr);
                    let to = vsq(tf, tr);
                    if is_legal(&b, Color::White, from, to) {
                        accepted += 1;
                        let mut sim = b.scratch();
                        sim.apply(Color::White, from, to);
                        assert!(!sol_chess::detector::king_attacked(&sim, Color::White));
                    }
                }
            }
        }
    }
    // the standard opening position offers exactly twenty moves
    assert_eq!(accepted, 20);
}

#[test]
fn is_legal_is_deterministic_on_equal_inputs() {
    let b1 = Board::starting();
    let b2 = Board::starting();
    for (from, to) in [
        (vsq(0, 6), vsq(0, 5)),
        (vsq(1, 7), vsq(2, 5)),
        (vsq(0, 7), vsq(0, 4)),
        (vsq(4, 6), vsq(4, 4)),
    ] {
        let first = is_legal(&b1, Color::White, from, to);
        let again = is_legal(&b1, Color::White, from, to);
        let other_board = is_legal(&b2, Color::White, from, to);
        assert_eq!(first, again);
        assert_eq!(first, other_board);
    }
}
