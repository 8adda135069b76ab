use sol_chess::board::Board;
use sol_chess::color::Color;
use sol_chess::piece::{Piece, PieceKind};
use sol_chess::square::Square;

fn sq(file: u8, rank: u8) -> Square {
    Square { file, rank }
}

#[test]
fn starting_position_layout() {
    let b = Board::starting();
    assert_eq!(b.side_to_move(), Color::White);
    assert_eq!(
        b.piece_at(sq(4, 7)),
        Some(Piece { kind: PieceKind::King, color: Color::White })
    );
    assert_eq!(
        b.piece_at(sq(3, 0)),
        Some(Piece { kind: PieceKind::Queen, color: Color::Black })
    );
    assert_eq!(
        b.piece_at(sq(0, 7)),
        Some(Piece { kind: PieceKind::Rook, color: Color::White })
    );
    assert_eq!(
        b.piece_at(sq(6, 0)),
        Some(Piece { kind: PieceKind::Knight, color: Color::Black })
    );
    for f in 0..8 {
        assert_eq!(
            b.piece_at(sq(f, 6)),
            Some(Piece { kind: PieceKind::Pawn, color: Color::White })
        );
        assert_eq!(
            b.piece_at(sq(f, 1)),
            Some(Piece { kind: PieceKind::Pawn, color: Color::Black })
        );
        for r in 2..6 {
            assert_eq!(b.piece_at(sq(f, r)), None);
        }
    }
    assert!(b.castling().white_king_side);
    assert!(b.castling().black_queen_side);
    assert_eq!(b.en_passant_target(), None);
}

#[test]
fn apply_moves_and_captures() {
    let mut b = Board::starting();
    // a White pawn advances two squares and offers en passant for one move
    b.apply(Color::White, sq(0, 6), sq(0, 4));
    assert_eq!(b.piece_at(sq(0, 6)), None);
    assert_eq!(
        b.piece_at(sq(0, 4)),
        Some(Piece { kind: PieceKind::Pawn, color: Color::White })
    );
    assert_eq!(b.en_passant_target(), Some(sq(0, 5)));
    // a quiet knight move clears the en-passant target again
    b.apply(Color::Black, sq(1, 0), sq(2, 2));
    assert_eq!(b.en_passant_target(), None);
    assert_eq!(
        b.piece_at(sq(2, 2)),
        Some(Piece { kind: PieceKind::Knight, color: Color::Black })
    );
}

#[test]
fn apply_en_passant_removes_passed_pawn() {
    let mut b = Board::empty();
    b.place(sq(4, 3), Some(Piece { kind: PieceKind::Pawn, color: Color::White }));
    b.place(sq(3, 1), Some(Piece { kind: PieceKind::Pawn, color: Color::Black }));
    b.apply(Color::Black, sq(3, 1), sq(3, 3));
    assert_eq!(b.en_passant_target(), Some(sq(3, 2)));
    b.apply(Color::White, sq(4, 3), sq(3, 2));
    assert_eq!(
        b.piece_at(sq(3, 2)),
        Some(Piece { kind: PieceKind::Pawn, color: Color::White })
    );
    // the passed Black pawn is removed from the square it stopped on
    assert_eq!(b.piece_at(sq(3, 3)), None);
    assert_eq!(b.en_passant_target(), None);
}

#[test]
fn apply_promotes_to_queen_by_default() {
    let mut b = Board::empty();
    b.place(sq(0, 1), Some(Piece { kind: PieceKind::Pawn, color: Color::White }));
    b.apply(Color::White, sq(0, 1), sq(0, 0));
    assert_eq!(
        b.piece_at(sq(0, 0)),
        Some(Piece { kind: PieceKind::Queen, color: Color::White })
    );
}

#[test]
fn apply_king_move_forfeits_both_rights() {
    let mut b = Board::starting();
    b.place(sq(4, 6), None);
    b.apply(Color::White, sq(4, 7), sq(4, 6));
    assert!(!b.castling().white_king_side);
    assert!(!b.castling().white_queen_side);
    assert!(b.castling().black_king_side);
    assert!(b.castling().black_queen_side);
}

#[test]
fn apply_rook_move_forfeits_one_right() {
    let mut b = Board::starting();
    b.place(sq(0, 6), None);
    b.apply(Color::White, sq(0, 7), sq(0, 5));
    assert!(!b.castling().white_queen_side);
    assert!(b.castling().white_king_side);
}

#[test]
fn flip_side_hands_turn_over() {
    let mut b = Board::starting();
    b.flip_side();
    assert_eq!(b.side_to_move(), Color::Black);
    b.flip_side();
    assert_eq!(b.side_to_move(), Color::White);
}
