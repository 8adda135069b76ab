use vstd::prelude::*;

use crate::board::{spec_apply, BoardModel};
use crate::color::Color;
use crate::piece::{Piece, PieceKind};
use crate::square::Square;

verus! {

/// Distance between two coordinates.
pub open spec fn abs_diff(a: int, b: int) -> int {
    if a >= b {
        a - b
    } else {
        b - a
    }
}

/// A knight move: one file and two ranks, or two files and one rank.
pub open spec fn knight_jump(from: Square, to: Square) -> bool {
    let df = abs_diff(from.file as int, to.file as int);
    let dr = abs_diff(from.rank as int, to.rank as int);
    (df == 1 && dr == 2) || (df == 2 && dr == 1)
}

/// A single king step: at most one square in each direction, not standing
/// still.
pub open spec fn king_step(from: Square, to: Square) -> bool {
    let df = abs_diff(from.file as int, to.file as int);
    let dr = abs_diff(from.rank as int, to.rank as int);
    df <= 1 && dr <= 1 && (df != 0 || dr != 0)
}

/// The two squares share a file or a rank, and differ.
pub open spec fn straight_line(from: Square, to: Square) -> bool {
    (from.file == to.file && from.rank != to.rank) || (from.rank == to.rank && from.file
        != to.file)
}

/// The two squares lie on a common diagonal, and differ.
pub open spec fn diagonal_line(from: Square, to: Square) -> bool {
    let df = abs_diff(from.file as int, to.file as int);
    let dr = abs_diff(from.rank as int, to.rank as int);
    df == dr && df != 0
}

/// Every square strictly between `from` and `to` on their common file or
/// rank is empty.
pub open spec fn clear_straight(b: BoardModel, from: Square, to: Square) -> bool {
    if from.rank == to.rank {
        let lo = if from.file < to.file {
            from.file as int
        } else {
            to.file as int
        };
        let hi = if from.file < to.file {
            to.file as int
        } else {
            from.file as int
        };
        forall|f: int| lo < f < hi ==> b.empty_at(f, from.rank as int)
    } else {
        let lo = if from.rank < to.rank {
            from.rank as int
        } else {
            to.rank as int
        };
        let hi = if from.rank < to.rank {
            to.rank as int
        } else {
            from.rank as int
        };
        forall|r: int| lo < r < hi ==> b.empty_at(from.file as int, r)
    }
}

/// File of the `k`-th square on the diagonal from `from` toward `to`.
pub open spec fn diag_file(from: Square, to: Square, k: int) -> int {
    if to.file > from.file {
        from.file + k
    } else {
        from.file - k
    }
}

/// Rank of the `k`-th square on the diagonal from `from` toward `to`.
pub open spec fn diag_rank(from: Square, to: Square, k: int) -> int {
    if to.rank > from.rank {
        from.rank + k
    } else {
        from.rank - k
    }
}

/// Every square strictly between `from` and `to` on their common diagonal is
/// empty.
pub open spec fn clear_diagonal(b: BoardModel, from: Square, to: Square) -> bool {
    let d = abs_diff(from.file as int, to.file as int);
    forall|k: int| 1 <= k < d ==> b.empty_at(diag_file(from, to, k), diag_rank(from, to, k))
}

/// Direction a pawn of the given color advances in: White toward rank 0,
/// Black toward rank 7.
pub open spec fn pawn_dir(c: Color) -> int {
    match c {
        Color::White => -1,
        Color::Black => 1,
    }
}

/// The rank a pawn of the given color starts on, from which it may advance
/// two squares.
pub open spec fn pawn_start_rank(c: Color) -> int {
    match c {
        Color::White => 6,
        Color::Black => 1,
    }
}

/// The home rank of the given color, where its king and rooks start.
pub open spec fn home_rank(c: Color) -> int {
    match c {
        Color::White => 7,
        Color::Black => 0,
    }
}

/// One diagonal step forward: the squares a pawn of color `c` on `from`
/// attacks.
pub open spec fn pawn_attack_step(c: Color, from: Square, to: Square) -> bool {
    to.rank as int == from.rank as int + pawn_dir(c) && abs_diff(
        from.file as int,
        to.file as int,
    ) == 1
}

/// A non-capturing pawn advance: one square forward onto an empty square, or
/// two from the start rank with both squares empty.
pub open spec fn pawn_push(b: BoardModel, c: Color, from: Square, to: Square) -> bool {
    from.file == to.file && ((to.rank as int == from.rank as int + pawn_dir(c) && b.empty_at(
        to.file as int,
        to.rank as int,
    )) || (from.rank as int == pawn_start_rank(c) && to.rank as int == from.rank as int + 2
        * pawn_dir(c) && b.empty_at(from.file as int, from.rank as int + pawn_dir(c)) && b.empty_at(
        to.file as int,
        to.rank as int,
    )))
}

/// A pawn capture: one diagonal step forward onto an opposing piece.
pub open spec fn pawn_capture(b: BoardModel, c: Color, from: Square, to: Square) -> bool {
    pawn_attack_step(c, from, to) && (b.at_sq(to) matches Some(q) && q.color == c.spec_opposite())
}

/// An en-passant capture: one diagonal step forward onto the current
/// en-passant target, which is empty, with the passed opposing pawn beside
/// the mover.
pub open spec fn pawn_en_passant(b: BoardModel, c: Color, from: Square, to: Square) -> bool {
    &&& pawn_attack_step(c, from, to)
    &&& b.en_passant_target == Some(to)
    &&& b.at_sq(to) is None
    &&& (b.at(to.file as int, from.rank as int) matches Some(q) && q.kind == PieceKind::Pawn
        && q.color == c.spec_opposite())
}

/// The piece on `from` attacks the square `to`: its capture pattern reaches
/// `to`, with nothing in the way of a sliding piece. Whether `to` is
/// occupied, and by whom, plays no part.
pub open spec fn spec_attacks(b: BoardModel, from: Square, to: Square) -> bool {
    &&& from.wf()
    &&& to.wf()
    &&& from != to
    &&& match b.at_sq(from) {
        Some(p) => match p.kind {
            PieceKind::Pawn => pawn_attack_step(p.color, from, to),
            PieceKind::Knight => knight_jump(from, to),
            PieceKind::Bishop => diagonal_line(from, to) && clear_diagonal(b, from, to),
            PieceKind::Rook => straight_line(from, to) && clear_straight(b, from, to),
            PieceKind::Queen => (straight_line(from, to) && clear_straight(b, from, to)) || (
            diagonal_line(from, to) && clear_diagonal(b, from, to)),
            PieceKind::King => king_step(from, to),
        },
        None => false,
    }
}

/// Some piece of color `by` attacks the square `target`.
pub open spec fn spec_square_attacked(b: BoardModel, target: Square, by: Color) -> bool {
    exists|s: Square| #[trigger] spec_attacks(b, s, target) && s.wf() && (b.at_sq(s) matches Some(p)
        && p.color == by)
}

/// `s` holds the king of color `c`.
pub open spec fn king_square_of(b: BoardModel, c: Color, s: Square) -> bool {
    s.wf() && b.at_sq(s) == Some(Piece { kind: PieceKind::King, color: c })
}

/// The king of color `c` stands on a square attacked by the opponent.
pub open spec fn spec_in_check(b: BoardModel, c: Color) -> bool {
    exists|ks: Square| #[trigger] king_square_of(b, c, ks) && spec_square_attacked(
        b,
        ks,
        c.spec_opposite(),
    )
}

/// Exactly one king of color `c` stands on the board.
pub open spec fn one_king(b: BoardModel, c: Color) -> bool {
    &&& exists|s: Square| king_square_of(b, c, s)
    &&& forall|s1: Square, s2: Square|
        king_square_of(b, c, s1) && king_square_of(b, c, s2) ==> s1 == s2
}

/// The board invariant of a game in progress: exactly one king per color.
pub open spec fn kings_ok(b: BoardModel) -> bool {
    one_king(b, Color::White) && one_king(b, Color::Black)
}

/// The destination holds no piece of the mover's own color.
pub open spec fn dest_ok(b: BoardModel, c: Color, to: Square) -> bool {
    match b.at_sq(to) {
        Some(q) => q.color != c,
        None => true,
    }
}

/// A move of a piece of color `c` whose raw pattern is valid: the piece
/// belongs to `c`, the destination holds no piece of `c`, and the piece
/// kind's movement pattern (with path obstruction for sliding pieces, and
/// pawn pushes, captures and en passant) reaches `to`. Castling is separate,
/// and king safety is not considered here.
pub open spec fn spec_plain_move(b: BoardModel, c: Color, from: Square, to: Square) -> bool {
    &&& from.wf()
    &&& to.wf()
    &&& from != to
    &&& match b.at_sq(from) {
        Some(p) => p.color == c && dest_ok(b, c, to) && match p.kind {
            PieceKind::Pawn => pawn_push(b, c, from, to) || pawn_capture(b, c, from, to)
                || pawn_en_passant(b, c, from, to),
            PieceKind::Knight => knight_jump(from, to),
            PieceKind::Bishop => diagonal_line(from, to) && clear_diagonal(b, from, to),
            PieceKind::Rook => straight_line(from, to) && clear_straight(b, from, to),
            PieceKind::Queen => (straight_line(from, to) && clear_straight(b, from, to)) || (
            diagonal_line(from, to) && clear_diagonal(b, from, to)),
            PieceKind::King => king_step(from, to),
        },
        None => false,
    }
}

/// A castle: the king of color `c` stands on its start square and moves two
/// files toward a rook of its own on the corner of that wing, the right for
/// that wing is still held, the squares between king and rook are empty, the
/// king is not in check, and neither square the king crosses (including the
/// destination) is attacked by the opponent.
pub open spec fn spec_castle(b: BoardModel, c: Color, from: Square, to: Square) -> bool {
    let hr = home_rank(c);
    &&& from == (Square { file: 4, rank: hr as u8 })
    &&& b.at_sq(from) == Some(Piece { kind: PieceKind::King, color: c })
    &&& to.rank as int == hr
    &&& (to.file == 6 || to.file == 2)
    &&& !spec_square_attacked(b, from, c.spec_opposite())
    &&& if to.file == 6 {
        &&& b.castling.spec_king_side(c)
        &&& b.at(7, hr) == Some(Piece { kind: PieceKind::Rook, color: c })
        &&& b.empty_at(5, hr)
        &&& b.empty_at(6, hr)
        &&& !spec_square_attacked(b, Square { file: 5, rank: hr as u8 }, c.spec_opposite())
        &&& !spec_square_attacked(b, Square { file: 6, rank: hr as u8 }, c.spec_opposite())
    } else {
        &&& b.castling.spec_queen_side(c)
        &&& b.at(0, hr) == Some(Piece { kind: PieceKind::Rook, color: c })
        &&& b.empty_at(1, hr)
        &&& b.empty_at(2, hr)
        &&& b.empty_at(3, hr)
        &&& !spec_square_attacked(b, Square { file: 3, rank: hr as u8 }, c.spec_opposite())
        &&& !spec_square_attacked(b, Square { file: 2, rank: hr as u8 }, c.spec_opposite())
    }
}

/// The move's pattern is acceptable before king safety is considered.
pub open spec fn spec_pseudo_legal(b: BoardModel, c: Color, from: Square, to: Square) -> bool {
    spec_plain_move(b, c, from, to) || spec_castle(b, c, from, to)
}

/// The move validator's decision: the move's pattern is acceptable, and after
/// applying it the mover's own king is not attacked.
pub open spec fn spec_is_legal(b: BoardModel, c: Color, from: Square, to: Square) -> bool {
    spec_pseudo_legal(b, c, from, to) && !spec_in_check(spec_apply(b, from, to), c)
}

/// Color `c` has at least one legal move.
pub open spec fn spec_has_any_legal_move(b: BoardModel, c: Color) -> bool {
    exists|from: Square, to: Square| #[trigger] spec_is_legal(b, c, from, to)
}

/// Checkmate: in check with no legal move.
pub open spec fn spec_checkmate(b: BoardModel, c: Color) -> bool {
    spec_in_check(b, c) && !spec_has_any_legal_move(b, c)
}

/// Stalemate: no legal move, yet not in check.
pub open spec fn spec_stalemate(b: BoardModel, c: Color) -> bool {
    !spec_in_check(b, c) && !spec_has_any_legal_move(b, c)
}

} // verus!
