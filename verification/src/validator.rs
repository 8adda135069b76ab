use vstd::prelude::*;

use crate::board::Board;
use crate::color::Color;
use crate::detector::{king_attacked, square_attacked};
use crate::piece::PieceKind;
use crate::rules::{
    abs_diff, clear_diagonal, clear_straight, diag_file, diag_rank, diagonal_line, king_step,
    knight_jump, pawn_capture, pawn_en_passant, pawn_push, spec_attacks, spec_castle,
    spec_is_legal, spec_plain_move, straight_line,
};
use crate::square::Square;

verus! {

/// Distance between two board coordinates.
fn dist(a: u8, b: u8) -> (r: u8)
    ensures
        r as int == abs_diff(a as int, b as int),
{
    if a >= b {
        a - b
    } else {
        b - a
    }
}

/// Whether `from` to `to` is a knight move.
fn knight_jump_ok(from: Square, to: Square) -> (r: bool)
    ensures
        r == knight_jump(from, to),
{
    let df = dist(from.file, to.file);
    let dr = dist(from.rank, to.rank);
    (df == 1 && dr == 2) || (df == 2 && dr == 1)
}

/// Whether `from` to `to` is a single king step.
fn king_step_ok(from: Square, to: Square) -> (r: bool)
    ensures
        r == king_step(from, to),
{
    let df = dist(from.file, to.file);
    let dr = dist(from.rank, to.rank);
    df <= 1 && dr <= 1 && (df != 0 || dr != 0)
}

/// Whether the two squares share a file or rank without being equal.
fn straight_ok(from: Square, to: Square) -> (r: bool)
    ensures
        r == straight_line(from, to),
{
    (from.file == to.file && from.rank != to.rank) || (from.rank == to.rank && from.file
        != to.file)
}

/// Whether the two squares lie on a common diagonal without being equal.
fn diagonal_ok(from: Square, to: Square) -> (r: bool)
    ensures
        r == diagonal_line(from, to),
{
    let df = dist(from.file, to.file);
    let dr = dist(from.rank, to.rank);
    df == dr && df != 0
}

/// Whether every square strictly between `from` and `to` on their common
/// file or rank is empty.
fn clear_straight_ok(board: &Board, from: Square, to: Square) -> (r: bool)
    requires
        board@.wf(),
        from.wf(),
        to.wf(),
        straight_line(from, to),
    ensures
        r == clear_straight(board@, from, to),
{
    if from.rank == to.rank {
        let lo = if from.file < to.file {
            from.file
        } else {
            to.file
        };
        let hi = if from.file < to.file {
            to.file
        } else {
            from.file
        };
        let mut f = lo + 1;
        while f < hi
            invariant
                board@.wf(),
                from.wf(),
                to.wf(),
                from.rank == to.rank,
                lo < 8,
                hi < 8,
                lo as int == if from.file < to.file { from.file as int } else { to.file as int },
                hi as int == if from.file < to.file { to.file as int } else { from.file as int },
                lo < f <= hi,
                forall|g: int| lo < g < f ==> board@.empty_at(g, from.rank as int),
            decreases hi - f,
        {
            let s = Square::new(f, from.rank);
            if board.piece_at(s).is_some() {
                proof {
                    assert(!board@.empty_at(f as int, from.rank as int));
                }
                return false;
            }
            f = f + 1;
        }
        true
    } else {
        let lo = if from.rank < to.rank {
            from.rank
        } else {
            to.rank
        };
        let hi = if from.rank < to.rank {
            to.rank
        } else {
            from.rank
        };
        let mut r = lo + 1;
        while r < hi
            invariant
                board@.wf(),
                from.wf(),
                to.wf(),
                from.rank != to.rank,
                lo < 8,
                hi < 8,
                lo as int == if from.rank < to.rank { from.rank as int } else { to.rank as int },
                hi as int == if from.rank < to.rank { to.rank as int } else { from.rank as int },
                lo < r <= hi,
                forall|g: int| lo < g < r ==> board@.empty_at(from.file as int, g),
            decreases hi - r,
        {
            let s = Square::new(from.file, r);
            if board.piece_at(s).is_some() {
                proof {
                    assert(!board@.empty_at(from.file as int, r as int));
                }
                return false;
            }
            r = r + 1;
        }
        true
    }
}

/// Whether every square strictly between `from` and `to` on their common
/// diagonal is empty.
fn clear_diagonal_ok(board: &Board, from: Square, to: Square) -> (r: bool)
    requires
        board@.wf(),
        from.wf(),
        to.wf(),
        diagonal_line(from, to),
    ensures
        r == clear_diagonal(board@, from, to),
{
    let d = dist(from.file, to.file);
    let mut k: u8 = 1;
    while k < d
        invariant
            board@.wf(),
            from.wf(),
            to.wf(),
            diagonal_line(from, to),
            d as int == abs_diff(from.file as int, to.file as int),
            1 <= k <= d,
            forall|j: int|
                1 <= j < k ==> board@.empty_at(diag_file(from, to, j), diag_rank(from, to, j)),
        decreases d - k,
    {
        let f = if to.file > from.file {
            from.file + k
        } else {
            from.file - k
        };
        let r = if to.rank > from.rank {
            from.rank + k
        } else {
            from.rank - k
        };
        proof {
            assert(f as int == diag_file(from, to, k as int));
            assert(r as int == diag_rank(from, to, k as int));
        }
        let s = Square::new(f, r);
        if board.piece_at(s).is_some() {
            return false;
        }
        k = k + 1;
    }
    true
}

/// Whether a pawn of color `c` may go from `from` to `to`: a push, a
/// capture, or an en-passant capture.
fn pawn_move_ok(board: &Board, c: Color, from: Square, to: Square) -> (r: bool)
    requires
        board@.wf(),
        from.wf(),
        to.wf(),
    ensures
        r == (pawn_push(board@, c, from, to) || pawn_capture(board@, c, from, to)
            || pawn_en_passant(board@, c, from, to)),
{
    let fr = from.rank as i32;
    let tr = to.rank as i32;
    let dir: i32 = if c == Color::White {
        -1
    } else {
        1
    };
    let start: i32 = if c == Color::White {
        6
    } else {
        1
    };
    let single = tr == fr + dir && board.piece_at(to).is_none();
    let double = if fr == start && tr == fr + 2 * dir {
        let mid = Square::new(from.file, (fr + dir) as u8);
        board.piece_at(mid).is_none() && board.piece_at(to).is_none()
    } else {
        false
    };
    let push = from.file == to.file && (single || double);
    let step = tr == fr + dir && dist(from.file, to.file) == 1;
    let capture = step && (match board.piece_at(to) {
        Some(q) => q.color == c.get_opposite(),
        None => false,
    });
    let ep = step && (match board.en_passant_target() {
        Some(t) => t.file == to.file && t.rank == to.rank,
        None => false,
    }) && board.piece_at(to).is_none() && (match board.piece_at(Square::new(to.file, from.rank)) {
        Some(q) => q.kind == PieceKind::Pawn && q.color == c.get_opposite(),
        None => false,
    });
    push || capture || ep
}

/// Whether the raw (non-castling) movement pattern of the piece of color `c`
/// on `from` accepts `to`, with no piece of `c` on `to`.
fn plain_move_ok(board: &Board, c: Color, from: Square, to: Square) -> (r: bool)
    requires
        board@.wf(),
    ensures
        r == spec_plain_move(board@, c, from, to),
{
    if !from.on_board() || !to.on_board() {
        return false;
    }
    if from.file == to.file && from.rank == to.rank {
        return false;
    }
    let p = match board.piece_at(from) {
        Some(p) => p,
        None => {
            return false;
        },
    };
    if p.color != c {
        return false;
    }
    match board.piece_at(to) {
        Some(q) => {
            if q.color == c {
                return false;
            }
        },
        None => {},
    }
    match p.kind {
        PieceKind::Pawn => pawn_move_ok(board, c, from, to),
        PieceKind::Knight => knight_jump_ok(from, to),
        PieceKind::Bishop => diagonal_ok(from, to) && clear_diagonal_ok(board, from, to),
        PieceKind::Rook => straight_ok(from, to) && clear_straight_ok(board, from, to),
        PieceKind::Queen => (straight_ok(from, to) && clear_straight_ok(board, from, to)) || (
        diagonal_ok(from, to) && clear_diagonal_ok(board, from, to)),
        PieceKind::King => king_step_ok(from, to),
    }
}

/// Whether `from` to `to` is an acceptable castle for `c`: right held, rook
/// in place, path empty, king neither in check nor crossing an attacked
/// square.
fn castle_ok(board: &Board, c: Color, from: Square, to: Square) -> (r: bool)
    requires
        board@.wf(),
    ensures
        r == spec_castle(board@, c, from, to),
{
    let hr: u8 = if c == Color::White {
        7
    } else {
        0
    };
    if !(from.file == 4 && from.rank == hr) {
        return false;
    }
    let king_there = match board.piece_at(from) {
        Some(p) => p.kind == PieceKind::King && p.color == c,
        None => false,
    };
    if !king_there {
        return false;
    }
    if !(to.rank == hr && (to.file == 6 || to.file == 2)) {
        return false;
    }
    let opp = c.get_opposite();
    if square_attacked(board, from, opp) {
        return false;
    }
    if to.file == 6 {
        let rook_there = match board.piece_at(Square::new(7, hr)) {
            Some(p) => p.kind == PieceKind::Rook && p.color == c,
            None => false,
        };
        board.castling().king_side(c) && rook_there && board.piece_at(
            Square::new(5, hr),
        ).is_none() && board.piece_at(Square::new(6, hr)).is_none() && !square_attacked(
            board,
            Square::new(5, hr),
            opp,
        ) && !square_attacked(board, Square::new(6, hr), opp)
    } else {
        let rook_there = match board.piece_at(Square::new(0, hr)) {
            Some(p) => p.kind == PieceKind::Rook && p.color == c,
            None => false,
        };
        board.castling().queen_side(c) && rook_there && board.piece_at(
            Square::new(1, hr),
        ).is_none() && board.piece_at(Square::new(2, hr)).is_none() && board.piece_at(
            Square::new(3, hr),
        ).is_none() && !square_attacked(board, Square::new(3, hr), opp) && !square_attacked(
            board,
            Square::new(2, hr),
            opp,
        )
    }
}

/// Whether the piece on `from` attacks the square `to`: the capture pattern
/// alone, with path obstruction for sliding pieces.
pub fn attacks(board: &Board, from: Square, to: Square) -> (r: bool)
    requires
        board@.wf(),
    ensures
        r == spec_attacks(board@, from, to),
{
    if !from.on_board() || !to.on_board() {
        return false;
    }
    if from.file == to.file && from.rank == to.rank {
        return false;
    }
    let p = match board.piece_at(from) {
        Some(p) => p,
        None => {
            return false;
        },
    };
    match p.kind {
        PieceKind::Pawn => {
            let dir: i32 = if p.color == Color::White {
                -1
            } else {
                1
            };
            to.rank as i32 == from.rank as i32 + dir && dist(from.file, to.file) == 1
        },
        PieceKind::Knight => knight_jump_ok(from, to),
        PieceKind::Bishop => diagonal_ok(from, to) && clear_diagonal_ok(board, from, to),
        PieceKind::Rook => straight_ok(from, to) && clear_straight_ok(board, from, to),
        PieceKind::Queen => (straight_ok(from, to) && clear_straight_ok(board, from, to)) || (
        diagonal_ok(from, to) && clear_diagonal_ok(board, from, to)),
        PieceKind::King => king_step_ok(from, to),
    }
}

/// The move validator: whether the candidate move of `color` from `from` to
/// `to` is legal on this board, per piece-movement, obstruction, capture and
/// castling rules, and does not leave the mover's own king attacked.
pub fn is_legal(board: &Board, color: Color, from: Square, to: Square) -> (r: bool)
    requires
        board@.wf(),
    ensures
        r == spec_is_legal(board@, color, from, to),
{
    let pseudo = plain_move_ok(board, color, from, to) || castle_ok(board, color, from, to);
    if !pseudo {
        return false;
    }
    let mut sim = board.scratch();
    sim.apply(color, from, to);
    !king_attacked(&sim, color)
}

} // verus!
