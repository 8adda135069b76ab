use vstd::prelude::*;

use crate::board::Board;
use crate::color::Color;
use crate::piece::{Piece, PieceKind};
use crate::rules::{
    king_square_of, spec_attacks, spec_checkmate, spec_has_any_legal_move, spec_in_check,
    spec_is_legal, spec_square_attacked, spec_stalemate,
};
use crate::square::Square;
use crate::validator::{attacks, is_legal};

verus! {

/// The square with the given row-major cell index.
fn square_of_index(i: usize) -> (s: Square)
    requires
        i < 64,
    ensures
        s.wf(),
        s.idx() == i,
{
    Square::new((i % 8) as u8, (i / 8) as u8)
}

/// Whether some piece of color `by` attacks the square `target`.
pub fn square_attacked(board: &Board, target: Square, by: Color) -> (r: bool)
    requires
        board@.wf(),
    ensures
        r == spec_square_attacked(board@, target, by),
{
    let mut i: usize = 0;
    while i < 64
        invariant
            board@.wf(),
            i <= 64,
            forall|s: Square|
                s.wf() && s.idx() < i ==> !(#[trigger] spec_attacks(board@, s, target) && (
                board@.at_sq(s) matches Some(p) && p.color == by)),
        decreases 64 - i,
    {
        let s = square_of_index(i);
        let hit = match board.piece_at(s) {
            Some(p) => p.color == by && attacks(board, s, target),
            None => false,
        };
        if hit {
            return true;
        }
        proof {
            assert forall|t: Square| t.wf() && t.idx() < i + 1 implies !(#[trigger] spec_attacks(
                board@,
                t,
                target,
            ) && (board@.at_sq(t) matches Some(p) && p.color == by)) by {
                if t.idx() == i {
                    assert(t == s);
                }
            }
        }
        i = i + 1;
    }
    proof {
        assert forall|s: Square| s.wf() implies s.idx() < 64 by {}
    }
    false
}

/// Whether the king of color `c` is attacked by the opponent.
pub fn king_attacked(board: &Board, c: Color) -> (r: bool)
    requires
        board@.wf(),
    ensures
        r == spec_in_check(board@, c),
{
    let opp = c.get_opposite();
    let mut i: usize = 0;
    while i < 64
        invariant
            board@.wf(),
            i <= 64,
            opp == c.spec_opposite(),
            forall|ks: Square|
                ks.wf() && ks.idx() < i ==> !(#[trigger] king_square_of(board@, c, ks)
                    && spec_square_attacked(board@, ks, c.spec_opposite())),
        decreases 64 - i,
    {
        let s = square_of_index(i);
        let is_king = match board.piece_at(s) {
            Some(p) => p.kind == PieceKind::King && p.color == c,
            None => false,
        };
        if is_king {
            proof {
                assert(board@.at_sq(s) == Some(Piece { kind: PieceKind::King, color: c }));
                assert(king_square_of(board@, c, s));
            }
            if square_attacked(board, s, opp) {
                return true;
            }
        }
        proof {
            assert forall|t: Square| t.wf() && t.idx() < i + 1 implies !(#[trigger] king_square_of(
                board@,
                c,
                t,
            ) && spec_square_attacked(board@, t, c.spec_opposite())) by {
                if t.idx() == i {
                    assert(t == s);
                }
            }
        }
        i = i + 1;
    }
    false
}

/// Whether color `c` has at least one legal move on this board.
pub fn has_any_legal_move(board: &Board, c: Color) -> (r: bool)
    requires
        board@.wf(),
    ensures
        r == spec_has_any_legal_move(board@, c),
{
    let mut fi: usize = 0;
    while fi < 64
        invariant
            board@.wf(),
            fi <= 64,
            forall|f: Square, t: Square|
                f.wf() && f.idx() < fi ==> !#[trigger] spec_is_legal(board@, c, f, t),
        decreases 64 - fi,
    {
        let from = square_of_index(fi);
        let mut ti: usize = 0;
        while ti < 64
            invariant
                board@.wf(),
                fi < 64,
                ti <= 64,
                from.wf(),
                from.idx() == fi,
                forall|f: Square, t: Square|
                    f.wf() && f.idx() < fi ==> !#[trigger] spec_is_legal(board@, c, f, t),
                forall|t: Square|
                    t.wf() && t.idx() < ti ==> !#[trigger] spec_is_legal(board@, c, from, t),
            decreases 64 - ti,
        {
            let to = square_of_index(ti);
            if is_legal(board, c, from, to) {
                return true;
            }
            proof {
                assert forall|t: Square| t.wf() && t.idx() < ti + 1
                    implies !#[trigger] spec_is_legal(board@, c, from, t) by {
                    if t.idx() == ti {
                        assert(t == to);
                    }
                }
            }
            ti = ti + 1;
        }
        proof {
            assert forall|f: Square, t: Square| f.wf() && f.idx() < fi + 1
                implies !#[trigger] spec_is_legal(board@, c, f, t) by {
                if f.idx() == fi {
                    assert(f == from);
                    if t.wf() {
                        assert(t.idx() < 64);
                        assert(!spec_is_legal(board@, c, from, t));
                    } else {
                        assert(!spec_is_legal(board@, c, f, t));
                    }
                }
            }
        }
        fi = fi + 1;
    }
    false
}

/// Checkmate: the king of `c` is attacked and `c` has no legal move.
pub fn in_checkmate(board: &Board, c: Color) -> (r: bool)
    requires
        board@.wf(),
    ensures
        r == spec_checkmate(board@, c),
{
    king_attacked(board, c) && !has_any_legal_move(board, c)
}

/// Stalemate: the king of `c` is not attacked, yet `c` has no legal move.
pub fn in_stalemate(board: &Board, c: Color) -> (r: bool)
    requires
        board@.wf(),
    ensures
        r == spec_stalemate(board@, c),
{
    !king_attacked(board, c) && !has_any_legal_move(board, c)
}

} // verus!
