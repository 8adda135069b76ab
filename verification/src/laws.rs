use vstd::prelude::*;

use crate::board::{spec_apply, BoardModel};
use crate::color::Color;
use crate::error::ChessError;
use crate::game_state::{spec_board_after, spec_move_error, Game, GameOutcome, SessionToken};
use crate::piece::{Piece, PieceKind};
use crate::rules::{
    clear_diagonal, clear_straight, king_square_of, kings_ok, one_king, spec_attacks,
    spec_checkmate, spec_in_check, spec_is_legal, spec_plain_move, spec_square_attacked,
};
use crate::square::Square;
use crate::user::User;

verus! {

/// A legal move never captures a king while the opponent is not in check:
/// reaching an occupied square means attacking it, so a king could only be
/// taken out of an already-illegal position.
pub proof fn lemma_legal_move_never_captures_king(
    b: BoardModel,
    c: Color,
    from: Square,
    to: Square,
)
    requires
        spec_is_legal(b, c, from, to),
        !spec_in_check(b, c.spec_opposite()),
    ensures
        !(b.at_sq(to) matches Some(p) && p.kind == PieceKind::King),
{
    if b.at_sq(to) matches Some(p) && p.kind == PieceKind::King {
        // a castle needs an empty destination, so this is a plain move
        assert(spec_plain_move(b, c, from, to));
        // a pawn reaches an occupied square only by its attack step, and
        // every other piece moves exactly by its attack pattern
        assert(spec_attacks(b, from, to));
        assert(spec_square_attacked(b, to, c));
        // the taken king is the opponent's, so the opponent was in check
        assert(king_square_of(b, c.spec_opposite(), to));
        assert(false);
    }
}

/// Whatever move the validator accepts, applying it never leaves the
/// mover's own king attacked.
pub proof fn lemma_legal_move_keeps_king_safe(b: BoardModel, c: Color, from: Square, to: Square)
    requires
        spec_is_legal(b, c, from, to),
    ensures
        !spec_in_check(spec_apply(b, from, to), c),
{
}

/// The validator's answer is a function of board, color and squares alone:
/// identical inputs always yield the identical answer.
pub proof fn lemma_is_legal_deterministic(
    b1: BoardModel,
    b2: BoardModel,
    c1: Color,
    c2: Color,
    from1: Square,
    from2: Square,
    to1: Square,
    to2: Square,
)
    requires
        b1 == b2,
        c1 == c2,
        from1 == from2,
        to1 == to2,
    ensures
        spec_is_legal(b1, c1, from1, to1) == spec_is_legal(b2, c2, from2, to2),
{
}

/// Two squares on the board with the same cell index are the same square.
proof fn lemma_square_idx_injective(a: Square, b: Square)
    requires
        a.wf(),
        b.wf(),
        a.idx() == b.idx(),
    ensures
        a == b,
{
}

/// The board invariant survives every legal move out of a sound position:
/// with exactly one king per color and the side not on move not in check,
/// applying any legal move leaves exactly one king per color.
#[verifier::spinoff_prover]
pub proof fn lemma_legal_move_preserves_kings(b: BoardModel, c: Color, from: Square, to: Square)
    requires
        b.wf(),
        kings_ok(b),
        spec_is_legal(b, c, from, to),
        !spec_in_check(b, c.spec_opposite()),
    ensures
        kings_ok(spec_apply(b, from, to)),
{
    let nb = spec_apply(b, from, to);
    lemma_legal_move_never_captures_king(b, c, from, to);
    let p = choose|p: Piece| b.at_sq(from) == Some(p);
    assert(b.at_sq(from) == Some(p) && p.color == c);
    let wk = choose|s: Square| king_square_of(b, Color::White, s);
    let bk = choose|s: Square| king_square_of(b, Color::Black, s);
    assert(king_square_of(b, Color::White, wk));
    assert(king_square_of(b, Color::Black, bk));
    let mover_king = if c == Color::White {
        wk
    } else {
        bk
    };
    let other_king = if c == Color::White {
        bk
    } else {
        wk
    };
    // where the mover's king stands after the move
    let new_mover_king = if p.kind == PieceKind::King {
        to
    } else {
        mover_king
    };
    // the cells the move touches never collide by accident: equal indices
    // mean equal squares
    assert forall|s1: Square, s2: Square| s1.wf() && s2.wf() && s1 != s2 implies #[trigger] s1.idx()
        != #[trigger] s2.idx() by {
        if s1.idx() == s2.idx() {
            lemma_square_idx_injective(s1, s2);
        }
    }
    assert(king_square_of(nb, c, new_mover_king)) by {
        if p.kind == PieceKind::King {
            assert(king_square_of(b, c, from));
            assert(mover_king == from);
        } else {
            assert(mover_king != from);
            assert(mover_king != to);
        }
    }
    assert(king_square_of(nb, c.spec_opposite(), other_king)) by {
        assert(other_king != from);
        assert(other_king != to);
    }
    assert forall|s: Square| king_square_of(nb, c, s) implies s == new_mover_king by {
        if s != from && s != to && king_square_of(b, c, s) {
            assert(s == mover_king);
        }
    }
    assert forall|s: Square| king_square_of(nb, c.spec_opposite(), s) implies s == other_king by {
        if s != from && s != to && king_square_of(b, c.spec_opposite(), s) {
            assert(s == other_king);
        }
    }
    assert(one_king(nb, c));
    assert(one_king(nb, c.spec_opposite()));
}

/// Neither the kings invariant nor check detection reads the side to move:
/// both carry over to a board that differs only in whose turn it is.
proof fn lemma_soundness_ignores_turn(b1: BoardModel, b2: BoardModel)
    requires
        b1.squares == b2.squares,
        b1.en_passant_target == b2.en_passant_target,
    ensures
        kings_ok(b1) == kings_ok(b2),
        forall|c: Color| spec_in_check(b1, c) == #[trigger] spec_in_check(b2, c),
{
    assert forall|f: int, r: int|
        #![trigger b1.empty_at(f, r)]
        #![trigger b2.empty_at(f, r)]
        b1.empty_at(f, r) == b2.empty_at(f, r) by {}
    assert forall|s: Square|
        #![trigger b1.at_sq(s)]
        #![trigger b2.at_sq(s)]
        b1.at_sq(s) == b2.at_sq(s) by {}
    assert forall|c: Color, s: Square|
        #![trigger king_square_of(b1, c, s)]
        #![trigger king_square_of(b2, c, s)]
        king_square_of(b1, c, s) == king_square_of(b2, c, s) by {}
    assert forall|s: Square, t: Square|
        #![trigger spec_attacks(b1, s, t)]
        #![trigger spec_attacks(b2, s, t)]
        spec_attacks(b1, s, t) == spec_attacks(b2, s, t) by {
        assert(clear_straight(b1, s, t) == clear_straight(b2, s, t));
        assert(clear_diagonal(b1, s, t) == clear_diagonal(b2, s, t));
        assert(b1.at_sq(s) == b2.at_sq(s));
    }
    assert forall|t: Square, by_c: Color| true implies #[trigger] spec_square_attacked(b1, t, by_c)
        == spec_square_attacked(b2, t, by_c) by {
        if spec_square_attacked(b1, t, by_c) {
            let w = choose|s: Square|
                #[trigger] spec_attacks(b1, s, t) && s.wf() && (b1.at_sq(s) matches Some(p)
                    && p.color == by_c);
            assert(spec_attacks(b2, w, t));
        }
        if spec_square_attacked(b2, t, by_c) {
            let w = choose|s: Square|
                #[trigger] spec_attacks(b2, s, t) && s.wf() && (b2.at_sq(s) matches Some(p)
                    && p.color == by_c);
            assert(spec_attacks(b1, w, t));
        }
    }
    assert forall|c: Color| spec_in_check(b1, c) == #[trigger] spec_in_check(b2, c) by {
        if spec_in_check(b1, c) {
            let w = choose|ks: Square|
                #[trigger] king_square_of(b1, c, ks) && spec_square_attacked(
                    b1,
                    ks,
                    c.spec_opposite(),
                );
            assert(king_square_of(b2, c, w));
        }
        if spec_in_check(b2, c) {
            let w = choose|ks: Square|
                #[trigger] king_square_of(b2, c, ks) && spec_square_attacked(
                    b2,
                    ks,
                    c.spec_opposite(),
                );
            assert(king_square_of(b1, c, w));
        }
    }
    assert(kings_ok(b1) == kings_ok(b2)) by {
        assert forall|c: Color| one_king(b1, c) == #[trigger] one_king(b2, c) by {
            if one_king(b1, c) {
                let w = choose|s: Square| #[trigger] king_square_of(b1, c, s);
                assert(king_square_of(b2, c, w));
                assert forall|s1: Square, s2: Square|
                    king_square_of(b2, c, s1) && king_square_of(b2, c, s2) implies s1 == s2 by {
                    assert(king_square_of(b1, c, s1) && king_square_of(b1, c, s2));
                }
            }
            if one_king(b2, c) {
                let w = choose|s: Square| #[trigger] king_square_of(b2, c, s);
                assert(king_square_of(b1, c, w));
                assert forall|s1: Square, s2: Square|
                    king_square_of(b1, c, s1) && king_square_of(b1, c, s2) implies s1 == s2 by {
                    assert(king_square_of(b2, c, s1) && king_square_of(b2, c, s2));
                }
            }
        }
        assert(one_king(b1, Color::White) == one_king(b2, Color::White));
        assert(one_king(b1, Color::Black) == one_king(b2, Color::Black));
    }
}

/// A sound in-progress position stays sound across any accepted move: both
/// kings stay on the board, exactly one each, and the player who just moved
/// (no longer on turn) is not in check in the position handed over.
pub proof fn lemma_accepted_move_keeps_position_sound(g: Game, from: Square, to: Square)
    requires
        g.wf(),
        kings_ok(g.board@),
        spec_is_legal(g.board@, g.board@.side_to_move, from, to),
        !spec_in_check(g.board@, g.board@.side_to_move.spec_opposite()),
    ensures
        kings_ok(spec_board_after(g, from, to)),
        !spec_in_check(
            spec_board_after(g, from, to),
            spec_board_after(g, from, to).side_to_move.spec_opposite(),
        ),
{
    let c = g.board@.side_to_move;
    lemma_legal_move_preserves_kings(g.board@, c, from, to);
    lemma_soundness_ignores_turn(spec_apply(g.board@, from, to), spec_board_after(g, from, to));
}

/// Checkmate of a color means its king was attacked and not one candidate
/// move of that color is accepted on that exact board.
pub proof fn lemma_checkmate_no_escape(b: BoardModel, c: Color)
    requires
        spec_checkmate(b, c),
    ensures
        spec_in_check(b, c),
        forall|from: Square, to: Square| !#[trigger] spec_is_legal(b, c, from, to),
{
}

/// After any accepted move, the side to move is exactly the opponent of the
/// color that just moved.
pub proof fn lemma_turn_alternation(g: Game, from: Square, to: Square)
    ensures
        spec_board_after(g, from, to).side_to_move == g.board@.side_to_move.spec_opposite(),
{
}

/// Once a game is terminal, every further move request is rejected as
/// `GameAlreadyOver` — and by `move_piece`'s contract a rejection leaves
/// game and players unchanged, so settlement can run at most once per game.
pub proof fn lemma_terminal_game_rejects_moves(
    g: Game,
    actor: User,
    payer: u64,
    session: Option<SessionToken>,
    now: i64,
    from: Square,
    to: Square,
)
    requires
        g.outcome != GameOutcome::InProgress,
    ensures
        spec_move_error(g, actor, payer, session, now, from, to) == Some(
            ChessError::GameAlreadyOver,
        ),
{
}

} // verus!
