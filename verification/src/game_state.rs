use vstd::prelude::*;

use crate::board::{spec_apply, spec_starting_board, Board, BoardModel};
use crate::color::Color;
use crate::detector::{in_checkmate, in_stalemate, king_attacked};
use crate::draw_state::{DrawState, DRAW_HALFMOVE_THRESHOLD};
use crate::error::ChessError;
use crate::laws::lemma_accepted_move_keeps_position_sound;
use crate::piece::PieceKind;
use crate::rules::{kings_ok, spec_checkmate, spec_in_check, spec_is_legal, spec_stalemate};
use crate::square::Square;
use crate::time_control::TimeControl;
use crate::user::{
    spec_inc, spec_rating_drawn, spec_rating_lost, spec_rating_won, User,
};
use crate::validator::is_legal;

verus! {

/// How a game stands: still open, decided for one side, or drawn. A game
/// won by resignation carries the winner's outcome as well.
#[derive(Clone, Copy, PartialEq, Eq, Structural, Debug)]
pub enum GameOutcome {
    InProgress,
    WhiteWins,
    BlackWins,
    Draw,
}

/// The outcome that declares `c` the winner.
pub open spec fn spec_winner_outcome(c: Color) -> GameOutcome {
    match c {
        Color::White => GameOutcome::WhiteWins,
        Color::Black => GameOutcome::BlackWins,
    }
}

/// A delegated, time-limited session credential, already reduced to plain
/// values by the authorization collaborator: the canonical identity it
/// stands for, and when it stops being valid.
#[derive(Clone, Copy, PartialEq, Eq, Structural, Debug)]
pub struct SessionToken {
    pub authority: u64,
    pub valid_until: i64,
}

/// One game: the board, draw tracking, the two seats (vacant before a
/// player joins), stake and rating flags, and the outcome. Mutated only
/// through `join_game`, `move_piece` and `resign`.
pub struct Game {
    pub board: Board,
    pub draw_state: DrawState,
    pub white: Option<u64>,
    pub black: Option<u64>,
    pub is_rated: bool,
    pub wager: Option<u64>,
    pub time_control: Option<TimeControl>,
    pub outcome: GameOutcome,
}

/// Authorization of the acting caller as the claimed player: with a session
/// credential, the credential must stand for the claimed identity and not be
/// expired; without one, the caller must be the claimed player itself.
pub open spec fn spec_auth_error(
    user_id: u64,
    payer: u64,
    session: Option<SessionToken>,
    now: i64,
) -> Option<ChessError> {
    match session {
        Some(t) => if user_id != t.authority || now >= t.valid_until {
            Some(ChessError::InvalidToken)
        } else {
            None
        },
        None => if user_id != payer {
            Some(ChessError::InvalidUser)
        } else {
            None
        },
    }
}

/// Whether this move resets the draw clock: it captures (including en
/// passant, where the pawn moves sideways) or moves a pawn.
pub open spec fn spec_move_resets_clock(b: BoardModel, from: Square, to: Square) -> bool {
    b.at_sq(to) is Some || (b.at_sq(from) matches Some(p) && p.kind == PieceKind::Pawn)
}

/// The winner's record after settlement: the pot (twice the wager, the
/// loser's stake having been escrowed at wager time) credited, the rating
/// adjusted when the game is rated, and one more win.
pub open spec fn spec_settled_winner(
    u: User,
    opp_rating: u32,
    wager: Option<u64>,
    rated: bool,
) -> User {
    User {
        balance: match wager {
            Some(w) => (u.balance + 2 * w) as u64,
            None => u.balance,
        },
        rating: if rated {
            spec_rating_won(u.rating, opp_rating)
        } else {
            u.rating
        },
        wins: spec_inc(u.wins),
        ..u
    }
}

/// The loser's record after settlement: nothing further debited, the rating
/// adjusted when the game is rated, and one more loss.
pub open spec fn spec_settled_loser(u: User, opp_rating: u32, rated: bool) -> User {
    User {
        rating: if rated {
            spec_rating_lost(u.rating, opp_rating)
        } else {
            u.rating
        },
        losses: spec_inc(u.losses),
        ..u
    }
}

/// A drawn player's record after settlement: the own stake returned, the
/// rating nudged when the game is rated, and one more draw.
pub open spec fn spec_settled_draw(
    u: User,
    opp_rating: u32,
    wager: Option<u64>,
    rated: bool,
) -> User {
    User {
        balance: match wager {
            Some(w) => (u.balance + w) as u64,
            None => u.balance,
        },
        rating: if rated {
            spec_rating_drawn(u.rating, opp_rating)
        } else {
            u.rating
        },
        draws: spec_inc(u.draws),
        ..u
    }
}

impl Game {
    /// The game's state is meaningful: the board is well formed.
    pub open spec fn wf(self) -> bool {
        self.board@.wf()
    }

    /// The player seated on the given color, if any.
    pub open spec fn spec_seat(self, c: Color) -> Option<u64> {
        match c {
            Color::White => self.white,
            Color::Black => self.black,
        }
    }
}

/// The first rejection `move_piece` meets on this request, if any: a
/// terminal game, a failed authorization, a seat that is not the actor's or
/// not on turn, or an illegal move. `None` means the move is accepted.
pub open spec fn spec_move_error(
    g: Game,
    actor: User,
    payer: u64,
    session: Option<SessionToken>,
    now: i64,
    from: Square,
    to: Square,
) -> Option<ChessError> {
    let c = g.board@.side_to_move;
    if g.outcome != GameOutcome::InProgress {
        Some(ChessError::GameAlreadyOver)
    } else if spec_auth_error(actor.id, payer, session, now) is Some {
        spec_auth_error(actor.id, payer, session, now)
    } else if g.spec_seat(c) != Some(actor.id) {
        Some(ChessError::NotUsersTurn)
    } else if !spec_is_legal(g.board@, c, from, to) {
        Some(ChessError::InvalidMove)
    } else {
        None
    }
}

/// The board after an accepted move: the move applied, and the turn handed
/// to the opponent.
pub open spec fn spec_board_after(g: Game, from: Square, to: Square) -> BoardModel {
    BoardModel {
        side_to_move: g.board@.side_to_move.spec_opposite(),
        ..spec_apply(g.board@, from, to)
    }
}

/// The draw tracker after an accepted move.
pub open spec fn spec_draw_state_after(g: Game, from: Square, to: Square) -> DrawState {
    g.draw_state.spec_after_move(spec_move_resets_clock(g.board@, from, to))
}

/// The outcome after an accepted move: checkmate of the opponent decides
/// the game for the mover; stalemate of the opponent or the draw rule draws
/// it; anything else leaves it in progress.
pub open spec fn spec_outcome_after(g: Game, from: Square, to: Square) -> GameOutcome {
    let mover = g.board@.side_to_move;
    let nb = spec_board_after(g, from, to);
    if spec_checkmate(nb, mover.spec_opposite()) {
        spec_winner_outcome(mover)
    } else if spec_stalemate(nb, mover.spec_opposite()) || spec_draw_state_after(
        g,
        from,
        to,
    ).spec_is_draw() {
        GameOutcome::Draw
    } else {
        GameOutcome::InProgress
    }
}

/// The first rejection `resign` meets on this request, if any: a terminal
/// game, a failed authorization, or an actor not seated in this game.
pub open spec fn spec_resign_error(
    g: Game,
    actor: User,
    payer: u64,
    session: Option<SessionToken>,
    now: i64,
) -> Option<ChessError> {
    if g.outcome != GameOutcome::InProgress {
        Some(ChessError::GameAlreadyOver)
    } else if spec_auth_error(actor.id, payer, session, now) is Some {
        spec_auth_error(actor.id, payer, session, now)
    } else if g.white != Some(actor.id) && g.black != Some(actor.id) {
        Some(ChessError::InvalidUser)
    } else {
        None
    }
}

/// The color a seated resigner gives up: their own seat's color (White
/// chosen deterministically where one identity holds both seats).
pub open spec fn spec_resigner_color(g: Game, actor: User) -> Color {
    if g.white == Some(actor.id) {
        Color::White
    } else {
        Color::Black
    }
}

/// A fresh game: standard starting position, empty seats, the standard
/// draw threshold, no clock, and play open.
pub fn initialize_game(is_rated: bool, wager: Option<u64>) -> (g: Game)
    ensures
        g.board@ == spec_starting_board(),
        g.draw_state == (DrawState { halfmoves: 0, threshold: DRAW_HALFMOVE_THRESHOLD }),
        g.white is None,
        g.black is None,
        g.is_rated == is_rated,
        g.wager == wager,
        g.time_control is None,
        g.outcome == GameOutcome::InProgress,
        g.wf(),
{
    Game {
        board: Board::starting(),
        draw_state: DrawState::new(DRAW_HALFMOVE_THRESHOLD),
        white: None,
        black: None,
        is_rated,
        wager,
        time_control: None,
        outcome: GameOutcome::InProgress,
    }
}

impl Game {
    /// Seat `user_id` on `color`. Rejected with `SeatTaken` if and only if
    /// that seat is already occupied, and a rejection changes nothing.
    pub fn join_game(&mut self, user_id: u64, color: Color) -> (r: Result<(), ChessError>)
        ensures
            match r {
                Result::Ok(_) => {
                    &&& old(self).spec_seat(color) is None
                    &&& final(self).spec_seat(color) == Some(user_id)
                    &&& final(self).spec_seat(color.spec_opposite()) == old(self).spec_seat(
                        color.spec_opposite(),
                    )
                    &&& final(self).board == old(self).board
                    &&& final(self).draw_state == old(self).draw_state
                    &&& final(self).is_rated == old(self).is_rated
                    &&& final(self).wager == old(self).wager
                    &&& final(self).time_control == old(self).time_control
                    &&& final(self).outcome == old(self).outcome
                },
                Result::Err(e) => {
                    &&& e == ChessError::SeatTaken
                    &&& old(self).spec_seat(color) is Some
                    &&& *final(self) == *old(self)
                },
            },
    {
        match color {
            Color::White => {
                if self.white.is_some() {
                    return Err(ChessError::SeatTaken);
                }
                self.white = Some(user_id);
            },
            Color::Black => {
                if self.black.is_some() {
                    return Err(ChessError::SeatTaken);
                }
                self.black = Some(user_id);
            },
        }
        Ok(())
    }

    /// One full turn of the state machine: authorize the actor, check turn
    /// ownership, validate the move, apply it, re-check the mover's king as
    /// a safety net, hand the turn over, track the draw clock, detect a
    /// terminal outcome and settle it. A rejection (the first of
    /// `spec_move_error`) leaves game and players untouched; an accepted
    /// move flips the side to move to the mover's opponent and settles at
    /// most one terminal outcome.
    pub fn move_piece(
        &mut self,
        user: &mut User,
        adversary: &mut User,
        payer: u64,
        session: Option<SessionToken>,
        now: i64,
        from: Square,
        to: Square,
    ) -> (r: Result<(), ChessError>)
        requires
            old(self).wf(),
            old(self).white is Some,
            old(self).black is Some,
            old(self).spec_seat(old(self).board@.side_to_move.spec_opposite()) == Some(
                old(adversary).id,
            ),
            old(self).wager matches Some(w) ==> old(user).balance + 2 * w <= u64::MAX && old(
                adversary,
            ).balance + 2 * w <= u64::MAX,
        ensures
            final(self).wf(),
            match r {
                Result::Err(e) => {
                    &&& spec_move_error(*old(self), *old(user), payer, session, now, from, to)
                        == Some(e)
                    &&& *final(self) == *old(self)
                    &&& *final(user) == *old(user)
                    &&& *final(adversary) == *old(adversary)
                },
                Result::Ok(_) => {
                    let mover = old(self).board@.side_to_move;
                    let outcome = spec_outcome_after(*old(self), from, to);
                    &&& spec_move_error(*old(self), *old(user), payer, session, now, from, to)
                        is None
                    &&& final(self).board@ == spec_board_after(*old(self), from, to)
                    &&& final(self).board@.side_to_move == mover.spec_opposite()
                    &&& final(self).draw_state == spec_draw_state_after(*old(self), from, to)
                    &&& final(self).outcome == outcome
                    &&& final(self).white == old(self).white
                    &&& final(self).black == old(self).black
                    &&& final(self).is_rated == old(self).is_rated
                    &&& final(self).wager == old(self).wager
                    &&& final(self).time_control == old(self).time_control
                    &&& (kings_ok(old(self).board@) && !spec_in_check(
                        old(self).board@,
                        mover.spec_opposite(),
                    )) ==> (kings_ok(final(self).board@) && !spec_in_check(
                        final(self).board@,
                        mover,
                    ))
                    &&& if outcome == spec_winner_outcome(mover) {
                        &&& *final(user) == spec_settled_winner(
                            *old(user),
                            old(adversary).rating,
                            old(self).wager,
                            old(self).is_rated,
                        )
                        &&& *final(adversary) == spec_settled_loser(
                            *old(adversary),
                            old(user).rating,
                            old(self).is_rated,
                        )
                    } else if outcome == GameOutcome::Draw {
                        &&& *final(user) == spec_settled_draw(
                            *old(user),
                            old(adversary).rating,
                            old(self).wager,
                            old(self).is_rated,
                        )
                        &&& *final(adversary) == spec_settled_draw(
                            *old(adversary),
                            old(user).rating,
                            old(self).wager,
                            old(self).is_rated,
                        )
                    } else {
                        *final(user) == *old(user) && *final(adversary) == *old(adversary)
                    }
                },
            },
    {
        if !matches!(self.outcome, GameOutcome::InProgress) {
            return Err(ChessError::GameAlreadyOver);
        }
        match session {
            Some(t) => {
                if user.id != t.authority || now >= t.valid_until {
                    return Err(ChessError::InvalidToken);
                }
            },
            None => {
                if user.id != payer {
                    return Err(ChessError::InvalidUser);
                }
            },
        }
        let color = self.board.side_to_move();
        let seat = match color {
            Color::White => self.white,
            Color::Black => self.black,
        };
        let seat_ok = match seat {
            Some(sid) => sid == user.id,
            None => false,
        };
        if !seat_ok {
            return Err(ChessError::NotUsersTurn);
        }
        if !is_legal(&self.board, color, from, to) {
            return Err(ChessError::InvalidMove);
        }
        let resets_clock = self.board.piece_at(to).is_some() || (match self.board.piece_at(from) {
            Some(p) => p.kind == PieceKind::Pawn,
            None => false,
        });
        self.board.apply(color, from, to);
        // Safety net behind the validator: a move that leaves the mover's
        // own king attacked is rejected even here.
        if king_attacked(&self.board, color) {
            return Err(ChessError::KingInCheck);
        }
        self.board.flip_side();
        self.draw_state.record_move(resets_clock);
        proof {
            assert(self.board@ =~= spec_board_after(*old(self), from, to));
            if kings_ok(old(self).board@) && !spec_in_check(
                old(self).board@,
                color.spec_opposite(),
            ) {
                lemma_accepted_move_keeps_position_sound(*old(self), from, to);
            }
        }
        let opp_color = color.get_opposite();
        let mate = in_checkmate(&self.board, opp_color);
        let stale = in_stalemate(&self.board, opp_color);
        let user_elo = user.get_elo();
        let adversary_elo = adversary.get_elo();
        if mate {
            self.outcome = match color {
                Color::White => GameOutcome::WhiteWins,
                Color::Black => GameOutcome::BlackWins,
            };
            match self.wager {
                Some(w) => user.increase_balance(2 * w),
                None => {},
            }
            if self.is_rated {
                user.won_against(adversary_elo);
                adversary.lost_against(user_elo);
            } else {
                user.record_win();
                adversary.record_loss();
            }
            Ok(())
        } else if stale || self.draw_state.is_draw_by_rule() {
            self.outcome = GameOutcome::Draw;
            match self.wager {
                Some(w) => {
                    user.increase_balance(w);
                    adversary.increase_balance(w);
                },
                None => {},
            }
            if self.is_rated {
                user.drew_against(adversary_elo);
                adversary.drew_against(user_elo);
            } else {
                user.record_draw();
                adversary.record_draw();
            }
            Ok(())
        } else {
            Ok(())
        }
    }

    /// Resignation by a seated player: the game ends at once, decided for
    /// the opponent, and is settled as any other decisive result. A
    /// rejection (the first of `spec_resign_error`) changes nothing.
    pub fn resign(
        &mut self,
        user: &mut User,
        adversary: &mut User,
        payer: u64,
        session: Option<SessionToken>,
        now: i64,
    ) -> (r: Result<(), ChessError>)
        requires
            old(self).wf(),
            old(self).white == Some(old(user).id) ==> old(self).black == Some(old(adversary).id),
            old(self).white != Some(old(user).id) && old(self).black == Some(old(user).id) ==> old(
                self,
            ).white == Some(old(adversary).id),
            old(self).wager matches Some(w) ==> old(adversary).balance + 2 * w <= u64::MAX,
        ensures
            final(self).wf(),
            match r {
                Result::Err(e) => {
                    &&& spec_resign_error(*old(self), *old(user), payer, session, now) == Some(e)
                    &&& *final(self) == *old(self)
                    &&& *final(user) == *old(user)
                    &&& *final(adversary) == *old(adversary)
                },
                Result::Ok(_) => {
                    let loser_color = spec_resigner_color(*old(self), *old(user));
                    &&& spec_resign_error(*old(self), *old(user), payer, session, now) is None
                    &&& final(self).outcome == spec_winner_outcome(loser_color.spec_opposite())
                    &&& final(self).board == old(self).board
                    &&& final(self).draw_state == old(self).draw_state
                    &&& final(self).white == old(self).white
                    &&& final(self).black == old(self).black
                    &&& final(self).is_rated == old(self).is_rated
                    &&& final(self).wager == old(self).wager
                    &&& final(self).time_control == old(self).time_control
                    &&& *final(adversary) == spec_settled_winner(
                        *old(adversary),
                        old(user).rating,
                        old(self).wager,
                        old(self).is_rated,
                    )
                    &&& *final(user) == spec_settled_loser(
                        *old(user),
                        old(adversary).rating,
                        old(self).is_rated,
                    )
                },
            },
    {
        if !matches!(self.outcome, GameOutcome::InProgress) {
            return Err(ChessError::GameAlreadyOver);
        }
        match session {
            Some(t) => {
                if user.id != t.authority || now >= t.valid_until {
                    return Err(ChessError::InvalidToken);
                }
            },
            None => {
                if user.id != payer {
                    return Err(ChessError::InvalidUser);
                }
            },
        }
        let seated_white = match self.white {
            Some(w) => w == user.id,
            None => false,
        };
        let seated_black = match self.black {
            Some(b) => b == user.id,
            None => false,
        };
        if !seated_white && !seated_black {
            return Err(ChessError::InvalidUser);
        }
        let loser_color = if seated_white {
            Color::White
        } else {
            Color::Black
        };
        self.outcome = match loser_color {
            Color::White => GameOutcome::BlackWins,
            Color::Black => GameOutcome::WhiteWins,
        };
        let user_elo = user.get_elo();
        let adversary_elo = adversary.get_elo();
        match self.wager {
            Some(w) => adversary.increase_balance(2 * w),
            None => {},
        }
        if self.is_rated {
            adversary.won_against(user_elo);
            user.lost_against(adversary_elo);
        } else {
            adversary.record_win();
            user.record_loss();
        }
        Ok(())
    }
}

} // verus!
