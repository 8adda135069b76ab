use vstd::prelude::*;

verus! {

/// The ways a request can be rejected. Every rejection is local and
/// synchronous, and leaves the game and both players exactly as they were.
#[derive(Clone, Copy, PartialEq, Eq, Structural, Debug)]
pub enum ChessError {
    /// The caller presented no session credential and does not own the
    /// claimed seat.
    InvalidUser,
    /// The session credential is mismatched or expired.
    InvalidToken,
    /// The claimed seat's color is not the side to move.
    NotUsersTurn,
    /// The move fails the move validator.
    InvalidMove,
    /// The applied move would leave the mover's own king attacked: a safety
    /// net behind the validator.
    KingInCheck,
    /// The chosen seat is already occupied.
    SeatTaken,
    /// The game has reached a terminal outcome; no further moves are
    /// accepted.
    GameAlreadyOver,
}

} // verus!
