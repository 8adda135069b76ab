use vstd::prelude::*;

use crate::color::Color;

verus! {

/// Which of the four castling moves are still available.
#[derive(Clone, Copy, PartialEq, Eq, Structural, Debug)]
pub struct CastlingRights {
    pub white_king_side: bool,
    pub white_queen_side: bool,
    pub black_king_side: bool,
    pub black_queen_side: bool,
}

impl CastlingRights {
    /// All four rights held, as at the start of a game.
    pub open spec fn spec_all() -> CastlingRights {
        CastlingRights {
            white_king_side: true,
            white_queen_side: true,
            black_king_side: true,
            black_queen_side: true,
        }
    }

    pub fn all() -> (r: CastlingRights)
        ensures
            r == CastlingRights::spec_all(),
    {
        CastlingRights {
            white_king_side: true,
            white_queen_side: true,
            black_king_side: true,
            black_queen_side: true,
        }
    }

    /// The king-side right of the given color.
    pub open spec fn spec_king_side(self, c: Color) -> bool {
        match c {
            Color::White => self.white_king_side,
            Color::Black => self.black_king_side,
        }
    }

    /// The queen-side right of the given color.
    pub open spec fn spec_queen_side(self, c: Color) -> bool {
        match c {
            Color::White => self.white_queen_side,
            Color::Black => self.black_queen_side,
        }
    }

    pub fn king_side(self, c: Color) -> (r: bool)
        ensures
            r == self.spec_king_side(c),
    {
        match c {
            Color::White => self.white_king_side,
            Color::Black => self.black_king_side,
        }
    }

    pub fn queen_side(self, c: Color) -> (r: bool)
        ensures
            r == self.spec_queen_side(c),
    {
        match c {
            Color::White => self.white_queen_side,
            Color::Black => self.black_queen_side,
        }
    }
}

} // verus!
