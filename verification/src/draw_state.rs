use vstd::prelude::*;

verus! {

/// Half-moves without a capture or pawn move before the game may be drawn by
/// rule: fifty full moves.
pub const DRAW_HALFMOVE_THRESHOLD: u64 = 100;

/// Counter supporting draw detection: half-moves since the last capture or
/// pawn move, against a configurable threshold.
#[derive(Clone, Copy, PartialEq, Eq, Structural, Debug)]
pub struct DrawState {
    pub halfmoves: u64,
    pub threshold: u64,
}

impl DrawState {
    /// The tracker after one recorded half-move: a capture or pawn move
    /// resets the counter, anything else advances it (it has no reason to
    /// grow past the threshold).
    pub open spec fn spec_after_move(self, is_capture_or_pawn_move: bool) -> DrawState {
        if is_capture_or_pawn_move {
            DrawState { halfmoves: 0, ..self }
        } else if self.halfmoves < self.threshold {
            DrawState { halfmoves: (self.halfmoves + 1) as u64, ..self }
        } else {
            self
        }
    }

    /// The draw-by-rule condition: the threshold of quiet half-moves has
    /// been reached.
    pub open spec fn spec_is_draw(self) -> bool {
        self.halfmoves >= self.threshold
    }

    /// A fresh tracker with the given threshold of quiet half-moves.
    pub fn new(threshold: u64) -> (r: DrawState)
        ensures
            r == (DrawState { halfmoves: 0, threshold }),
    {
        DrawState { halfmoves: 0, threshold }
    }

    /// Record one half-move: reset the counter on a capture or pawn move,
    /// else advance it.
    pub fn record_move(&mut self, is_capture_or_pawn_move: bool)
        ensures
            *final(self) == old(self).spec_after_move(is_capture_or_pawn_move),
    {
        if is_capture_or_pawn_move {
            self.halfmoves = 0;
        } else if self.halfmoves < self.threshold {
            self.halfmoves = self.halfmoves + 1;
        }
    }

    /// Put the counter back to its baseline, as after an irreversible move.
    pub fn reset(&mut self)
        ensures
            *final(self) == (DrawState { halfmoves: 0, ..*old(self) }),
    {
        self.halfmoves = 0;
    }

    /// Whether the game may now be drawn by rule.
    pub fn is_draw_by_rule(&self) -> (r: bool)
        ensures
            r == self.spec_is_draw(),
    {
        self.halfmoves >= self.threshold
    }
}

} // verus!
