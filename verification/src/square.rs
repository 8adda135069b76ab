use vstd::prelude::*;

verus! {

/// A board coordinate. `file` runs 0..8 left to right; `rank` runs 0..8 from
/// Black's home rank (rank 0) down to White's home rank (rank 7), so White
/// pawns move toward smaller ranks and Black pawns toward larger ranks.
#[derive(Clone, Copy, PartialEq, Eq, Structural, Debug)]
pub struct Square {
    pub file: u8,
    pub rank: u8,
}

impl Square {
    /// Both coordinates are on the board.
    pub open spec fn wf(self) -> bool {
        self.file < 8 && self.rank < 8
    }

    /// Position of this square in the row-major cell sequence.
    pub open spec fn idx(self) -> int {
        self.rank as int * 8 + self.file as int
    }

    pub fn new(file: u8, rank: u8) -> (r: Square)
        requires
            file < 8,
            rank < 8,
        ensures
            r == (Square { file, rank }),
            r.wf(),
    {
        Square { file, rank }
    }

    /// Whether both coordinates are on the board.
    pub fn on_board(self) -> (r: bool)
        ensures
            r == self.wf(),
    {
        self.file < 8 && self.rank < 8
    }

    /// Row-major cell index of a well-formed square.
    pub fn index(self) -> (r: usize)
        requires
            self.wf(),
        ensures
            r == self.idx(),
            r < 64,
    {
        self.rank as usize * 8 + self.file as usize
    }
}

/// Row-major cell index of the square with the given coordinates.
pub open spec fn cell(file: int, rank: int) -> int {
    rank * 8 + file
}

} // verus!
