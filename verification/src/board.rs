use vstd::prelude::*;

use crate::castling_right::CastlingRights;
use crate::color::Color;
use crate::piece::{Piece, PieceKind};
use crate::square::{cell, Square};

verus! {

/// Mathematical model of a board: the 64 cells in row-major order
/// (rank 0 first), the side to move, the remaining castling rights, and the
/// square a pawn may capture onto en passant, if any.
#[verifier::ext_equal]
pub struct BoardModel {
    pub squares: Seq<Option<Piece>>,
    pub side_to_move: Color,
    pub castling: CastlingRights,
    pub en_passant_target: Option<Square>,
}

impl BoardModel {
    /// The model describes a real board: 64 cells, and any en-passant target
    /// on the board.
    pub open spec fn wf(self) -> bool {
        &&& self.squares.len() == 64
        &&& (self.en_passant_target matches Some(s) ==> s.wf())
    }

    /// Contents of the cell with the given coordinates.
    pub open spec fn at(self, file: int, rank: int) -> Option<Piece> {
        self.squares[cell(file, rank)]
    }

    /// Contents of the cell at a square.
    pub open spec fn at_sq(self, s: Square) -> Option<Piece> {
        self.squares[s.idx()]
    }

    /// The cell with the given coordinates holds no piece.
    pub open spec fn empty_at(self, file: int, rank: int) -> bool {
        self.at(file, rank) is None
    }
}

/// The move takes a pawn sideways onto an empty square: only an en-passant
/// capture does that, and it removes the passed pawn from a third square.
pub open spec fn is_en_passant_capture(b: BoardModel, from: Square, to: Square) -> bool {
    &&& b.at_sq(from) matches Some(p) && p.kind == PieceKind::Pawn
    &&& from.file != to.file
    &&& b.at_sq(to) is None
}

/// The move takes a king two files sideways: a castle, which also relocates
/// the rook of the chosen wing.
pub open spec fn is_castle_move(b: BoardModel, from: Square, to: Square) -> bool {
    &&& b.at_sq(from) matches Some(p) && p.kind == PieceKind::King
    &&& (to.file as int == from.file as int + 2 || to.file as int + 2 == from.file as int)
}

/// Castling rights after a move from `from` to `to`: a move from a king or
/// rook home square forfeits the rights that square carries, and a capture
/// onto a rook home square forfeits the opponent's right on that wing.
pub open spec fn spec_rights_after(cr: CastlingRights, from: Square, to: Square) -> CastlingRights {
    CastlingRights {
        white_king_side: cr.white_king_side && from != (Square { file: 4, rank: 7 })
            && from != (Square { file: 7, rank: 7 }) && to != (Square { file: 7, rank: 7 }),
        white_queen_side: cr.white_queen_side && from != (Square { file: 4, rank: 7 })
            && from != (Square { file: 0, rank: 7 }) && to != (Square { file: 0, rank: 7 }),
        black_king_side: cr.black_king_side && from != (Square { file: 4, rank: 0 })
            && from != (Square { file: 7, rank: 0 }) && to != (Square { file: 7, rank: 0 }),
        black_queen_side: cr.black_queen_side && from != (Square { file: 4, rank: 0 })
            && from != (Square { file: 0, rank: 0 }) && to != (Square { file: 0, rank: 0 }),
    }
}

/// En-passant target after a move: a two-square pawn advance offers the
/// square it passed over for exactly one reply; every other move clears it.
pub open spec fn spec_ep_after(b: BoardModel, from: Square, to: Square) -> Option<Square> {
    if b.at_sq(from) matches Some(p) && p.kind == PieceKind::Pawn && from.file == to.file && (
        to.rank as int == from.rank as int + 2 || to.rank as int + 2 == from.rank as int) {
        Some(Square { file: from.file, rank: ((from.rank as int + to.rank as int) / 2) as u8 })
    } else {
        None
    }
}

/// The board after relocating the piece on `from` to `to`, with every side
/// effect standard chess semantics asks for: the destination is overwritten
/// (a capture), an en-passant capture removes the passed pawn, a castle
/// relocates the rook, a pawn reaching the far rank promotes (to a queen,
/// the deterministic default), and the castling rights and en-passant target
/// are updated. The side to move is not changed here.
pub open spec fn spec_apply(b: BoardModel, from: Square, to: Square) -> BoardModel {
    match b.at_sq(from) {
        Option::None => b,
        Option::Some(p) => {
            let placed = if p.kind == PieceKind::Pawn && ((p.color == Color::White && to.rank == 0)
                || (p.color == Color::Black && to.rank == 7)) {
                Piece { kind: PieceKind::Queen, color: p.color }
            } else {
                p
            };
            let s0 = b.squares.update(from.idx(), Option::None).update(
                to.idx(),
                Option::Some(placed),
            );
            let s1 = if is_en_passant_capture(b, from, to) {
                s0.update(cell(to.file as int, from.rank as int), Option::None)
            } else {
                s0
            };
            let s2 = if is_castle_move(b, from, to) {
                if to.file == 6 {
                    s1.update(cell(7, from.rank as int), Option::None).update(
                        cell(5, from.rank as int),
                        Option::Some(Piece { kind: PieceKind::Rook, color: p.color }),
                    )
                } else {
                    s1.update(cell(0, from.rank as int), Option::None).update(
                        cell(3, from.rank as int),
                        Option::Some(Piece { kind: PieceKind::Rook, color: p.color }),
                    )
                }
            } else {
                s1
            };
            BoardModel {
                squares: s2,
                side_to_move: b.side_to_move,
                castling: spec_rights_after(b.castling, from, to),
                en_passant_target: spec_ep_after(b, from, to),
            }
        },
    }
}

/// Piece placement of the standard starting position, cell by cell.
pub open spec fn spec_starting_piece(i: int) -> Option<Piece> {
    let file = i % 8;
    let rank = i / 8;
    if rank == 0 {
        Some(Piece { kind: spec_back_rank_kind(file), color: Color::Black })
    } else if rank == 1 {
        Some(Piece { kind: PieceKind::Pawn, color: Color::Black })
    } else if rank == 6 {
        Some(Piece { kind: PieceKind::Pawn, color: Color::White })
    } else if rank == 7 {
        Some(Piece { kind: spec_back_rank_kind(file), color: Color::White })
    } else {
        None
    }
}

/// Piece kinds of a home rank, left to right.
pub open spec fn spec_back_rank_kind(file: int) -> PieceKind {
    if file == 0 || file == 7 {
        PieceKind::Rook
    } else if file == 1 || file == 6 {
        PieceKind::Knight
    } else if file == 2 || file == 5 {
        PieceKind::Bishop
    } else if file == 3 {
        PieceKind::Queen
    } else {
        PieceKind::King
    }
}

/// The standard starting position: White to move, all rights held.
pub open spec fn spec_starting_board() -> BoardModel {
    BoardModel {
        squares: Seq::new(64, |i: int| spec_starting_piece(i)),
        side_to_move: Color::White,
        castling: CastlingRights::spec_all(),
        en_passant_target: None,
    }
}

/// Piece placement, side to move, castling rights, and en-passant state of
/// one game. The board knows nothing of players or money, and `apply` does
/// not check legality: that is the move validator's job.
pub struct Board {
    pub squares: Vec<Option<Piece>>,
    pub side_to_move: Color,
    pub castling: CastlingRights,
    pub en_passant_target: Option<Square>,
}

impl View for Board {
    type V = BoardModel;

    open spec fn view(&self) -> BoardModel {
        BoardModel {
            squares: self.squares@,
            side_to_move: self.side_to_move,
            castling: self.castling,
            en_passant_target: self.en_passant_target,
        }
    }
}

impl Board {
    /// A board with no pieces, White to move, all castling rights held and
    /// no en-passant target: the canvas scenario positions are built on.
    pub fn empty() -> (r: Board)
        ensures
            r@.wf(),
            r@.squares == Seq::new(64, |i: int| Option::<Piece>::None),
            r@.side_to_move == Color::White,
            r@.castling == CastlingRights::spec_all(),
            r@.en_passant_target is None,
    {
        let mut squares: Vec<Option<Piece>> = Vec::new();
        let mut i: usize = 0;
        while i < 64
            invariant
                i <= 64,
                squares@.len() == i,
                forall|k: int| 0 <= k < i ==> squares@[k] is None,
            decreases 64 - i,
        {
            squares.push(None);
            i = i + 1;
        }
        let r = Board {
            squares,
            side_to_move: Color::White,
            castling: CastlingRights::all(),
            en_passant_target: None,
        };
        proof {
            assert(r@.squares =~= Seq::new(64, |i: int| Option::<Piece>::None));
        }
        r
    }

    /// The standard starting position.
    pub fn starting() -> (r: Board)
        ensures
            r@ == spec_starting_board(),
            r@.wf(),
    {
        let mut squares: Vec<Option<Piece>> = Vec::new();
        let mut i: usize = 0;
        while i < 64
            invariant
                i <= 64,
                squares@.len() == i,
                forall|k: int| 0 <= k < i ==> squares@[k] == spec_starting_piece(k),
            decreases 64 - i,
        {
            squares.push(starting_piece_at(i));
            i = i + 1;
        }
        let r = Board {
            squares,
            side_to_move: Color::White,
            castling: CastlingRights::all(),
            en_passant_target: None,
        };
        proof {
            assert(r@.squares =~= spec_starting_board().squares);
            assert(r@ =~= spec_starting_board());
        }
        r
    }

    /// Put `p` (or nothing) on square `s`, leaving the rest of the state as
    /// it is: used to build scenario positions.
    pub fn place(&mut self, s: Square, p: Option<Piece>)
        requires
            old(self)@.wf(),
            s.wf(),
        ensures
            final(self)@ == (BoardModel {
                squares: old(self)@.squares.update(s.idx(), p),
                ..old(self)@
            }),
            final(self)@.wf(),
    {
        let i = s.index();
        self.squares[i] = p;
    }

    /// The piece on square `s`, if any.
    pub fn piece_at(&self, s: Square) -> (r: Option<Piece>)
        requires
            self@.wf(),
            s.wf(),
        ensures
            r == self@.at_sq(s),
    {
        self.squares[s.index()]
    }

    /// The color whose turn it is.
    pub fn side_to_move(&self) -> (r: Color)
        ensures
            r == self@.side_to_move,
    {
        self.side_to_move
    }

    /// The remaining castling rights.
    pub fn castling(&self) -> (r: CastlingRights)
        ensures
            r == self@.castling,
    {
        self.castling
    }

    /// The current en-passant target square, if any.
    pub fn en_passant_target(&self) -> (r: Option<Square>)
        ensures
            r == self@.en_passant_target,
    {
        self.en_passant_target
    }

    /// An identical copy, used to simulate a move without touching the
    /// real board.
    pub fn scratch(&self) -> (r: Board)
        requires
            self@.wf(),
        ensures
            r@ == self@,
    {
        let mut squares: Vec<Option<Piece>> = Vec::new();
        let mut i: usize = 0;
        while i < 64
            invariant
                i <= 64,
                self@.wf(),
                squares@.len() == i,
                forall|k: int| 0 <= k < i ==> squares@[k] == self@.squares[k],
            decreases 64 - i,
        {
            squares.push(self.squares[i]);
            i = i + 1;
        }
        let r = Board {
            squares,
            side_to_move: self.side_to_move,
            castling: self.castling,
            en_passant_target: self.en_passant_target,
        };
        proof {
            assert(r@.squares =~= self@.squares);
            assert(r@ =~= self@);
        }
        r
    }

    /// Hand the turn to the other side.
    pub fn flip_side(&mut self)
        ensures
            final(self)@ == (BoardModel {
                side_to_move: old(self)@.side_to_move.spec_opposite(),
                ..old(self)@
            }),
    {
        self.side_to_move = self.side_to_move.get_opposite();
    }

    /// Relocate the piece on `from` to `to` per standard chess semantics:
    /// capture, en-passant capture, castling rook relocation and pawn
    /// promotion included, updating castling rights and the en-passant
    /// target deterministically. Legality is not checked here.
    pub fn apply(&mut self, color: Color, from: Square, to: Square)
        requires
            old(self)@.wf(),
            from.wf(),
            to.wf(),
            old(self)@.at_sq(from) matches Some(p) && p.color == color,
        ensures
            final(self)@ == spec_apply(old(self)@, from, to),
            final(self)@.wf(),
    {
        let pc = self.piece_at(from).unwrap();
        let is_pawn = pc.kind == PieceKind::Pawn;
        let ep_capture = is_pawn && from.file != to.file && self.piece_at(to).is_none();
        let castle = pc.kind == PieceKind::King && (from.file + 2 == to.file || to.file + 2
            == from.file);
        let two_step = is_pawn && from.file == to.file && (from.rank + 2 == to.rank || to.rank + 2
            == from.rank);
        let placed = if is_pawn && ((pc.color == Color::White && to.rank == 0) || (pc.color
            == Color::Black && to.rank == 7)) {
            Piece { kind: PieceKind::Queen, color: pc.color }
        } else {
            pc
        };
        let fi = from.index();
        let ti = to.index();
        self.squares[fi] = None;
        self.squares[ti] = Some(placed);
        if ep_capture {
            let cap = Square::new(to.file, from.rank);
            let ci = cap.index();
            self.squares[ci] = None;
        }
        if castle {
            let rook = Some(Piece { kind: PieceKind::Rook, color: pc.color });
            if to.file == 6 {
                let ri = Square::new(7, from.rank).index();
                let di = Square::new(5, from.rank).index();
                self.squares[ri] = None;
                self.squares[di] = rook;
            } else {
                let ri = Square::new(0, from.rank).index();
                let di = Square::new(3, from.rank).index();
                self.squares[ri] = None;
                self.squares[di] = rook;
            }
        }
        let cr = self.castling;
        self.castling = CastlingRights {
            white_king_side: cr.white_king_side && !(from.file == 4 && from.rank == 7) && !(
            from.file == 7 && from.rank == 7) && !(to.file == 7 && to.rank == 7),
            white_queen_side: cr.white_queen_side && !(from.file == 4 && from.rank == 7) && !(
            from.file == 0 && from.rank == 7) && !(to.file == 0 && to.rank == 7),
            black_king_side: cr.black_king_side && !(from.file == 4 && from.rank == 0) && !(
            from.file == 7 && from.rank == 0) && !(to.file == 7 && to.rank == 0),
            black_queen_side: cr.black_queen_side && !(from.file == 4 && from.rank == 0) && !(
            from.file == 0 && from.rank == 0) && !(to.file == 0 && to.rank == 0),
        };
        self.en_passant_target = if two_step {
            Some(Square::new(from.file, (from.rank + to.rank) / 2))
        } else {
            None
        };
        proof {
            assert(self@.squares =~= spec_apply(old(self)@, from, to).squares);
            assert(self@ =~= spec_apply(old(self)@, from, to));
        }
    }
}

/// Contents of cell `i` of the standard starting position.
fn starting_piece_at(i: usize) -> (r: Option<Piece>)
    requires
        i < 64,
    ensures
        r == spec_starting_piece(i as int),
{
    let file = (i % 8) as u8;
    let rank = (i / 8) as u8;
    let color = if rank <= 1 {
        Color::Black
    } else {
        Color::White
    };
    if rank == 1 || rank == 6 {
        Some(Piece { kind: PieceKind::Pawn, color })
    } else if rank == 0 || rank == 7 {
        let kind = if file == 0 || file == 7 {
            PieceKind::Rook
        } else if file == 1 || file == 6 {
            PieceKind::Knight
        } else if file == 2 || file == 5 {
            PieceKind::Bishop
        } else if file == 3 {
            PieceKind::Queen
        } else {
            PieceKind::King
        };
        Some(Piece { kind, color })
    } else {
        None
    }
}

} // verus!
