//! The board data model: piece kinds, colors, and the 64-cell board.

use vstd::prelude::*;

verus! {

/// The six chess piece kinds.
#[derive(Clone, Copy, Debug, PartialEq, Eq, Structural)]
pub enum PieceKind {
    King,
    Queen,
    Bishop,
    Knight,
    Rook,
    Pawn,
}

/// The two piece colors.
#[derive(Clone, Copy, Debug, PartialEq, Eq, Structural)]
pub enum PieceColor {
    White,
    Black,
}

/// One piece: its kind and its color.
///
/// An empty cell is represented as `Option::<Piece>::None`, so a cell can
/// never hold a kind without a color or a color without a kind.
#[derive(Clone, Copy, Debug, PartialEq, Eq, Structural)]
pub struct Piece {
    pub kind: PieceKind,
    pub color: PieceColor,
}

impl Piece {
    pub fn new(kind: PieceKind, color: PieceColor) -> (r: Piece)
        ensures
            r.kind == kind,
            r.color == color,
    {
        Piece { kind, color }
    }
}

/// The 8x8 board: a fixed array of 64 cells, indexed `row * 8 + col`,
/// with row 0 the rank nearest White (FEN rank 1).
#[derive(Debug)]
pub struct Board {
    cells: Vec<Option<Piece>>,
}

impl View for Board {
    type V = Seq<Option<Piece>>;

    closed spec fn view(&self) -> Seq<Option<Piece>> {
        self.cells@
    }
}

impl Board {
    /// A board is well formed when it holds exactly 64 cells.
    pub open spec fn wf(&self) -> bool {
        self@.len() == 64
    }

    /// A board of 64 empty cells.
    pub fn empty() -> (r: Board)
        ensures
            r.wf(),
            forall|i: int| 0 <= i < 64 ==> r@[i] is None,
    {
        let mut cells: Vec<Option<Piece>> = Vec::new();
        let mut i: usize = 0;
        while i < 64
            invariant
                i <= 64,
                cells@.len() == i,
                forall|k: int| 0 <= k < i ==> cells@[k] is None,
            decreases 64 - i,
        {
            cells.push(None);
            i = i + 1;
        }
        Board { cells }
    }

    /// The content of cell `idx`.
    pub fn get(&self, idx: usize) -> (r: Option<Piece>)
        requires
            self.wf(),
            idx < 64,
        ensures
            r == self@[idx as int],
    {
        self.cells[idx]
    }

    /// Replace the content of cell `idx`.
    pub fn set(&mut self, idx: usize, v: Option<Piece>)
        requires
            old(self).wf(),
            idx < 64,
        ensures
            final(self).wf(),
            final(self)@ == old(self)@.update(idx as int, v),
    {
        self.cells.set(idx, v);
    }
}

} // verus!
