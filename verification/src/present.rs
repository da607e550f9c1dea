//! Pure mappings a presenter needs: highlight positions, checkerboard
//! coloring, and the sprite-sheet cell for a piece.
//!
//! Drawing itself (transforms, textures, audio) is left to the surrounding
//! program; everything here is a plain value computation.

use vstd::prelude::*;
use crate::board::{Piece, PieceColor, PieceKind};
use crate::game::{Game, Selection};

verus! {

/// The board position of the highlight drawn over the selected cell.
#[derive(Clone, Copy, Debug, PartialEq, Eq, Structural)]
pub struct SelectedSquare {
    pub row: u8,
    pub col: u8,
}

/// The board position of the highlight drawn over a move's destination.
#[derive(Clone, Copy, Debug, PartialEq, Eq, Structural)]
pub struct MoveSquare {
    pub row: u8,
    pub col: u8,
}

impl SelectedSquare {
    /// The row and column of cell `idx`.
    pub fn of_index(idx: usize) -> (r: SelectedSquare)
        requires
            idx < 64,
        ensures
            r.row == idx as int / 8,
            r.col == idx as int % 8,
    {
        SelectedSquare { row: (idx / 8) as u8, col: (idx % 8) as u8 }
    }
}

impl MoveSquare {
    /// The row and column of cell `idx`.
    pub fn of_index(idx: usize) -> (r: MoveSquare)
        requires
            idx < 64,
        ensures
            r.row == idx as int / 8,
            r.col == idx as int % 8,
    {
        MoveSquare { row: (idx / 8) as u8, col: (idx % 8) as u8 }
    }
}

/// Whether the background square at `(row, col)` gets the dark color:
/// checkerboard coloring by the parity of `row + col`.
pub fn square_is_dark(row: u8, col: u8) -> (r: bool)
    requires
        row < 8,
        col < 8,
    ensures
        r == ((row + col) % 2 == 0),
{
    (row + col) % 2 == 0
}

/// The sprite-sheet column for a piece kind.
pub open spec fn spec_sprite_col(k: PieceKind) -> u8 {
    match k {
        PieceKind::King => 0,
        PieceKind::Queen => 1,
        PieceKind::Bishop => 2,
        PieceKind::Knight => 3,
        PieceKind::Rook => 4,
        PieceKind::Pawn => 5,
    }
}

/// The sprite-sheet row for a piece color.
pub open spec fn spec_sprite_row(c: PieceColor) -> u8 {
    match c {
        PieceColor::White => 0,
        PieceColor::Black => 1,
    }
}

/// The sprite-sheet cell `(column, row)` showing `p`.
pub fn sprite_cell(p: Piece) -> (r: (u8, u8))
    ensures
        r.0 == spec_sprite_col(p.kind),
        r.1 == spec_sprite_row(p.color),
{
    let col = match p.kind {
        PieceKind::King => 0,
        PieceKind::Queen => 1,
        PieceKind::Bishop => 2,
        PieceKind::Knight => 3,
        PieceKind::Rook => 4,
        PieceKind::Pawn => 5,
    };
    let row = match p.color {
        PieceColor::White => 0,
        PieceColor::Black => 1,
    };
    (col, row)
}

/// The highlight to draw for the current selection: the selected cell's
/// position, or nothing when nothing is selected.
pub fn highlight_square(g: &Game) -> (r: Option<SelectedSquare>)
    requires
        g.wf(),
    ensures
        match g@.selection {
            Selection::Idle => r is None,
            Selection::PieceSelected(i) => r is Some && r->0.row == i as int / 8 && r->0.col
                == i as int % 8,
        },
{
    match g.selection {
        Selection::Idle => None,
        Selection::PieceSelected(i) => Some(SelectedSquare::of_index(i)),
    }
}

} // verus!
