//! The selection / move / turn state machine.
//!
//! A game holds the board, the selection marker (the single source of truth
//! for what is selected) and the turn. One left click is interpreted
//! against the current state: from `Idle`, clicking a piece of the color to
//! move selects it; from `PieceSelected(i)`, clicking `i` again deselects,
//! clicking an empty cell moves the piece there and flips the turn, and
//! clicking any other occupied cell does nothing. There is no legality
//! checking beyond "the destination is empty".

use vstd::prelude::*;
use crate::board::{Board, Piece, PieceColor};

verus! {

/// Whose turn it is to move.
#[derive(Clone, Copy, Debug, PartialEq, Eq, Structural)]
pub enum TurnState {
    White,
    Black,
}

/// The selection marker: nothing, or the index of the one selected cell.
#[derive(Clone, Copy, Debug, PartialEq, Eq, Structural)]
pub enum Selection {
    Idle,
    PieceSelected(usize),
}

/// What one click did.
#[derive(Clone, Copy, Debug, PartialEq, Eq, Structural)]
pub enum ClickOutcome {
    /// The click hit the board but changed nothing.
    Ignored,
    /// The click fell outside the window and was ignored.
    OutOfBounds,
    /// The piece at this index is now selected.
    Selected(usize),
    /// The previously selected piece was deselected.
    Deselected,
    /// The piece moved from `from` to the empty cell `to`; the turn flipped.
    Moved { from: usize, to: usize },
}

/// The color whose pieces `t` may select.
pub open spec fn turn_color(t: TurnState) -> PieceColor {
    match t {
        TurnState::White => PieceColor::White,
        TurnState::Black => PieceColor::Black,
    }
}

/// The other turn.
pub open spec fn spec_flip(t: TurnState) -> TurnState {
    match t {
        TurnState::White => TurnState::Black,
        TurnState::Black => TurnState::White,
    }
}

impl TurnState {
    /// The other turn.
    pub fn flip(&self) -> (r: TurnState)
        ensures
            r == spec_flip(*self),
    {
        match self {
            TurnState::White => TurnState::Black,
            TurnState::Black => TurnState::White,
        }
    }

    /// The color whose pieces this turn may select.
    pub fn color(&self) -> (r: PieceColor)
        ensures
            r == turn_color(*self),
    {
        match self {
            TurnState::White => PieceColor::White,
            TurnState::Black => PieceColor::Black,
        }
    }
}

/// The mathematical state of a game: board contents, selection, turn.
#[verifier::ext_equal]
pub struct GameView {
    pub board: Seq<Option<Piece>>,
    pub selection: Selection,
    pub turn: TurnState,
}

/// The state after one click on cell `idx`, per the transition table:
/// select from `Idle` when the cell holds a piece of the turn's color;
/// deselect on a second click of the selected cell; move to an empty cell;
/// otherwise no change.
pub open spec fn spec_click(g: GameView, idx: int) -> GameView {
    match g.selection {
        Selection::Idle => {
            if g.board[idx] is Some && g.board[idx]->0.color == turn_color(g.turn) {
                GameView { selection: Selection::PieceSelected(idx as usize), ..g }
            } else {
                g
            }
        },
        Selection::PieceSelected(i) => {
            if idx == i {
                GameView { selection: Selection::Idle, ..g }
            } else if g.board[idx] is None {
                GameView {
                    board: g.board.update(i as int, None).update(idx, g.board[i as int]),
                    selection: Selection::Idle,
                    turn: spec_flip(g.turn),
                }
            } else {
                g
            }
        },
    }
}

/// The outcome reported for one click on cell `idx`.
pub open spec fn spec_outcome(g: GameView, idx: int) -> ClickOutcome {
    match g.selection {
        Selection::Idle => {
            if g.board[idx] is Some && g.board[idx]->0.color == turn_color(g.turn) {
                ClickOutcome::Selected(idx as usize)
            } else {
                ClickOutcome::Ignored
            }
        },
        Selection::PieceSelected(i) => {
            if idx == i {
                ClickOutcome::Deselected
            } else if g.board[idx] is None {
                ClickOutcome::Moved { from: i, to: idx as usize }
            } else {
                ClickOutcome::Ignored
            }
        },
    }
}

/// The window is square, this many pixels on each side.
pub const WINDOW_SIZE: u64 = 600;

/// Each of the 8 x 8 board squares is this many pixels on each side.
pub const SQUARE_SIZE: u64 = 75;

/// The cell index a pixel click lands on: 75-pixel squares, column from x,
/// row from y, index `row * 8 + col`.
pub open spec fn pixel_cell(x: u64, y: u64) -> int {
    (y as int / SQUARE_SIZE as int) * 8 + (x as int / SQUARE_SIZE as int)
}

/// One running game: the board, the selection marker, and the turn.
#[derive(Debug)]
pub struct Game {
    pub board: Board,
    pub selection: Selection,
    pub turn: TurnState,
}

impl View for Game {
    type V = GameView;

    open spec fn view(&self) -> GameView {
        GameView { board: self.board@, selection: self.selection, turn: self.turn }
    }
}

impl Game {
    /// A game is well formed when the board has 64 cells and any selected
    /// cell holds a piece of the color to move.
    pub open spec fn wf(&self) -> bool {
        &&& self.board.wf()
        &&& match self.selection {
            Selection::Idle => true,
            Selection::PieceSelected(i) => {
                &&& i < 64
                &&& self.board@[i as int] is Some
                &&& self.board@[i as int]->0.color == turn_color(self.turn)
            },
        }
    }

    /// A fresh game on `board`: nothing selected, White to move.
    pub fn new(board: Board) -> (r: Game)
        requires
            board.wf(),
        ensures
            r.wf(),
            r@.board == board@,
            r@.selection is Idle,
            r@.turn is White,
    {
        Game { board, selection: Selection::Idle, turn: TurnState::White }
    }

    /// Handle one click on cell `idx`.
    pub fn click_cell(&mut self, idx: usize) -> (r: ClickOutcome)
        requires
            old(self).wf(),
            idx < 64,
        ensures
            final(self).wf(),
            final(self)@ == spec_click(old(self)@, idx as int),
            r == spec_outcome(old(self)@, idx as int),
    {
        match self.selection {
            Selection::Idle => {
                match self.board.get(idx) {
                    Some(p) => {
                        let to_move = self.turn.color();
                        if p.color == to_move {
                            self.selection = Selection::PieceSelected(idx);
                            ClickOutcome::Selected(idx)
                        } else {
                            ClickOutcome::Ignored
                        }
                    },
                    None => ClickOutcome::Ignored,
                }
            },
            Selection::PieceSelected(i) => {
                if idx == i {
                    self.selection = Selection::Idle;
                    ClickOutcome::Deselected
                } else {
                    match self.board.get(idx) {
                        None => {
                            let moving = self.board.get(i);
                            self.board.set(i, None);
                            self.board.set(idx, moving);
                            self.selection = Selection::Idle;
                            self.turn = self.turn.flip();
                            ClickOutcome::Moved { from: i, to: idx }
                        },
                        Some(_) => ClickOutcome::Ignored,
                    }
                }
            },
        }
    }

    /// Handle one click at pixel coordinates `(x, y)`.
    ///
    /// A click outside the 600x600 window changes nothing and reports
    /// `OutOfBounds`.
    pub fn click_pixel(&mut self, x: u64, y: u64) -> (r: ClickOutcome)
        requires
            old(self).wf(),
        ensures
            final(self).wf(),
            x < WINDOW_SIZE && y < WINDOW_SIZE ==> final(self)@ == spec_click(
                old(self)@,
                pixel_cell(x, y),
            ) && r == spec_outcome(old(self)@, pixel_cell(x, y)),
            !(x < WINDOW_SIZE && y < WINDOW_SIZE) ==> final(self)@ == old(self)@ && r
                == ClickOutcome::OutOfBounds,
    {
        if x < WINDOW_SIZE && y < WINDOW_SIZE {
            let col = (x / SQUARE_SIZE) as usize;
            let row = (y / SQUARE_SIZE) as usize;
            let idx = row * 8 + col;
            assert(idx < 64);
            assert(idx as int == pixel_cell(x, y));
            self.click_cell(idx)
        } else {
            ClickOutcome::OutOfBounds
        }
    }
}

} // verus!
