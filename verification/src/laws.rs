//! The laws of the click state machine, proved once over all states.

use vstd::prelude::*;
use crate::game::{
    spec_click, spec_flip, spec_outcome, turn_color, ClickOutcome, GameView, Selection,
};

verus! {

/// Whether the click on `idx` completes a move: something is selected, the
/// click is not on the selected cell, and the destination is empty.
pub open spec fn spec_is_move(g: GameView, idx: int) -> bool {
    match g.selection {
        Selection::Idle => false,
        Selection::PieceSelected(i) => idx != i && g.board[idx] is None,
    }
}

/// The index of the selected cell.
pub open spec fn sel_index(g: GameView) -> int
    recommends
        g.selection is PieceSelected,
{
    match g.selection {
        Selection::Idle => -1,
        Selection::PieceSelected(i) => i as int,
    }
}

/// Law: from an unselected state, clicking a cell and then clicking the
/// same cell again returns the game to exactly the state it started in;
/// in particular a click that selects a piece followed by a second click on
/// the same cell deselects it with the board and turn untouched.
pub proof fn lemma_click_twice_identity(g: GameView, idx: int)
    requires
        g.selection is Idle,
        0 <= idx < 64,
        g.board.len() == 64,
    ensures
        spec_click(spec_click(g, idx), idx) == g,
{
    assert(spec_click(spec_click(g, idx), idx) =~= g);
}

/// Law: a click that completes a move flips the turn exactly once, and a
/// click that does not complete a move leaves the turn as it was.
pub proof fn lemma_turn_flips_only_on_move(g: GameView, idx: int)
    requires
        0 <= idx < 64,
    ensures
        spec_is_move(g, idx) ==> spec_click(g, idx).turn == spec_flip(g.turn),
        !spec_is_move(g, idx) ==> spec_click(g, idx).turn == g.turn,
{
}

/// Law: two completed moves restore the original turn, whatever selection
/// clicks happen in between (by `lemma_turn_flips_only_on_move` those keep
/// the turn): any second move made from the turn the first move produced
/// hands the turn back.
pub proof fn lemma_two_moves_restore_turn(g1: GameView, i: int, g2: GameView, j: int)
    requires
        0 <= i < 64,
        0 <= j < 64,
        spec_is_move(g1, i),
        spec_is_move(g2, j),
        g2.turn == spec_click(g1, i).turn,
    ensures
        spec_click(g2, j).turn == g1.turn,
{
}

/// Law: a completed move copies the selected piece to the destination,
/// empties the source, changes no other cell, and deselects.
pub proof fn lemma_move_frame(g: GameView, idx: int)
    requires
        0 <= idx < 64,
        g.board.len() == 64,
        spec_is_move(g, idx),
        0 <= sel_index(g) < 64,
    ensures
        spec_click(g, idx).board[idx] == g.board[sel_index(g)],
        spec_click(g, idx).board[sel_index(g)] is None,
        forall|k: int|
            0 <= k < 64 && k != idx && k != sel_index(g) ==> spec_click(g, idx).board[k]
                == g.board[k],
        spec_click(g, idx).selection is Idle,
{
}

/// Law: from an unselected state, clicking a piece of the color not to
/// move changes nothing and reports the click as ignored.
pub proof fn lemma_wrong_turn_ignored(g: GameView, idx: int)
    requires
        0 <= idx < 64,
        g.selection is Idle,
        g.board[idx] is Some,
        g.board[idx]->0.color != turn_color(g.turn),
    ensures
        spec_click(g, idx) == g,
        spec_outcome(g, idx) == ClickOutcome::Ignored,
{
}

} // verus!
