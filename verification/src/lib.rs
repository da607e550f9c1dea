//! A verified model of an interactive chessboard: FEN parsing into a 64-cell
//! board, click-to-select / click-to-move handling, and turn alternation.
//!
//! There is no legality checking: a move only requires an empty destination.
//! Rendering, input devices and audio are left to the surrounding program;
//! this crate supplies the board state, the selection state machine, and the
//! pure mappings (pixel to cell, cell to sprite) that a presenter needs.

pub mod board;
pub mod fen;
pub mod game;
pub mod present;
pub mod laws;
