use chessboard::board::{Board, Piece, PieceColor, PieceKind};
use chessboard::fen::{load_position_from_fen, FenError};

const START_FEN: &str = "rnbqkbnr/pppppppp/8/8/8/8/PPPPPPPP/RNBQKBNR w KQkq - 0 1";

fn cell(board: &Board, row: usize, col: usize) -> Option<Piece> {
    board.get(row * 8 + col)
}

#[test]
fn starting_position_white_back_rank() {
    let board = load_position_from_fen(START_FEN).unwrap();
    let kinds = [
        PieceKind::Rook,
        PieceKind::Knight,
        PieceKind::Bishop,
        PieceKind::Queen,
        PieceKind::King,
        PieceKind::Bishop,
        PieceKind::Knight,
        PieceKind::Rook,
    ];
    for col in 0..8 {
        assert_eq!(
            cell(&board, 0, col),
            Some(Piece { kind: kinds[col], color: PieceColor::White })
        );
    }
}

#[test]
fn starting_position_pawn_ranks() {
    let board = load_position_from_fen(START_FEN).unwrap();
    for col in 0..8 {
        assert_eq!(
            cell(&board, 1, col),
            Some(Piece { kind: PieceKind::Pawn, color: PieceColor::White })
        );
        assert_eq!(
            cell(&board, 6, col),
            Some(Piece { kind: PieceKind::Pawn, color: PieceColor::Black })
        );
    }
}

#[test]
fn starting_position_middle_empty() {
    let board = load_position_from_fen(START_FEN).unwrap();
    for row in 2..6 {
        for col in 0..8 {
            assert_eq!(cell(&board, row, col), None);
        }
    }
}

#[test]
fn starting_position_black_back_rank() {
    let board = load_position_from_fen(START_FEN).unwrap();
    let kinds = [
        PieceKind::Rook,
        PieceKind::Knight,
        PieceKind::Bishop,
        PieceKind::Queen,
        PieceKind::King,
        PieceKind::Bishop,
        PieceKind::Knight,
        PieceKind::Rook,
    ];
    for col in 0..8 {
        assert_eq!(
            cell(&board, 7, col),
            Some(Piece { kind: kinds[col], color: PieceColor::Black })
        );
    }
}

#[test]
fn empty_position_all_cells_empty() {
    let board = load_position_from_fen("8/8/8/8/8/8/8/8 w - - 0 1").unwrap();
    for idx in 0..64 {
        assert_eq!(board.get(idx), None);
    }
}

#[test]
fn digit_runs_place_pieces_at_right_columns() {
    let board = load_position_from_fen("8/8/8/3qk3/8/8/8/8 w - - 0 1").unwrap();
    // FEN rank 5 is internal row 4
    assert_eq!(
        cell(&board, 4, 3),
        Some(Piece { kind: PieceKind::Queen, color: PieceColor::Black })
    );
    assert_eq!(
        cell(&board, 4, 4),
        Some(Piece { kind: PieceKind::King, color: PieceColor::Black })
    );
    for col in [0, 1, 2, 5, 6, 7] {
        assert_eq!(cell(&board, 4, col), None);
    }
}

#[test]
fn last_column_piece_lands_on_column_seven() {
    let board = load_position_from_fen("7K/8/8/8/8/8/8/8 w - - 0 1").unwrap();
    assert_eq!(
        cell(&board, 7, 7),
        Some(Piece { kind: PieceKind::King, color: PieceColor::White })
    );
    for col in 0..7 {
        assert_eq!(cell(&board, 7, col), None);
    }
}

#[test]
fn run_past_last_column_is_never_written() {
    // the digit 8 already fills the rank, so the king would land beyond
    // column 7 and is dropped rather than written out of range
    let board = load_position_from_fen("8K/8/8/8/8/8/8/8 w - - 0 1").unwrap();
    for idx in 0..64 {
        assert_eq!(board.get(idx), None);
    }
}

#[test]
fn unrecognized_letter_leaves_cell_empty() {
    let board = load_position_from_fen("x6K/8/8/8/8/8/8/8 w - - 0 1").unwrap();
    assert_eq!(cell(&board, 7, 0), None);
    assert_eq!(
        cell(&board, 7, 7),
        Some(Piece { kind: PieceKind::King, color: PieceColor::White })
    );
}

#[test]
fn wrong_field_count_is_rejected() {
    assert!(matches!(
        load_position_from_fen("8/8/8/8/8/8/8/8"),
        Err(FenError::InvalidFenFormat)
    ));
    assert!(matches!(
        load_position_from_fen("8/8/8/8/8/8/8/8 w - - 0 1 extra"),
        Err(FenError::InvalidFenFormat)
    ));
    assert!(matches!(
        load_position_from_fen(""),
        Err(FenError::InvalidFenFormat)
    ));
}

#[test]
fn wrong_rank_count_is_rejected() {
    assert!(matches!(
        load_position_from_fen("8/8/8 w KQkq - 0 1"),
        Err(FenError::InvalidFenFormat)
    ));
    assert!(matches!(
        load_position_from_fen("8/8/8/8/8/8/8/8/8 w - - 0 1"),
        Err(FenError::InvalidFenFormat)
    ));
}

#[test]
fn board_empty_constructor_is_all_empty() {
    let board = Board::empty();
    for idx in 0..64 {
        assert_eq!(board.get(idx), None);
    }
}
