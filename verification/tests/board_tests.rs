use rusty_chess::board::ChessBoard;
use rusty_chess::piece::{load_pieces, ChessPiece, LoadError};

fn expected_piece(row: usize, col: usize) -> Option<ChessPiece> {
    match (row, col) {
        (0, 0) | (0, 7) | (7, 0) | (7, 7) => Some(ChessPiece::Rook),
        (0, 1) | (0, 6) | (7, 1) | (7, 6) => Some(ChessPiece::Knight),
        (0, 2) | (0, 5) | (7, 2) | (7, 5) => Some(ChessPiece::Bishop),
        (0, 3) | (7, 3) => Some(ChessPiece::Queen),
        (0, 4) | (7, 4) => Some(ChessPiece::King),
        (1, _) | (6, _) => Some(ChessPiece::Pawn),
        _ => None,
    }
}

#[test]
fn full_starting_layout() {
    let board = ChessBoard::default();
    for row in 0..8 {
        for col in 0..8 {
            assert_eq!(board.fetch_piece_type(row, col), expected_piece(row, col));
        }
    }
}

#[test]
fn piece_at_is_idempotent() {
    let board = ChessBoard::default();
    for row in 0..8 {
        for col in 0..8 {
            let first = board.fetch_piece_type(row, col);
            let second = board.fetch_piece_type(row, col);
            assert_eq!(first, second);
        }
    }
}

#[test]
fn king_at_row_zero_col_four() {
    let board = ChessBoard::default();
    assert_eq!(board.fetch_piece_type(0, 4), Some(ChessPiece::King));
}

#[test]
fn empty_at_row_three_col_three() {
    let board = ChessBoard::default();
    assert_eq!(board.fetch_piece_type(3, 3), None);
}

#[test]
fn thirty_two_occupied_cells() {
    let board = ChessBoard::default();
    let mut occupied = 0;
    for row in 0..8 {
        for col in 0..8 {
            if board.fetch_piece_type(row, col).is_some() {
                occupied += 1;
            }
        }
    }
    assert_eq!(occupied, 32);
}

#[test]
fn registry_complete_after_init() {
    let mut board = ChessBoard::default();
    let handles = vec![Some(10), Some(20), Some(30), Some(40), Some(50), Some(60)];
    assert!(board.init(&handles).is_ok());
    assert_eq!(board.fetch_piece_picture_id(&ChessPiece::Pawn), 10);
    assert_eq!(board.fetch_piece_picture_id(&ChessPiece::Rook), 20);
    assert_eq!(board.fetch_piece_picture_id(&ChessPiece::Knight), 30);
    assert_eq!(board.fetch_piece_picture_id(&ChessPiece::Bishop), 40);
    assert_eq!(board.fetch_piece_picture_id(&ChessPiece::Queen), 50);
    assert_eq!(board.fetch_piece_picture_id(&ChessPiece::King), 60);
}

#[test]
fn registry_handles_distinct_after_init() {
    let mut board = ChessBoard::default();
    let handles = vec![Some(3), Some(1), Some(4), Some(15), Some(9), Some(2)];
    assert!(board.init(&handles).is_ok());
    let kinds = [
        ChessPiece::Pawn,
        ChessPiece::Rook,
        ChessPiece::Knight,
        ChessPiece::Bishop,
        ChessPiece::Queen,
        ChessPiece::King,
    ];
    for i in 0..6 {
        for j in 0..6 {
            if i != j {
                assert_ne!(
                    board.fetch_piece_picture_id(&kinds[i]),
                    board.fetch_piece_picture_id(&kinds[j])
                );
            }
        }
    }
}

#[test]
fn load_fails_when_every_image_is_missing() {
    let handles = vec![None, None, None, None, None, None];
    assert_eq!(
        load_pieces(&handles),
        Err(LoadError::PieceImageUnavailable(ChessPiece::Pawn))
    );
}

#[test]
fn load_reports_first_missing_image() {
    let handles = vec![Some(1), Some(2), None, Some(4), Some(5), None];
    assert_eq!(
        load_pieces(&handles),
        Err(LoadError::PieceImageUnavailable(ChessPiece::Knight))
    );
}

#[test]
fn init_failure_leaves_board_usable() {
    let mut board = ChessBoard::default();
    let handles = vec![Some(1), None, Some(3), Some(4), Some(5), Some(6)];
    assert_eq!(
        board.init(&handles),
        Err(LoadError::PieceImageUnavailable(ChessPiece::Rook))
    );
    assert_eq!(board.fetch_piece_type(0, 0), Some(ChessPiece::Rook));
}
