use rusty_chess::board::ChessBoard;
use rusty_chess::events::{click_log_line, handle_click, next_state, LoopState, UiEvent};
use rusty_chess::piece::{piece_list, ChessPiece};

#[test]
fn close_request_terminates_the_loop() {
    assert_eq!(
        next_state(LoopState::Running, &UiEvent::CloseRequested),
        LoopState::Terminated
    );
}

#[test]
fn escape_terminates_the_loop() {
    assert_eq!(
        next_state(LoopState::Running, &UiEvent::EscapePressed),
        LoopState::Terminated
    );
}

#[test]
fn other_input_keeps_the_loop_running() {
    assert_eq!(
        next_state(LoopState::Running, &UiEvent::OtherInput),
        LoopState::Running
    );
}

#[test]
fn terminated_is_absorbing() {
    assert_eq!(
        next_state(LoopState::Terminated, &UiEvent::OtherInput),
        LoopState::Terminated
    );
    assert_eq!(
        next_state(LoopState::Terminated, &UiEvent::CloseRequested),
        LoopState::Terminated
    );
}

#[test]
fn click_on_piece_cell_logs_piece() {
    let board = ChessBoard::default();
    let line = handle_click(&board, 0, 0);
    assert_eq!(line.as_str(), "Clicked on piece! (0, 0)");
}

#[test]
fn click_on_empty_cell_logs_empty() {
    let board = ChessBoard::default();
    let line = handle_click(&board, 4, 4);
    assert_eq!(line.as_str(), "Clicked on empty! (4, 4)");
}

#[test]
fn click_line_spells_out_coordinates() {
    assert_eq!(click_log_line(7, 3, true).as_str(), "Clicked on piece! (7, 3)");
    assert_eq!(click_log_line(2, 5, false).as_str(), "Clicked on empty! (2, 5)");
}

#[test]
fn piece_names() {
    assert_eq!(ChessPiece::Pawn.name(), "Pawn");
    assert_eq!(ChessPiece::King.name(), "King");
    assert_eq!(ChessPiece::Queen.name(), "Queen");
}

#[test]
fn catalog_lists_six_pieces_with_their_image_files() {
    let entries = piece_list();
    assert_eq!(entries.len(), 6);
    assert_eq!(entries[0], (ChessPiece::Pawn, "pieces/pawn.png"));
    assert_eq!(entries[1], (ChessPiece::Rook, "pieces/rook.png"));
    assert_eq!(entries[2], (ChessPiece::Knight, "pieces/knight.png"));
    assert_eq!(entries[3], (ChessPiece::Bishop, "pieces/bishop.png"));
    assert_eq!(entries[4], (ChessPiece::Queen, "pieces/queen.png"));
    assert_eq!(entries[5], (ChessPiece::King, "pieces/king.png"));
}
