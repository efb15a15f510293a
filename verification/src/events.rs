//! The decisions of the render loop: when an input event ends the loop,
//! and the diagnostic line that a click on a cell writes.

use crate::board::ChessBoard;
use vstd::prelude::*;

verus! {

/// The render loop's state: it runs until a close request or the Escape
/// key is seen, and once terminated it stays terminated.
#[derive(Clone, Copy, Debug, PartialEq, Eq, Structural)]
pub enum LoopState {
    Running,
    Terminated,
}

/// A window or input event, as far as the render loop decides on it.
#[derive(Clone, Copy, Debug, PartialEq, Eq, Structural)]
pub enum UiEvent {
    /// The window manager asked to close the window.
    CloseRequested,
    /// The Escape key was pressed.
    EscapePressed,
    /// Any other keyboard, mouse or window event: ignored.
    OtherInput,
}

/// Advance the loop state on one event: a close request or Escape ends
/// the loop, every other event leaves it running, and a terminated loop
/// stays terminated.
pub fn next_state(state: LoopState, event: &UiEvent) -> (s: LoopState)
    ensures
        s == LoopState::Terminated <==> (state == LoopState::Terminated || *event
            == UiEvent::CloseRequested || *event == UiEvent::EscapePressed),
{
    match state {
        LoopState::Terminated => LoopState::Terminated,
        LoopState::Running => match event {
            UiEvent::CloseRequested => LoopState::Terminated,
            UiEvent::EscapePressed => LoopState::Terminated,
            UiEvent::OtherInput => LoopState::Running,
        },
    }
}

/// The decimal digit character of a board coordinate.
pub open spec fn digit_char(d: int) -> char {
    if d == 0 {
        '0'
    } else if d == 1 {
        '1'
    } else if d == 2 {
        '2'
    } else if d == 3 {
        '3'
    } else if d == 4 {
        '4'
    } else if d == 5 {
        '5'
    } else if d == 6 {
        '6'
    } else {
        '7'
    }
}

/// The diagnostic line written for a click on the cell at `row`, `col`:
/// it names the coordinates and says whether the cell holds a piece.
pub open spec fn click_line_spec(row: int, col: int, on_piece: bool) -> Seq<char> {
    (if on_piece {
        "Clicked on piece! ("@
    } else {
        "Clicked on empty! ("@
    }) + seq![digit_char(row)] + ", "@ + seq![digit_char(col)] + ")"@
}

/// The single-character string of a board coordinate.
fn digit_str(d: usize) -> (s: &'static str)
    requires
        d < 8,
    ensures
        s@ == seq![digit_char(d as int)],
{
    if d == 0 {
        proof {
            reveal_strlit("0");
        }
        "0"
    } else if d == 1 {
        proof {
            reveal_strlit("1");
        }
        "1"
    } else if d == 2 {
        proof {
            reveal_strlit("2");
        }
        "2"
    } else if d == 3 {
        proof {
            reveal_strlit("3");
        }
        "3"
    } else if d == 4 {
        proof {
            reveal_strlit("4");
        }
        "4"
    } else if d == 5 {
        proof {
            reveal_strlit("5");
        }
        "5"
    } else if d == 6 {
        proof {
            reveal_strlit("6");
        }
        "6"
    } else {
        proof {
            reveal_strlit("7");
        }
        "7"
    }
}

/// Build the diagnostic line for a click on the cell at `row`, `col`.
pub fn click_log_line(row: usize, col: usize, on_piece: bool) -> (line: String)
    requires
        row < 8,
        col < 8,
    ensures
        line@ == click_line_spec(row as int, col as int, on_piece),
{
    let mut line = String::from_str(
        if on_piece {
            "Clicked on piece! ("
        } else {
            "Clicked on empty! ("
        },
    );
    line.append(digit_str(row));
    line.append(", ");
    line.append(digit_str(col));
    line.append(")");
    proof {
        assert(line@ =~= click_line_spec(row as int, col as int, on_piece));
    }
    line
}

/// Handle a click on the cell at `row`, `col`: look up the occupant and
/// produce the diagnostic line that says whether a piece or an empty
/// cell was clicked — the only observable effect of input.
pub fn handle_click(board: &ChessBoard, row: usize, col: usize) -> (line: String)
    requires
        board.wf(),
        row < 8,
        col < 8,
    ensures
        line@ == click_line_spec(
            row as int,
            col as int,
            board.piece_at(row as int, col as int) is Some,
        ),
{
    match board.fetch_piece_type(row, col) {
        Some(_) => click_log_line(row, col, true),
        None => click_log_line(row, col, false),
    }
}

} // verus!
