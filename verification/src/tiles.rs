//! The widget tree that the render loop rebuilds every frame: the header
//! and footer labels, and the two overlaid 8x8 matrices — checkerboard
//! background tiles and piece-image buttons.

use crate::board::ChessBoard;
use vstd::prelude::*;

verus! {

/// The two fill colours of the checkerboard background.
#[derive(Clone, Copy, Debug, PartialEq, Eq, Structural)]
pub enum TileColor {
    Blue,
    LightOrange,
}

/// The background colour of the tile at `row`, `col`: rows starting with
/// Blue and rows starting with LightOrange alternate, and within a row
/// the two colours alternate by column.
pub open spec fn tile_color_spec(row: int, col: int) -> TileColor {
    let start: int = if row % 2 == 0 {
        1
    } else {
        0
    };
    if (col + start) % 2 == 0 {
        TileColor::Blue
    } else {
        TileColor::LightOrange
    }
}

/// Compute the background colour of a tile.
pub fn tile_color(row: usize, col: usize) -> (c: TileColor)
    requires
        row < 8,
        col < 8,
    ensures
        c == tile_color_spec(row as int, col as int),
{
    let start: usize = if row % 2 == 0 {
        1
    } else {
        0
    };
    if (col + start) % 2 == 0 {
        TileColor::Blue
    } else {
        TileColor::LightOrange
    }
}

/// Law: the checkerboard pattern is deterministic and alternates — the
/// colour repeats two rows down and two columns across, and differs from
/// the colour one column across.
pub proof fn lemma_checkerboard_parity(row: int, col: int)
    requires
        0 <= row,
        0 <= col,
    ensures
        tile_color_spec(row, col) == tile_color_spec(row + 2, col),
        tile_color_spec(row, col) == tile_color_spec(row, col + 2),
        tile_color_spec(row, col) != tile_color_spec(row, col + 1),
{
    assert((row + 2) % 2 == row % 2) by (nonlinear_arith);
    assert((col + 2 + 1) % 2 == (col + 1) % 2) by (nonlinear_arith);
    assert((col + 2) % 2 == col % 2) by (nonlinear_arith);
    assert(forall|n: int| 0 <= n ==> #[trigger] ((n + 1) % 2) != n % 2) by (nonlinear_arith);
}

/// What the foreground matrix shows in one cell: the image button of the
/// occupying piece, or a transparent button over an empty cell.
#[derive(Clone, Copy, Debug, PartialEq, Eq, Structural)]
pub enum CellContent {
    PieceImage(u64),
    EmptyTile,
}

/// One cell of the rebuilt scene: its background colour and what stands
/// on it.
#[derive(Clone, Copy, Debug, PartialEq, Eq, Structural)]
pub struct BoardCell {
    pub color: TileColor,
    pub content: CellContent,
}

/// What the scene shows over the cell at `row`, `col` of `board`.
pub open spec fn cell_content_spec(board: ChessBoard, row: int, col: int) -> CellContent {
    match board.piece_at(row, col) {
        Some(p) => CellContent::PieceImage(board.spec_image(p)),
        None => CellContent::EmptyTile,
    }
}

/// Rebuild the 64 cells of the scene, row-major: every cell gets its
/// checkerboard background colour, and either the image button of the
/// piece standing on it or a transparent button when it is empty.
pub fn build_cells(board: &ChessBoard) -> (cells: Vec<BoardCell>)
    requires
        board.wf(),
        board.initialized(),
    ensures
        cells@.len() == 64,
        forall|row: int, col: int|
            0 <= row < 8 && 0 <= col < 8 ==> #[trigger] cells@[row * 8 + col] == (BoardCell {
                color: tile_color_spec(row, col),
                content: cell_content_spec(*board, row, col),
            }),
{
    let mut cells: Vec<BoardCell> = Vec::new();
    let mut row: usize = 0;
    while row < 8
        invariant
            board.wf(),
            board.initialized(),
            row <= 8,
            cells@.len() == row * 8,
            forall|r: int, c: int|
                0 <= r < row && 0 <= c < 8 ==> #[trigger] cells@[r * 8 + c] == (BoardCell {
                    color: tile_color_spec(r, c),
                    content: cell_content_spec(*board, r, c),
                }),
        decreases 8 - row,
    {
        let mut col: usize = 0;
        while col < 8
            invariant
                board.wf(),
                board.initialized(),
                row < 8,
                col <= 8,
                cells@.len() == row * 8 + col,
                forall|r: int, c: int|
                    0 <= r < row && 0 <= c < 8 ==> #[trigger] cells@[r * 8 + c] == (BoardCell {
                        color: tile_color_spec(r, c),
                        content: cell_content_spec(*board, r, c),
                    }),
                forall|c: int|
                    0 <= c < col ==> #[trigger] cells@[row * 8 + c] == (BoardCell {
                        color: tile_color_spec(row as int, c),
                        content: cell_content_spec(*board, row as int, c),
                    }),
            decreases 8 - col,
        {
            let color = tile_color(row, col);
            let content = match board.fetch_piece_type(row, col) {
                Some(piece_type) => CellContent::PieceImage(
                    board.fetch_piece_picture_id(&piece_type),
                ),
                None => CellContent::EmptyTile,
            };
            cells.push(BoardCell { color, content });
            col += 1;
        }
        proof {
            assert forall|r: int, c: int| 0 <= r < row + 1 && 0 <= c < 8 implies #[trigger] cells@[r
                * 8 + c] == (BoardCell {
                color: tile_color_spec(r, c),
                content: cell_content_spec(*board, r, c),
            }) by {
                if r == row as int {
                    assert(cells@[row as int * 8 + c] == (BoardCell {
                        color: tile_color_spec(row as int, c),
                        content: cell_content_spec(*board, row as int, c),
                    }));
                }
            }
        }
        row += 1;
    }
    cells
}

/// The title shown in the header band.
pub fn header_title() -> (t: &'static str)
    ensures
        t@ == "Rusty Chess"@,
{
    "Rusty Chess"
}

/// The label shown in the footer band.
pub fn footer_label() -> (t: &'static str)
    ensures
        t@ == "Footer"@,
{
    "Footer"
}

} // verus!
