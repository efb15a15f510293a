//! The board state: a fixed 64-cell grid of optional piece kinds, set once
//! to the standard chess starting layout and never changed, together with
//! the image registry that the render loop reads handles from.

use crate::piece::{
    catalog_piece, load_pieces, piece_index_spec, ChessPiece, ImageRegistry, LoadError,
};
use vstd::prelude::*;

verus! {

/// The occupant of a cell in the standard chess starting layout.
pub open spec fn starting_piece(row: int, col: int) -> Option<ChessPiece> {
    if row == 0 || row == 7 {
        Some(back_rank_piece(col))
    } else if row == 1 || row == 6 {
        Some(ChessPiece::Pawn)
    } else {
        None
    }
}

/// The piece kind at a column of the back rank: Rook, Knight, Bishop,
/// Queen, King, Bishop, Knight, Rook.
pub open spec fn back_rank_piece(col: int) -> ChessPiece {
    if col == 0 || col == 7 {
        ChessPiece::Rook
    } else if col == 1 || col == 6 {
        ChessPiece::Knight
    } else if col == 2 || col == 5 {
        ChessPiece::Bishop
    } else if col == 3 {
        ChessPiece::Queen
    } else {
        ChessPiece::King
    }
}

/// The 8x8 board, stored row-major as 64 optional piece kinds, plus the
/// image registry once it has been loaded.
pub struct ChessBoard {
    board: Vec<Option<ChessPiece>>,
    images: Option<ImageRegistry>,
}

impl ChessBoard {
    /// The occupant of the cell at `row`, `col`.
    pub closed spec fn piece_at(self, row: int, col: int) -> Option<ChessPiece> {
        self.board@[row * 8 + col]
    }

    /// A board is well formed when it holds 64 cells in the standard
    /// starting arrangement — no operation ever moves a piece — and its
    /// registry, once present, holds a handle for every piece kind.
    pub closed spec fn wf(self) -> bool {
        &&& self.board@.len() == 64
        &&& forall|row: int, col: int|
            0 <= row < 8 && 0 <= col < 8 ==> #[trigger] self.piece_at(row, col) == starting_piece(
                row,
                col,
            )
        &&& (self.images is Some ==> self.images->Some_0.wf())
    }

    /// Whether the image registry has been loaded.
    pub closed spec fn initialized(self) -> bool {
        self.images is Some
    }

    /// The handle recorded for a piece kind, once initialized.
    pub closed spec fn spec_image(self, p: ChessPiece) -> u64 {
        self.images->Some_0.spec_handle(p)
    }

    /// Install the image registry built from the handles that the
    /// renderer returned, one per catalog entry in catalog order, `None`
    /// where loading that entry failed. On failure the board is left as
    /// it was and the error reports the first entry that failed.
    pub fn init(&mut self, handles: &Vec<Option<u64>>) -> (r: Result<(), LoadError>)
        requires
            old(self).wf(),
            handles@.len() == 6,
        ensures
            final(self).wf(),
            r is Ok <==> (forall|i: int| 0 <= i < 6 ==> handles@[i] is Some),
            r is Ok ==> final(self).initialized() && (forall|p: ChessPiece|
                final(self).spec_image(p) == handles@[piece_index_spec(p)]->Some_0),
            r is Err ==> *final(self) == *old(self),
            forall|i: int|
                0 <= i < 6 && handles@[i] is None && (forall|j: int|
                    0 <= j < i ==> handles@[j] is Some) ==> r == Result::<(), LoadError>::Err(
                    LoadError::PieceImageUnavailable(catalog_piece(i)),
                ),
    {
        match load_pieces(handles) {
            Ok(registry) => {
                self.images = Some(registry);
                proof {
                    assert forall|row: int, col: int| 0 <= row < 8 && 0 <= col < 8 implies #[trigger] self
                        .piece_at(row, col) == starting_piece(row, col) by {
                        assert(old(self).piece_at(row, col) == starting_piece(row, col));
                    }
                }
                Ok(())
            },
            Err(e) => Err(e),
        }
    }

    /// The occupant of the cell at `row`, `col`: the same result on every
    /// call with the same coordinates, since nothing mutates the board.
    pub fn fetch_piece_type(&self, row: usize, col: usize) -> (p: Option<ChessPiece>)
        requires
            self.wf(),
            row < 8,
            col < 8,
        ensures
            p == self.piece_at(row as int, col as int),
            p == starting_piece(row as int, col as int),
    {
        self.board[col + row * 8]
    }

    /// The image handle recorded for a piece kind. Must not be called
    /// before `init` has loaded the registry.
    pub fn fetch_piece_picture_id(&self, piece_type: &ChessPiece) -> (h: u64)
        requires
            self.wf(),
            self.initialized(),
        ensures
            h == self.spec_image(*piece_type),
    {
        match &self.images {
            Some(registry) => registry.image_for(piece_type),
            None => unreached(),
        }
    }
}

impl Default for ChessBoard {
    /// A fresh board: the standard starting layout, no registry yet.
    fn default() -> (b: ChessBoard)
        ensures
            b.wf(),
            !b.initialized(),
    {
        let mut board: Vec<Option<ChessPiece>> = Vec::new();
        let mut i: usize = 0;
        while i < 64
            invariant
                i <= 64,
                board@.len() == i,
                forall|k: int| 0 <= k < i ==> #[trigger] board@[k] == starting_piece(k / 8, k % 8),
            decreases 64 - i,
        {
            board.push(starting_piece_at(i / 8, i % 8));
            i += 1;
        }
        let b = ChessBoard { board, images: None };
        assert forall|row: int, col: int| 0 <= row < 8 && 0 <= col < 8 implies #[trigger] b.piece_at(
            row,
            col,
        ) == starting_piece(row, col) by {
            let k = row * 8 + col;
            assert(b.board@[k] == starting_piece(k / 8, k % 8));
            assert(k / 8 == row && k % 8 == col) by (nonlinear_arith)
                requires
                    0 <= row < 8 && 0 <= col < 8 && k == row * 8 + col,
            ;
        }
        b
    }
}

/// The occupant of a cell in the standard starting layout.
fn starting_piece_at(row: usize, col: usize) -> (p: Option<ChessPiece>)
    requires
        row < 8,
        col < 8,
    ensures
        p == starting_piece(row as int, col as int),
{
    if row == 0 || row == 7 {
        if col == 0 || col == 7 {
            Some(ChessPiece::Rook)
        } else if col == 1 || col == 6 {
            Some(ChessPiece::Knight)
        } else if col == 2 || col == 5 {
            Some(ChessPiece::Bishop)
        } else if col == 3 {
            Some(ChessPiece::Queen)
        } else {
            Some(ChessPiece::King)
        }
    } else if row == 1 || row == 6 {
        Some(ChessPiece::Pawn)
    } else {
        None
    }
}

/// Law: on a fresh, well-formed board every cell holds what the standard
/// starting arrangement puts there — Rooks in the corners, Knights and
/// Bishops beside them, Queen and King in the middle of rows 0 and 7,
/// Pawns across rows 1 and 6, and nothing in rows 2 through 5.
pub proof fn lemma_default_layout(b: ChessBoard)
    requires
        b.wf(),
    ensures
        b.piece_at(0, 0) == Some(ChessPiece::Rook),
        b.piece_at(0, 7) == Some(ChessPiece::Rook),
        b.piece_at(7, 0) == Some(ChessPiece::Rook),
        b.piece_at(7, 7) == Some(ChessPiece::Rook),
        b.piece_at(0, 1) == Some(ChessPiece::Knight),
        b.piece_at(0, 6) == Some(ChessPiece::Knight),
        b.piece_at(7, 1) == Some(ChessPiece::Knight),
        b.piece_at(7, 6) == Some(ChessPiece::Knight),
        b.piece_at(0, 2) == Some(ChessPiece::Bishop),
        b.piece_at(0, 5) == Some(ChessPiece::Bishop),
        b.piece_at(7, 2) == Some(ChessPiece::Bishop),
        b.piece_at(7, 5) == Some(ChessPiece::Bishop),
        b.piece_at(0, 3) == Some(ChessPiece::Queen),
        b.piece_at(7, 3) == Some(ChessPiece::Queen),
        b.piece_at(0, 4) == Some(ChessPiece::King),
        b.piece_at(7, 4) == Some(ChessPiece::King),
        forall|col: int|
            0 <= col < 8 ==> #[trigger] b.piece_at(1, col) == Some(ChessPiece::Pawn)
                && b.piece_at(6, col) == Some(ChessPiece::Pawn),
        forall|row: int, col: int|
            2 <= row < 6 && 0 <= col < 8 ==> #[trigger] b.piece_at(row, col) is None,
{
}

/// Law: reading a cell is idempotent — the results of two reads of the
/// same cell of the same board are equal, since the result depends only
/// on the board's contents and nothing mutates them after construction.
pub proof fn lemma_piece_at_idempotent(
    b: ChessBoard,
    row: int,
    col: int,
    first: Option<ChessPiece>,
    second: Option<ChessPiece>,
)
    requires
        first == b.piece_at(row, col),
        second == b.piece_at(row, col),
    ensures
        first == second,
{
}

/// How many of the first `k` cells of the board, row-major, are occupied.
pub open spec fn occupied_up_to(b: ChessBoard, k: int) -> int
    decreases k,
{
    if k <= 0 {
        0
    } else {
        occupied_up_to(b, k - 1) + if b.piece_at((k - 1) / 8, (k - 1) % 8) is Some {
            1int
        } else {
            0int
        }
    }
}

/// Law: a well-formed board holds exactly 32 occupied and 32 empty cells,
/// for the lifetime of the process — no mutation path exists.
pub proof fn lemma_thirty_two_occupied(b: ChessBoard)
    requires
        b.wf(),
    ensures
        occupied_up_to(b, 64) == 32,
{
    lemma_occupied_prefix(b, 64);
}

/// The occupied cells among the first `k`, row-major, are those of rows
/// 0 and 1 (the first 16 cells) and of rows 6 and 7 (cells 48 and up).
proof fn lemma_occupied_prefix(b: ChessBoard, k: int)
    requires
        b.wf(),
        0 <= k <= 64,
    ensures
        occupied_up_to(b, k) == (if k <= 16 {
            k
        } else if k <= 48 {
            16
        } else {
            k - 32
        }),
    decreases k,
{
    if k > 0 {
        lemma_occupied_prefix(b, k - 1);
        let row = (k - 1) / 8;
        let col = (k - 1) % 8;
        assert(0 <= row < 8 && 0 <= col < 8 && k - 1 == row * 8 + col) by (nonlinear_arith)
            requires
                row == (k - 1) / 8 && col == (k - 1) % 8 && 0 < k <= 64,
        ;
        assert(b.piece_at(row, col) == starting_piece(row, col));
        assert((row == 0 || row == 1) <==> k - 1 < 16) by (nonlinear_arith)
            requires
                row == (k - 1) / 8 && col == (k - 1) % 8 && 0 < k <= 64,
        ;
        assert((row == 6 || row == 7) <==> k - 1 >= 48) by (nonlinear_arith)
            requires
                row == (k - 1) / 8 && col == (k - 1) % 8 && 0 < k <= 64,
        ;
    }
}

} // verus!
