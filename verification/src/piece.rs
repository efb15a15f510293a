//! The piece catalog: the six piece kinds, the image file that belongs to
//! each, and the registry that maps a loaded image handle to every kind.

use vstd::prelude::*;

verus! {

/// The six chess piece kinds, ignoring colour.
#[derive(Clone, Copy, Debug, PartialEq, Eq, Hash, Structural)]
pub enum ChessPiece {
    Pawn,
    Rook,
    Knight,
    Bishop,
    Queen,
    King,
}

/// The position of a piece kind in the catalog.
pub open spec fn piece_index_spec(p: ChessPiece) -> int {
    match p {
        ChessPiece::Pawn => 0,
        ChessPiece::Rook => 1,
        ChessPiece::Knight => 2,
        ChessPiece::Bishop => 3,
        ChessPiece::Queen => 4,
        ChessPiece::King => 5,
    }
}

/// The piece kind that stands at a given position of the catalog.
pub open spec fn catalog_piece(i: int) -> ChessPiece {
    if i == 0 {
        ChessPiece::Pawn
    } else if i == 1 {
        ChessPiece::Rook
    } else if i == 2 {
        ChessPiece::Knight
    } else if i == 3 {
        ChessPiece::Bishop
    } else if i == 4 {
        ChessPiece::Queen
    } else {
        ChessPiece::King
    }
}

/// The relative path of the image file for a piece kind.
pub open spec fn piece_path_spec(p: ChessPiece) -> Seq<char> {
    match p {
        ChessPiece::Pawn => "pieces/pawn.png"@,
        ChessPiece::Rook => "pieces/rook.png"@,
        ChessPiece::Knight => "pieces/knight.png"@,
        ChessPiece::Bishop => "pieces/bishop.png"@,
        ChessPiece::Queen => "pieces/queen.png"@,
        ChessPiece::King => "pieces/king.png"@,
    }
}

impl ChessPiece {
    /// The catalog position of this piece kind.
    pub fn index(&self) -> (i: usize)
        ensures
            i == piece_index_spec(*self),
            i < 6,
    {
        match self {
            ChessPiece::Pawn => 0,
            ChessPiece::Rook => 1,
            ChessPiece::Knight => 2,
            ChessPiece::Bishop => 3,
            ChessPiece::Queen => 4,
            ChessPiece::King => 5,
        }
    }

    /// The display name of this piece kind.
    pub fn name(&self) -> (n: &'static str)
        ensures
            n@ == piece_name_spec(*self),
    {
        match self {
            ChessPiece::Pawn => "Pawn",
            ChessPiece::Rook => "Rook",
            ChessPiece::Knight => "Knight",
            ChessPiece::Bishop => "Bishop",
            ChessPiece::Queen => "Queen",
            ChessPiece::King => "King",
        }
    }
}

/// The display name of a piece kind.
pub open spec fn piece_name_spec(p: ChessPiece) -> Seq<char> {
    match p {
        ChessPiece::Pawn => "Pawn"@,
        ChessPiece::Rook => "Rook"@,
        ChessPiece::Knight => "Knight"@,
        ChessPiece::Bishop => "Bishop"@,
        ChessPiece::Queen => "Queen"@,
        ChessPiece::King => "King"@,
    }
}

/// The fixed list of catalog entries: each piece kind with the relative
/// path of its image file, in catalog order.
pub fn piece_list() -> (entries: Vec<(ChessPiece, &'static str)>)
    ensures
        entries@.len() == 6,
        forall|i: int|
            0 <= i < 6 ==> entries@[i].0 == catalog_piece(i) && entries@[i].1@ == piece_path_spec(
                catalog_piece(i),
            ),
{
    let mut entries: Vec<(ChessPiece, &'static str)> = Vec::new();
    entries.push((ChessPiece::Pawn, "pieces/pawn.png"));
    entries.push((ChessPiece::Rook, "pieces/rook.png"));
    entries.push((ChessPiece::Knight, "pieces/knight.png"));
    entries.push((ChessPiece::Bishop, "pieces/bishop.png"));
    entries.push((ChessPiece::Queen, "pieces/queen.png"));
    entries.push((ChessPiece::King, "pieces/king.png"));
    entries
}

/// The registry that holds, for every piece kind, the handle of its
/// loaded image, keyed by the kind's catalog position.
#[derive(Clone, Debug, PartialEq, Eq)]
pub struct ImageRegistry {
    handles: Vec<u64>,
}

impl ImageRegistry {
    /// A registry is well formed when it holds one handle per piece kind.
    pub closed spec fn wf(self) -> bool {
        self.handles@.len() == 6
    }

    /// The handle recorded for a piece kind.
    pub closed spec fn spec_handle(self, p: ChessPiece) -> u64 {
        self.handles@[piece_index_spec(p)]
    }

    /// Look up the image handle of a piece kind.
    pub fn image_for(&self, p: &ChessPiece) -> (h: u64)
        requires
            self.wf(),
        ensures
            h == self.spec_handle(*p),
    {
        let i = p.index();
        self.handles[i]
    }
}

/// Why loading the piece images failed.
#[derive(Clone, Copy, Debug, PartialEq, Eq, Structural)]
pub enum LoadError {
    /// No handle came back for this piece kind: its image file was missing
    /// or undecodable, or the texture upload failed.
    PieceImageUnavailable(ChessPiece),
}

/// Build the image registry from the handles that the renderer returned,
/// one per catalog entry in catalog order, `None` where loading that
/// entry's image file or uploading its texture failed.
///
/// Succeeds exactly when every entry produced a handle; otherwise reports
/// the first catalog entry that failed, as a fatal startup error.
pub fn load_pieces(handles: &Vec<Option<u64>>) -> (r: Result<ImageRegistry, LoadError>)
    requires
        handles@.len() == 6,
    ensures
        r is Ok <==> (forall|i: int| 0 <= i < 6 ==> handles@[i] is Some),
        r is Ok ==> r->Ok_0.wf() && (forall|p: ChessPiece|
            r->Ok_0.spec_handle(p) == handles@[piece_index_spec(p)]->Some_0),
        forall|i: int|
            0 <= i < 6 && handles@[i] is None && (forall|j: int| 0 <= j < i ==> handles@[j] is Some)
                ==> r == Result::<ImageRegistry, LoadError>::Err(LoadError::PieceImageUnavailable(
                catalog_piece(i),
            )),
{
    let mut out: Vec<u64> = Vec::new();
    let mut i: usize = 0;
    while i < 6
        invariant
            i <= 6,
            handles@.len() == 6,
            out@.len() == i,
            forall|j: int| 0 <= j < i ==> (#[trigger] handles@[j]) is Some,
            forall|j: int| 0 <= j < i ==> #[trigger] out@[j] == handles@[j]->Some_0,
        decreases 6 - i,
    {
        match handles[i] {
            Some(h) => out.push(h),
            None => {
                let failed = catalog_piece_at(i);
                return Err(LoadError::PieceImageUnavailable(failed));
            },
        };
        i += 1;
    }
    Ok(ImageRegistry { handles: out })
}

/// The piece kind at a catalog position.
fn catalog_piece_at(i: usize) -> (p: ChessPiece)
    requires
        i < 6,
    ensures
        p == catalog_piece(i as int),
{
    if i == 0 {
        ChessPiece::Pawn
    } else if i == 1 {
        ChessPiece::Rook
    } else if i == 2 {
        ChessPiece::Knight
    } else if i == 3 {
        ChessPiece::Bishop
    } else if i == 4 {
        ChessPiece::Queen
    } else {
        ChessPiece::King
    }
}

/// Law: after a successful load, the registry is complete — every one of
/// the six piece kinds has a handle, the one that its catalog entry
/// produced — and, since the renderer hands out a fresh handle for every
/// uploaded texture, the six handles are pairwise distinct.
pub proof fn lemma_registry_complete_and_distinct(handles: Seq<Option<u64>>, reg: ImageRegistry)
    requires
        handles.len() == 6,
        forall|i: int| 0 <= i < 6 ==> handles[i] is Some,
        forall|i: int, j: int|
            0 <= i < 6 && 0 <= j < 6 && i != j ==> handles[i]->Some_0 != handles[j]->Some_0,
        reg.wf(),
        forall|p: ChessPiece| reg.spec_handle(p) == handles[piece_index_spec(p)]->Some_0,
    ensures
        forall|p: ChessPiece| reg.spec_handle(p) == handles[piece_index_spec(p)]->Some_0,
        forall|p: ChessPiece, q: ChessPiece| p != q ==> reg.spec_handle(p) != reg.spec_handle(q),
{
    assert forall|p: ChessPiece, q: ChessPiece| p != q implies reg.spec_handle(p)
        != reg.spec_handle(q) by {
        assert(piece_index_spec(p) != piece_index_spec(q));
    }
}

} // verus!
