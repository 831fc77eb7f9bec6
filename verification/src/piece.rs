//! The pieces: their kinds and sides, the sprite-atlas cell each one is
//! drawn from, and the fixed list of the 32 pieces spawned at start.
//!
//! The atlas is a 6x2 grid: one column per kind, one row per side.

use vstd::prelude::*;
use crate::board::Transform;
use crate::board::Vec3Fixed;

verus! {

/// The six kinds of chess piece.
#[derive(Clone, Copy, Debug, PartialEq, Eq, Structural)]
pub enum PieceType {
    King,
    Queen,
    Bishop,
    Knight,
    Rook,
    Pawn,
}

/// The two sides.
#[derive(Clone, Copy, Debug, PartialEq, Eq, Structural)]
pub enum PieceSide {
    White,
    Black,
}

/// The atlas column a kind is drawn from.
pub open spec fn spec_atlas_column(t: PieceType) -> int {
    match t {
        PieceType::King => 0,
        PieceType::Queen => 1,
        PieceType::Bishop => 2,
        PieceType::Knight => 3,
        PieceType::Rook => 4,
        PieceType::Pawn => 5,
    }
}

/// The atlas row a side is drawn from.
pub open spec fn spec_atlas_row(s: PieceSide) -> int {
    match s {
        PieceSide::White => 0,
        PieceSide::Black => 1,
    }
}

/// The cell of the 6-wide atlas holding a side's rendition of a kind.
pub open spec fn spec_atlas_index(t: PieceType, s: PieceSide) -> int {
    spec_atlas_row(s) * 6 + spec_atlas_column(t)
}

impl PieceType {
    /// The atlas column this kind is drawn from.
    pub fn atlas_column(self) -> (r: usize)
        ensures
            r == spec_atlas_column(self),
    {
        match self {
            PieceType::King => 0,
            PieceType::Queen => 1,
            PieceType::Bishop => 2,
            PieceType::Knight => 3,
            PieceType::Rook => 4,
            PieceType::Pawn => 5,
        }
    }

    /// The atlas cell holding `side`'s rendition of this kind.
    pub fn atlas_index(self, side: PieceSide) -> (r: usize)
        ensures
            r == spec_atlas_index(self, side),
    {
        side.atlas_row() * 6 + self.atlas_column()
    }
}

impl PieceSide {
    /// The atlas row this side is drawn from.
    pub fn atlas_row(self) -> (r: usize)
        ensures
            r == spec_atlas_row(self),
    {
        match self {
            PieceSide::White => 0,
            PieceSide::Black => 1,
        }
    }
}

/// The tag a rendered piece carries: its kind, its side and a stable
/// identifier that the piece-location table refers to.
#[derive(Clone, Copy, Debug, PartialEq, Eq, Structural)]
pub struct Piece {
    pub piece_type: PieceType,
    pub piece_side: PieceSide,
    pub identifier: usize,
}

/// A sprite cut from the piece atlas: which cell it shows.
#[derive(Clone, Copy, Debug, PartialEq, Eq, Structural)]
pub struct AtlasSprite {
    pub atlas_index: usize,
}

/// Everything a piece is spawned with: its tag, its atlas sprite and its
/// placement. Pieces start at the origin, two thousandths of a unit in
/// scale, on the layer above the squares; the table moves them afterwards.
#[derive(Clone, Copy, Debug, PartialEq, Eq, Structural)]
pub struct PieceBundle {
    pub piece: Piece,
    pub sprite: AtlasSprite,
    pub transform: Transform,
}

/// The bundle a piece is spawned with, field by field.
pub open spec fn piece_bundle_spec(identifier: usize, t: PieceType, s: PieceSide) -> PieceBundle {
    PieceBundle {
        piece: Piece { piece_type: t, piece_side: s, identifier },
        sprite: AtlasSprite { atlas_index: spec_atlas_index(t, s) as usize },
        transform: Transform {
            translation: Vec3Fixed { x: 0, y: 0, z: 4000 },
            scale: Vec3Fixed { x: 2, y: 2, z: 0 },
        },
    }
}

impl PieceBundle {
    /// Bundle up one piece for spawning.
    pub fn new(identifier: usize, piece_type: PieceType, piece_side: PieceSide) -> (r: PieceBundle)
        ensures
            r == piece_bundle_spec(identifier, piece_type, piece_side),
    {
        let index: usize = piece_type.atlas_index(piece_side);
        PieceBundle {
            piece: Piece { piece_type, piece_side, identifier },
            sprite: AtlasSprite { atlas_index: index },
            transform: Transform {
                translation: Vec3Fixed { x: 0, y: 0, z: 4000 },
                scale: Vec3Fixed { x: 2, y: 2, z: 0 },
            },
        }
    }
}

/// The kind standing on back-rank file `i`: rook, knight, bishop around
/// the queen on file 3 and the king on file 4.
pub open spec fn back_rank_type(i: int) -> PieceType {
    if i == 0 || i == 7 {
        PieceType::Rook
    } else if i == 1 || i == 6 {
        PieceType::Knight
    } else if i == 2 || i == 5 {
        PieceType::Bishop
    } else if i == 3 {
        PieceType::Queen
    } else {
        PieceType::King
    }
}

/// The identifier of the `m`-th spawned piece: each side's back rank comes
/// before its pawns, white before black, and identifiers number the back
/// ranks 0..16 and the pawns 16..32.
pub open spec fn spawn_identifier(m: int) -> int {
    if m < 8 {
        m
    } else if m < 16 {
        m + 8
    } else if m < 24 {
        m - 8
    } else {
        m
    }
}

/// The kind of the `m`-th spawned piece.
pub open spec fn spawn_piece_type(m: int) -> PieceType {
    if (8 <= m && m < 16) || 24 <= m {
        PieceType::Pawn
    } else {
        back_rank_type(m % 8)
    }
}

/// The side of the `m`-th spawned piece.
pub open spec fn spawn_side(m: int) -> PieceSide {
    if m < 16 {
        PieceSide::White
    } else {
        PieceSide::Black
    }
}

/// No two of the 32 spawned pieces share an identifier.
pub proof fn lemma_spawn_identifiers_unique(m1: int, m2: int)
    requires
        0 <= m1 < 32,
        0 <= m2 < 32,
        m1 != m2,
    ensures
        spawn_identifier(m1) != spawn_identifier(m2),
{
}

/// The kind standing on back-rank file `i`.
fn back_rank_piece(i: usize) -> (r: PieceType)
    requires
        i < 8,
    ensures
        r == back_rank_type(i as int),
{
    if i == 0 || i == 7 {
        PieceType::Rook
    } else if i == 1 || i == 6 {
        PieceType::Knight
    } else if i == 2 || i == 5 {
        PieceType::Bishop
    } else if i == 3 {
        PieceType::Queen
    } else {
        PieceType::King
    }
}

/// The 32 pieces spawned at start, in spawn order: for each side its back
/// rank then its pawns, white first.
pub fn initial_piece_spawns() -> (r: Vec<PieceBundle>)
    ensures
        r@.len() == 32,
        forall|m: int| 0 <= m < 32 ==> #[trigger] r@[m] == piece_bundle_spec(
            spawn_identifier(m) as usize,
            spawn_piece_type(m),
            spawn_side(m),
        ),
{
    let mut r: Vec<PieceBundle> = Vec::new();
    let mut m: usize = 0;
    while m < 32
        invariant
            m <= 32,
            r@.len() == m as int,
            forall|j: int| 0 <= j < m as int ==> #[trigger] r@[j] == piece_bundle_spec(
                spawn_identifier(j) as usize,
                spawn_piece_type(j),
                spawn_side(j),
            ),
        decreases 32 - m,
    {
        let side = if m < 16 {
            PieceSide::White
        } else {
            PieceSide::Black
        };
        let identifier: usize = if m < 8 {
            m
        } else if m < 16 {
            m + 8
        } else if m < 24 {
            m - 8
        } else {
            m
        };
        let piece_type = if (8 <= m && m < 16) || 24 <= m {
            PieceType::Pawn
        } else {
            back_rank_piece(m % 8)
        };
        r.push(PieceBundle::new(identifier, piece_type, side));
        m = m + 1;
    }
    r
}

} // verus!
