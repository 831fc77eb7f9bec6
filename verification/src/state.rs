//! The piece-location table: for each of the 32 pieces its kind, side,
//! square and stable identifier, filled with the standard initial layout,
//! and the routine that moves rendered pieces onto their table squares.

use vstd::prelude::*;
use crate::board::BoardSquare;
use crate::board::SquareCoord;
use crate::board::Transform;
use crate::board::Vec3Fixed;
use crate::board::coord_matches;
use crate::piece::Piece;
use crate::piece::PieceSide;
use crate::piece::PieceType;
use crate::piece::back_rank_type;
use crate::piece::spawn_identifier;
use crate::piece::spawn_piece_type;
use crate::piece::spawn_side;

verus! {

/// One filled slot of the table: a piece's kind and side, the index of the
/// square it stands on (column-major, `8 * column + row`), and the stable
/// identifier of the rendered piece it names.
#[derive(Clone, Copy, Debug, PartialEq, Eq, Structural)]
pub struct PieceInfo {
    pub piece_type: PieceType,
    pub piece_side: PieceSide,
    pub location: usize,
    pub identifier: usize,
}

/// The fixed-size piece-location table: one slot per piece, empty once a
/// piece leaves the board.
#[derive(Debug, PartialEq, Eq)]
pub struct GameState {
    pub pieces_locations: Vec<Option<PieceInfo>>,
}

/// Slot `k` of the initial table: white's back rank on squares 0..8, its
/// pawns on 8..16, black's pawns on 48..56 and back rank on 56..64, with
/// back ranks numbered 0..16 and pawns 16..32.
pub open spec fn initial_piece_info(k: int) -> PieceInfo {
    PieceInfo {
        piece_type: if 8 <= k && k < 24 {
            PieceType::Pawn
        } else {
            back_rank_type(k % 8)
        },
        piece_side: if k < 16 {
            PieceSide::White
        } else {
            PieceSide::Black
        },
        location: (if k < 16 {
            k
        } else {
            k + 32
        }) as usize,
        identifier: (if k < 8 {
            k
        } else if k < 24 {
            k + 8
        } else {
            k - 16
        }) as usize,
    }
}

/// Slot `k` of the initial table.
fn initial_entry(k: usize) -> (r: PieceInfo)
    requires
        k < 32,
    ensures
        r == initial_piece_info(k as int),
{
    let piece_type = if 8 <= k && k < 24 {
        PieceType::Pawn
    } else if k % 8 == 0 || k % 8 == 7 {
        PieceType::Rook
    } else if k % 8 == 1 || k % 8 == 6 {
        PieceType::Knight
    } else if k % 8 == 2 || k % 8 == 5 {
        PieceType::Bishop
    } else if k % 8 == 3 {
        PieceType::Queen
    } else {
        PieceType::King
    };
    let piece_side = if k < 16 {
        PieceSide::White
    } else {
        PieceSide::Black
    };
    let location: usize = if k < 16 {
        k
    } else {
        k + 32
    };
    let identifier: usize = if k < 8 {
        k
    } else if k < 24 {
        k + 8
    } else {
        k - 16
    };
    PieceInfo { piece_type, piece_side, location, identifier }
}

impl GameState {
    /// A well-formed table has its 32 slots and no identifier twice among
    /// the filled ones.
    pub open spec fn wf(self) -> bool {
        &&& self.pieces_locations@.len() == 32
        &&& forall|k1: int, k2: int|
            0 <= k1 < k2 < 32 && (#[trigger] self.pieces_locations@[k1]) is Some && (
            #[trigger] self.pieces_locations@[k2]) is Some
                ==> self.pieces_locations@[k1]->0.identifier
                != self.pieces_locations@[k2]->0.identifier
    }

    /// Whether every slot still holds its initial entry.
    pub open spec fn is_initial(self) -> bool {
        &&& self.pieces_locations@.len() == 32
        &&& forall|k: int| 0 <= k < 32 ==> #[trigger] self.pieces_locations@[k] == Some(
            initial_piece_info(k),
        )
    }

    /// Whether the table is well formed, decided at run time.
    pub fn check_well_formed(&self) -> (r: bool)
        ensures
            r == self.wf(),
    {
        if self.pieces_locations.len() != 32 {
            return false;
        }
        let mut k1: usize = 0;
        while k1 < 32
            invariant
                self.pieces_locations@.len() == 32,
                k1 <= 32,
                forall|i: int, j: int|
                    0 <= i < j < 32 && i < k1 as int && (
                    #[trigger] self.pieces_locations@[i]) is Some && (
                    #[trigger] self.pieces_locations@[j]) is Some
                        ==> self.pieces_locations@[i]->0.identifier
                        != self.pieces_locations@[j]->0.identifier,
            decreases 32 - k1,
        {
            if let Some(a) = self.pieces_locations[k1] {
                let mut k2: usize = k1 + 1;
                while k2 < 32
                    invariant
                        self.pieces_locations@.len() == 32,
                        k1 < k2 <= 32,
                        self.pieces_locations@[k1 as int] == Some(a),
                        forall|j: int|
                            (k1 as int) < j < (k2 as int) && (
                            #[trigger] self.pieces_locations@[j]) is Some ==> a.identifier
                                != self.pieces_locations@[j]->0.identifier,
                    decreases 32 - k2,
                {
                    if let Some(b) = self.pieces_locations[k2] {
                        if a.identifier == b.identifier {
                            return false;
                        }
                    }
                    k2 = k2 + 1;
                }
            }
            k1 = k1 + 1;
        }
        true
    }
}

impl Default for GameState {
    /// The table filled with the standard initial layout.
    fn default() -> (r: GameState)
        ensures
            r.is_initial(),
            r.wf(),
    {
        let mut pieces_locations: Vec<Option<PieceInfo>> = Vec::new();
        let mut k: usize = 0;
        while k < 32
            invariant
                k <= 32,
                pieces_locations@.len() == k as int,
                forall|j: int| 0 <= j < k as int ==> #[trigger] pieces_locations@[j] == Some(
                    initial_piece_info(j),
                ),
            decreases 32 - k,
        {
            pieces_locations.push(Some(initial_entry(k)));
            k = k + 1;
        }
        let r = GameState { pieces_locations };
        proof {
            assert forall|k1: int, k2: int|
                0 <= k1 < k2 < 32 && (#[trigger] r.pieces_locations@[k1]) is Some && (
                #[trigger] r.pieces_locations@[k2]) is Some implies r.pieces_locations@[k1]->0.identifier
                != r.pieces_locations@[k2]->0.identifier by {
                assert(r.pieces_locations@[k1] == Some(initial_piece_info(k1)));
                assert(r.pieces_locations@[k2] == Some(initial_piece_info(k2)));
            }
        }
        r
    }
}

/// Whether `i` points at the first square of the list with coordinate
/// `(x, y)`.
pub open spec fn is_first_square_index(
    squares: Seq<(BoardSquare, Transform)>,
    x: int,
    y: int,
    i: int,
) -> bool {
    &&& 0 <= i < squares.len()
    &&& coord_matches(squares[i].0.coord, x, y)
    &&& forall|j: int| 0 <= j < i ==> !coord_matches((#[trigger] squares[j]).0.coord, x, y)
}

/// Whether `i` points at the first piece of the list carrying `id`.
pub open spec fn is_first_piece_index(pieces: Seq<(Piece, Transform)>, id: int, i: int) -> bool {
    &&& 0 <= i < pieces.len()
    &&& pieces[i].0.identifier == id
    &&& forall|j: int| 0 <= j < i ==> (#[trigger] pieces[j]).0.identifier != id
}

/// Whether `si` points at the first square of the list with the
/// coordinate that table location `loc` denotes: column `loc % 8`, row
/// `loc / 8`.
pub open spec fn is_first_square_for_location(
    squares: Seq<(BoardSquare, Transform)>,
    loc: int,
    si: int,
) -> bool {
    is_first_square_index(squares, loc % 8, loc / 8, si)
}

/// Whether slot `k` of the table moves piece `j`: the slot is filled,
/// piece `j` is the first of the list carrying the slot's identifier, and
/// the slot's square is in the list.
pub open spec fn entry_moves_piece(
    state: GameState,
    squares: Seq<(BoardSquare, Transform)>,
    pieces: Seq<(Piece, Transform)>,
    k: int,
    j: int,
) -> bool {
    &&& 0 <= k < state.pieces_locations@.len()
    &&& state.pieces_locations@[k] is Some
    &&& is_first_piece_index(pieces, state.pieces_locations@[k]->0.identifier as int, j)
    &&& exists|si: int|
        #[trigger] is_first_square_for_location(
            squares,
            state.pieces_locations@[k]->0.location as int,
            si,
        )
}

/// The value piece `j` takes when slot `k` moves it: placed a hundredth of
/// a unit left of its square's anchor, at its own height and scale.
pub open spec fn moved_piece(
    state: GameState,
    squares: Seq<(BoardSquare, Transform)>,
    pieces: Seq<(Piece, Transform)>,
    k: int,
    j: int,
) -> (Piece, Transform) {
    let info = state.pieces_locations@[k]->0;
    let si = choose|si: int| is_first_square_for_location(squares, info.location as int, si);
    (
        pieces[j].0,
        Transform {
            translation: Vec3Fixed {
                x: (squares[si].1.translation.x - 10) as i64,
                y: squares[si].1.translation.y,
                z: pieces[j].1.translation.z,
            },
            scale: pieces[j].1.scale,
        },
    )
}

/// What the positioning pass leaves in piece slot `j`.
pub open spec fn repositioned(
    state: GameState,
    squares: Seq<(BoardSquare, Transform)>,
    pieces: Seq<(Piece, Transform)>,
    j: int,
) -> (Piece, Transform) {
    if exists|k: int| entry_moves_piece(state, squares, pieces, k, j) {
        let k = choose|k: int| entry_moves_piece(state, squares, pieces, k, j);
        moved_piece(state, squares, pieces, k, j)
    } else {
        pieces[j]
    }
}

/// Whether some slot below `hi` moves piece `j`.
pub open spec fn moved_by_entry_below(
    state: GameState,
    squares: Seq<(BoardSquare, Transform)>,
    pieces: Seq<(Piece, Transform)>,
    j: int,
    hi: int,
) -> bool {
    exists|k: int| k < hi && #[trigger] entry_moves_piece(state, squares, pieces, k, j)
}

/// Two first-square indices for one coordinate coincide.
proof fn lemma_first_square_unique(
    squares: Seq<(BoardSquare, Transform)>,
    x: int,
    y: int,
    i1: int,
    i2: int,
)
    requires
        is_first_square_index(squares, x, y, i1),
        is_first_square_index(squares, x, y, i2),
    ensures
        i1 == i2,
{
    if i1 < i2 {
        assert(!coord_matches(squares[i1].0.coord, x, y));
    }
    if i2 < i1 {
        assert(!coord_matches(squares[i2].0.coord, x, y));
    }
}

/// Two first-piece indices for one identifier coincide.
proof fn lemma_first_piece_unique(pieces: Seq<(Piece, Transform)>, id: int, i1: int, i2: int)
    requires
        is_first_piece_index(pieces, id, i1),
        is_first_piece_index(pieces, id, i2),
    ensures
        i1 == i2,
{
    if i1 < i2 {
        assert(pieces[i1].0.identifier != id);
    }
    if i2 < i1 {
        assert(pieces[i2].0.identifier != id);
    }
}

/// Being the first piece with an identifier depends on the tags alone, not
/// on the placements.
proof fn lemma_first_piece_same_tags(
    p1: Seq<(Piece, Transform)>,
    p2: Seq<(Piece, Transform)>,
    id: int,
    i: int,
)
    requires
        p1.len() == p2.len(),
        forall|j: int| 0 <= j < p1.len() ==> (#[trigger] p1[j]).0 == p2[j].0,
        is_first_piece_index(p1, id, i),
    ensures
        is_first_piece_index(p2, id, i),
{
    assert forall|j: int| 0 <= j < i implies (#[trigger] p2[j]).0.identifier != id by {
        assert(p1[j].0.identifier != id);
    }
}

/// In a well-formed table at most one slot moves a given piece.
proof fn lemma_entry_unique(
    state: GameState,
    squares: Seq<(BoardSquare, Transform)>,
    pieces: Seq<(Piece, Transform)>,
    k1: int,
    k2: int,
    j: int,
)
    requires
        state.wf(),
        entry_moves_piece(state, squares, pieces, k1, j),
        entry_moves_piece(state, squares, pieces, k2, j),
    ensures
        k1 == k2,
{
    assert(pieces[j].0.identifier as int == state.pieces_locations@[k1]->0.identifier as int);
    assert(pieces[j].0.identifier as int == state.pieces_locations@[k2]->0.identifier as int);
}

/// The index of the first square of the list with coordinate `(x, y)`.
fn find_square_index(squares: &Vec<(BoardSquare, Transform)>, x: usize, y: usize) -> (r: Option<
    usize,
>)
    ensures
        match r {
            Some(i) => is_first_square_index(squares@, x as int, y as int, i as int),
            None => forall|j: int|
                0 <= j < squares@.len() ==> !coord_matches(
                    (#[trigger] squares@[j]).0.coord,
                    x as int,
                    y as int,
                ),
        },
{
    let n: usize = squares.len();
    let mut i: usize = 0;
    while i < n
        invariant
            n == squares@.len(),
            i <= n,
            forall|j: int|
                0 <= j < i as int ==> !coord_matches(
                    (#[trigger] squares@[j]).0.coord,
                    x as int,
                    y as int,
                ),
        decreases n - i,
    {
        if squares[i].0.coord.matches_indices(x, y) {
            return Some(i);
        }
        i = i + 1;
    }
    None
}

/// The index of the first piece of the list carrying `id`.
fn find_piece_index(pieces: &Vec<(Piece, Transform)>, id: usize) -> (r: Option<usize>)
    ensures
        match r {
            Some(i) => is_first_piece_index(pieces@, id as int, i as int),
            None => forall|j: int|
                0 <= j < pieces@.len() ==> (#[trigger] pieces@[j]).0.identifier != id as int,
        },
{
    let n: usize = pieces.len();
    let mut i: usize = 0;
    while i < n
        invariant
            n == pieces@.len(),
            i <= n,
            forall|j: int| 0 <= j < i as int ==> (#[trigger] pieces@[j]).0.identifier != id as int,
        decreases n - i,
    {
        if pieces[i].0.identifier == id {
            return Some(i);
        }
        i = i + 1;
    }
    None
}

/// Walk the table and move each named piece onto its square: a piece moves
/// when its slot is filled, it is the first of the list carrying the
/// slot's identifier, and the slot's square is in the list; every other
/// piece keeps its placement, and no tag or scale changes.
pub fn position_pieces(
    state: &GameState,
    squares: &Vec<(BoardSquare, Transform)>,
    pieces: &mut Vec<(Piece, Transform)>,
)
    requires
        state.wf(),
        forall|i: int|
            0 <= i < squares@.len() ==> (#[trigger] squares@[i]).1.translation.x >= i64::MIN + 10,
    ensures
        final(pieces)@.len() == old(pieces)@.len(),
        forall|j: int|
            0 <= j < final(pieces)@.len() ==> #[trigger] final(pieces)@[j] == repositioned(
                *state,
                squares@,
                old(pieces)@,
                j,
            ),
{
    let mut k: usize = 0;
    while k < 32
        invariant
            state.wf(),
            forall|i: int|
                0 <= i < squares@.len() ==> (#[trigger] squares@[i]).1.translation.x >= i64::MIN
                    + 10,
            k <= 32,
            pieces@.len() == old(pieces)@.len(),
            forall|j: int|
                0 <= j < pieces@.len() ==> (#[trigger] pieces@[j]).0 == old(pieces)@[j].0,
            forall|j: int|
                0 <= j < pieces@.len() ==> if moved_by_entry_below(
                    *state,
                    squares@,
                    old(pieces)@,
                    j,
                    k as int,
                ) {
                    (#[trigger] pieces@[j]) == repositioned(*state, squares@, old(pieces)@, j)
                } else {
                    pieces@[j] == old(pieces)@[j]
                },
        decreases 32 - k,
    {
        let slot = state.pieces_locations[k];
        if let Some(info) = slot {
            let x: usize = info.location % 8;
            let y: usize = info.location / 8;
            match find_square_index(squares, x, y) {
                None => {
                    proof {
                        assert(x as int == info.location as int % 8);
                        assert(y as int == info.location as int / 8);
                        assert forall|j: int|
                            !entry_moves_piece(*state, squares@, old(pieces)@, k as int, j) by {
                            assert forall|si: int|
                                !is_first_square_for_location(
                                    squares@,
                                    info.location as int,
                                    si,
                                ) by {}
                        }
                    }
                },
                Some(si) => {
                    match find_piece_index(pieces, info.identifier) {
                        None => {
                            proof {
                                assert forall|j: int|
                                    !entry_moves_piece(
                                        *state,
                                        squares@,
                                        old(pieces)@,
                                        k as int,
                                        j,
                                    ) by {
                                    if is_first_piece_index(
                                        old(pieces)@,
                                        info.identifier as int,
                                        j,
                                    ) {
                                        assert(old(pieces)@[j].0.identifier == info.identifier);
                                        assert(pieces@[j].0.identifier == info.identifier as int);
                                    }
                                }
                            }
                        },
                        Some(pi) => {
                            proof {
                                assert(x as int == info.location as int % 8);
                                assert(y as int == info.location as int / 8);
                                assert(is_first_square_for_location(
                                    squares@,
                                    info.location as int,
                                    si as int,
                                ));
                                lemma_first_piece_same_tags(
                                    pieces@,
                                    old(pieces)@,
                                    info.identifier as int,
                                    pi as int,
                                );
                                assert(entry_moves_piece(
                                    *state,
                                    squares@,
                                    old(pieces)@,
                                    k as int,
                                    pi as int,
                                ));
                                if moved_by_entry_below(
                                    *state,
                                    squares@,
                                    old(pieces)@,
                                    pi as int,
                                    k as int,
                                ) {
                                    let k2 = choose|k2: int|
                                        k2 < k as int && #[trigger] entry_moves_piece(
                                            *state,
                                            squares@,
                                            old(pieces)@,
                                            k2,
                                            pi as int,
                                        );
                                    lemma_entry_unique(
                                        *state,
                                        squares@,
                                        old(pieces)@,
                                        k2,
                                        k as int,
                                        pi as int,
                                    );
                                }
                                assert(pieces@[pi as int] == old(pieces)@[pi as int]);
                            }
                            let sq_t = squares[si].1;
                            let here = pieces[pi];
                            let moved = (
                                here.0,
                                Transform {
                                    translation: Vec3Fixed {
                                        x: sq_t.translation.x - 10,
                                        y: sq_t.translation.y,
                                        z: here.1.translation.z,
                                    },
                                    scale: here.1.scale,
                                },
                            );
                            pieces.set(pi, moved);
                            proof {
                                let kk = choose|kk: int|
                                    entry_moves_piece(*state, squares@, old(pieces)@, kk, pi as int);
                                lemma_entry_unique(
                                    *state,
                                    squares@,
                                    old(pieces)@,
                                    kk,
                                    k as int,
                                    pi as int,
                                );
                                let si2 = choose|si2: int|
                                    is_first_square_for_location(squares@, info.location as int, si2);
                                lemma_first_square_unique(
                                    squares@,
                                    x as int,
                                    y as int,
                                    si as int,
                                    si2,
                                );
                                assert(pieces@[pi as int] == repositioned(
                                    *state,
                                    squares@,
                                    old(pieces)@,
                                    pi as int,
                                ));
                            }
                        },
                    }
                },
            }
        }
        proof {
            assert forall|j: int| 0 <= j < pieces@.len() implies if moved_by_entry_below(
                *state,
                squares@,
                old(pieces)@,
                j,
                k as int + 1,
            ) {
                (#[trigger] pieces@[j]) == repositioned(*state, squares@, old(pieces)@, j)
            } else {
                pieces@[j] == old(pieces)@[j]
            } by {
                if moved_by_entry_below(*state, squares@, old(pieces)@, j, k as int + 1)
                    && !moved_by_entry_below(*state, squares@, old(pieces)@, j, k as int) {
                    assert(entry_moves_piece(*state, squares@, old(pieces)@, k as int, j));
                }
            }
        }
        k = k + 1;
    }
    proof {
        assert forall|j: int| 0 <= j < pieces@.len() implies #[trigger] pieces@[j] == repositioned(
            *state,
            squares@,
            old(pieces)@,
            j,
        ) by {
            if !moved_by_entry_below(*state, squares@, old(pieces)@, j, 32) {
                assert forall|kk: int|
                    !entry_moves_piece(*state, squares@, old(pieces)@, kk, j) by {
                    if entry_moves_piece(*state, squares@, old(pieces)@, kk, j) {
                        assert(kk < 32);
                    }
                }
            }
        }
    }
}

/// Every piece spawned at start is named by a slot of the initial table
/// with the same identifier, kind and side.
pub proof fn lemma_spawn_named_in_initial_table(m: int)
    requires
        0 <= m < 32,
    ensures
        exists|k: int|
            0 <= k < 32 && (#[trigger] initial_piece_info(k)).identifier as int
                == spawn_identifier(m) && initial_piece_info(k).piece_type == spawn_piece_type(m)
                && initial_piece_info(k).piece_side == spawn_side(m),
{
    let k = if m < 16 {
        m
    } else if m < 24 {
        m + 8
    } else {
        m - 8
    };
    assert(0 <= k < 32 && initial_piece_info(k).identifier as int == spawn_identifier(m)
        && initial_piece_info(k).piece_type == spawn_piece_type(m)
        && initial_piece_info(k).piece_side == spawn_side(m));
}

/// Every slot of the initial table names a piece spawned at start with the
/// same identifier, kind and side.
pub proof fn lemma_initial_table_names_spawn(k: int)
    requires
        0 <= k < 32,
    ensures
        exists|m: int|
            0 <= m < 32 && #[trigger] spawn_identifier(m) == initial_piece_info(k).identifier as int
                && spawn_piece_type(m) == initial_piece_info(k).piece_type && spawn_side(m)
                == initial_piece_info(k).piece_side,
{
    let m = if k < 16 {
        k
    } else if k < 24 {
        k + 8
    } else {
        k - 8
    };
    assert(0 <= m < 32 && spawn_identifier(m) == initial_piece_info(k).identifier as int
        && spawn_piece_type(m) == initial_piece_info(k).piece_type && spawn_side(m)
        == initial_piece_info(k).piece_side);
}

/// Every slot of the initial table stands on the 8x8 board: its location
/// is below 64, and the full board list holds a first square for it.
pub proof fn lemma_initial_locations_on_board(squares: Seq<(BoardSquare, Transform)>, k: int)
    requires
        squares.len() == 64,
        forall|i: int| 0 <= i < 64 ==> (#[trigger] squares[i]).0.coord == SquareCoord(
            (i / 8) as u32,
            (i % 8) as u32,
        ),
        0 <= k < 32,
    ensures
        initial_piece_info(k).location < 64,
        exists|si: int|
            #[trigger] is_first_square_for_location(
                squares,
                initial_piece_info(k).location as int,
                si,
            ),
{
    let loc = initial_piece_info(k).location as int;
    let c = loc % 8;
    let r = loc / 8;
    let i0 = 8 * c + r;
    assert(coord_matches(squares[i0].0.coord, c, r));
    assert forall|j: int| 0 <= j < i0 implies !coord_matches(
        (#[trigger] squares[j]).0.coord,
        c,
        r,
    ) by {
        if coord_matches(squares[j].0.coord, c, r) {
            assert(j / 8 == c && j % 8 == r);
            assert(j == 8 * (j / 8) + (j % 8));
        }
    }
    assert(is_first_square_for_location(squares, loc, i0));
}

} // verus!
