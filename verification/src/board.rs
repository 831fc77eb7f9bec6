//! The board: an 8x8 grid of colored square tiles, each a tenth of a world
//! unit wide, centred on the origin, and the hit test that resolves a
//! cursor position to the tile under it.
//!
//! Lengths are in thousandths of a world unit: a tile is 100 of them wide.

use vstd::prelude::*;

verus! {

/// A displacement or scale in scene space, in thousandths of a world unit.
#[derive(Clone, Copy, Debug, PartialEq, Eq, Structural)]
pub struct Vec3Fixed {
    pub x: i64,
    pub y: i64,
    pub z: i64,
}

/// Where an entity is drawn and how large: a translation and a scale.
#[derive(Clone, Copy, Debug, PartialEq, Eq, Structural)]
pub struct Transform {
    pub translation: Vec3Fixed,
    pub scale: Vec3Fixed,
}

/// The tints the scene draws with: the two square shades and the
/// transparent backdrop behind the whole board.
#[derive(Clone, Copy, Debug, PartialEq, Eq, Structural)]
pub enum SpriteColor {
    BlackSquare,
    WhiteSquare,
    Transparent,
}

/// A single-color sprite.
#[derive(Clone, Copy, Debug, PartialEq, Eq, Structural)]
pub struct Sprite {
    pub color: SpriteColor,
}

/// A discrete board position: column and row, each counted from zero.
#[derive(Clone, Copy, Debug, PartialEq, Eq, Structural)]
pub struct SquareCoord(pub u32, pub u32);

/// Whether this coordinate names the square at column `x`, row `y`.
pub open spec fn coord_matches(c: SquareCoord, x: int, y: int) -> bool {
    c.0 as int == x && c.1 as int == y
}

impl SquareCoord {
    /// Compare against a pair of indices, as lookups by location do.
    pub fn matches_indices(&self, x: usize, y: usize) -> (r: bool)
        ensures
            r == coord_matches(*self, x as int, y as int),
    {
        self.0 as usize == x && self.1 as usize == y
    }
}

/// The tag a rendered square tile carries: its board coordinate.
#[derive(Clone, Copy, Debug, PartialEq, Eq, Structural)]
pub struct BoardSquare {
    pub coord: SquareCoord,
}

/// Everything a square tile is spawned with: its tag, its placement and
/// its sprite.
#[derive(Clone, Copy, Debug, PartialEq, Eq, Structural)]
pub struct BoardSquareBundle {
    pub board_square: BoardSquare,
    pub transform: Transform,
    pub sprite: Sprite,
}

/// The square tile of column `x`, row `y`: a 100-thousandth-wide tile at
/// `(100 x - 350, 100 y - 350)`, dark when `x + y` is even.
pub open spec fn square_spec(x: int, y: int) -> BoardSquareBundle {
    BoardSquareBundle {
        board_square: BoardSquare { coord: SquareCoord(x as u32, y as u32) },
        transform: Transform {
            translation: Vec3Fixed {
                x: (100 * x - 350) as i64,
                y: (100 * y - 350) as i64,
                z: 1000,
            },
            scale: Vec3Fixed { x: 100, y: 100, z: 1000 },
        },
        sprite: Sprite {
            color: if (x + y) % 2 == 0 {
                SpriteColor::BlackSquare
            } else {
                SpriteColor::WhiteSquare
            },
        },
    }
}

impl BoardSquareBundle {
    /// Lay out the square tile of column `x`, row `y`.
    pub fn new(x: u32, y: u32) -> (r: BoardSquareBundle)
        requires
            x < 8,
            y < 8,
        ensures
            r == square_spec(x as int, y as int),
    {
        let x_location: i64 = (x as i64) * 100 - 350;
        let y_location: i64 = (y as i64) * 100 - 350;
        BoardSquareBundle {
            board_square: BoardSquare { coord: SquareCoord(x, y) },
            transform: Transform {
                translation: Vec3Fixed { x: x_location, y: y_location, z: 1000 },
                scale: Vec3Fixed { x: 100, y: 100, z: 1000 },
            },
            sprite: Sprite {
                color: if (x + y) % 2 == 0 {
                    SpriteColor::BlackSquare
                } else {
                    SpriteColor::WhiteSquare
                },
            },
        }
    }
}

/// The marker the board root entity carries.
#[derive(Clone, Copy, Debug, PartialEq, Eq, Structural)]
pub struct Board;

/// Everything the board root is spawned with: a transparent backdrop
/// scaled to 700 world units.
#[derive(Clone, Copy, Debug, PartialEq, Eq, Structural)]
pub struct BoardBundle {
    pub board: Board,
    pub sprite: Sprite,
    pub transform: Transform,
}

impl BoardBundle {
    /// Lay out the board backdrop.
    pub fn new() -> (r: BoardBundle)
        ensures
            r.sprite.color == SpriteColor::Transparent,
            r.transform.translation == (Vec3Fixed { x: 0, y: 0, z: 0 }),
            r.transform.scale == (Vec3Fixed { x: 700_000, y: 700_000, z: 1000 }),
    {
        BoardBundle {
            board: Board,
            sprite: Sprite { color: SpriteColor::Transparent },
            transform: Transform {
                translation: Vec3Fixed { x: 0, y: 0, z: 0 },
                scale: Vec3Fixed { x: 700_000, y: 700_000, z: 1000 },
            },
        }
    }
}

/// All 64 square tiles, column-major as they are spawned: tile `k` is the
/// square of column `k / 8`, row `k % 8`.
pub fn board_squares() -> (squares: Vec<BoardSquareBundle>)
    ensures
        squares@.len() == 64,
        forall|k: int| 0 <= k < 64 ==> #[trigger] squares@[k] == square_spec(k / 8, k % 8),
{
    let mut squares: Vec<BoardSquareBundle> = Vec::new();
    let mut k: u32 = 0;
    while k < 64
        invariant
            k <= 64,
            squares@.len() == k as int,
            forall|j: int| 0 <= j < k as int ==> #[trigger] squares@[j] == square_spec(j / 8, j % 8),
        decreases 64 - k,
    {
        squares.push(BoardSquareBundle::new(k / 8, k % 8));
        k = k + 1;
    }
    squares
}

/// Whether the tile placed by `t` contains the point `(px, py)`: each axis
/// within the half-open span from the tile's anchor to anchor plus scale.
pub open spec fn square_contains_point(t: Transform, px: i64, py: i64) -> bool {
    &&& t.translation.x <= px < t.translation.x + t.scale.x
    &&& t.translation.y <= py < t.translation.y + t.scale.y
}

/// Whether `i` points at the first square of the list whose tile contains
/// `(px, py)`.
pub open spec fn is_selected_square(
    squares: Seq<(BoardSquare, Transform)>,
    px: i64,
    py: i64,
    i: int,
) -> bool {
    &&& 0 <= i < squares.len()
    &&& square_contains_point(squares[i].1, px, py)
    &&& forall|j: int| 0 <= j < i ==> !square_contains_point(#[trigger] squares[j].1, px, py)
}

/// Resolve a cursor position (in thousandths of a world unit) to the
/// coordinate of the first square whose tile contains it, if any does.
pub fn find_square_at(squares: &Vec<(BoardSquare, Transform)>, px: i64, py: i64) -> (r: Option<
    SquareCoord,
>)
    ensures
        match r {
            Some(c) => exists|i: int|
                #[trigger] is_selected_square(squares@, px, py, i) && squares@[i].0.coord == c,
            None => forall|i: int|
                0 <= i < squares@.len() ==> !square_contains_point(
                    #[trigger] squares@[i].1,
                    px,
                    py,
                ),
        },
{
    let n: usize = squares.len();
    let mut i: usize = 0;
    while i < n
        invariant
            n == squares@.len(),
            i <= n,
            forall|j: int| 0 <= j < i as int ==> !square_contains_point(
                #[trigger] squares@[j].1,
                px,
                py,
            ),
        decreases n - i,
    {
        let t = squares[i].1;
        let in_x = t.translation.x <= px && (px as i128) < (t.translation.x as i128) + (
        t.scale.x as i128);
        let in_y = t.translation.y <= py && (py as i128) < (t.translation.y as i128) + (
        t.scale.y as i128);
        if in_x && in_y {
            let c = squares[i].0.coord;
            proof {
                assert(is_selected_square(squares@, px, py, i as int));
            }
            return Some(c);
        }
        i = i + 1;
    }
    None
}

/// A point anywhere inside the tile of column `x`, row `y` of the full
/// board list selects exactly that tile: the tile contains the point, no
/// earlier tile does, and its coordinate is `(x, y)`.
pub proof fn lemma_click_selects_square(
    squares: Seq<(BoardSquare, Transform)>,
    x: int,
    y: int,
    px: i64,
    py: i64,
)
    requires
        squares.len() == 64,
        forall|k: int| 0 <= k < 64 ==> #[trigger] squares[k] == (
            square_spec(k / 8, k % 8).board_square,
            square_spec(k / 8, k % 8).transform,
        ),
        0 <= x < 8,
        0 <= y < 8,
        100 * x - 350 <= px < 100 * x - 250,
        100 * y - 350 <= py < 100 * y - 250,
    ensures
        is_selected_square(squares, px, py, 8 * x + y),
        squares[8 * x + y].0.coord == SquareCoord(x as u32, y as u32),
{
    let i0 = 8 * x + y;
    assert((8 * x + y) / 8 == x);
    assert((8 * x + y) % 8 == y);
    assert(square_contains_point(squares[i0].1, px, py));
    assert forall|j: int| 0 <= j < i0 implies !square_contains_point(
        #[trigger] squares[j].1,
        px,
        py,
    ) by {
        if square_contains_point(squares[j].1, px, py) {
            let a = j / 8;
            let b = j % 8;
            assert(squares[j].1 == square_spec(a, b).transform);
            assert(100 * a - 350 <= px < 100 * a - 250);
            assert(100 * b - 350 <= py < 100 * b - 250);
            assert(a == x);
            assert(b == y);
            assert(j == 8 * a + b);
        }
    }
}

} // verus!
