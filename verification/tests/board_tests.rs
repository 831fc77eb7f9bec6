use chess_board::board::Board;
use chess_board::board::BoardBundle;
use chess_board::board::BoardSquare;
use chess_board::board::BoardSquareBundle;
use chess_board::board::SpriteColor;
use chess_board::board::SquareCoord;
use chess_board::board::Transform;
use chess_board::board::Vec3Fixed;
use chess_board::board::board_squares;
use chess_board::board::find_square_at;

#[test]
fn square_bundle_places_corner() {
    let b = BoardSquareBundle::new(0, 0);
    assert_eq!(b.board_square.coord, SquareCoord(0, 0));
    assert_eq!(b.transform.translation, Vec3Fixed { x: -350, y: -350, z: 1000 });
    assert_eq!(b.transform.scale, Vec3Fixed { x: 100, y: 100, z: 1000 });
    assert_eq!(b.sprite.color, SpriteColor::BlackSquare);
}

#[test]
fn square_bundle_places_far_corner() {
    let b = BoardSquareBundle::new(7, 7);
    assert_eq!(b.board_square.coord, SquareCoord(7, 7));
    assert_eq!(b.transform.translation, Vec3Fixed { x: 350, y: 350, z: 1000 });
    assert_eq!(b.sprite.color, SpriteColor::BlackSquare);
}

#[test]
fn square_bundle_alternates_colors() {
    assert_eq!(BoardSquareBundle::new(0, 1).sprite.color, SpriteColor::WhiteSquare);
    assert_eq!(BoardSquareBundle::new(1, 0).sprite.color, SpriteColor::WhiteSquare);
    assert_eq!(BoardSquareBundle::new(1, 1).sprite.color, SpriteColor::BlackSquare);
    assert_eq!(BoardSquareBundle::new(3, 5).sprite.color, SpriteColor::BlackSquare);
    assert_eq!(BoardSquareBundle::new(3, 4).sprite.color, SpriteColor::WhiteSquare);
}

#[test]
fn board_bundle_is_transparent_backdrop() {
    let b = BoardBundle::new();
    assert_eq!(b.board, Board);
    assert_eq!(b.sprite.color, SpriteColor::Transparent);
    assert_eq!(b.transform.translation, Vec3Fixed { x: 0, y: 0, z: 0 });
    assert_eq!(b.transform.scale, Vec3Fixed { x: 700_000, y: 700_000, z: 1000 });
}

#[test]
fn board_squares_covers_grid_in_order() {
    let squares = board_squares();
    assert_eq!(squares.len(), 64);
    for k in 0..64u32 {
        let b = &squares[k as usize];
        assert_eq!(b.board_square.coord, SquareCoord(k / 8, k % 8));
        assert_eq!(b.transform.translation.x, 100 * (k / 8) as i64 - 350);
        assert_eq!(b.transform.translation.y, 100 * (k % 8) as i64 - 350);
    }
}

fn square_pairs() -> Vec<(BoardSquare, Transform)> {
    board_squares().into_iter().map(|b| (b.board_square, b.transform)).collect()
}

#[test]
fn click_inside_tile_selects_it() {
    let squares = square_pairs();
    assert_eq!(find_square_at(&squares, -350, -350), Some(SquareCoord(0, 0)));
    assert_eq!(find_square_at(&squares, -251, -251), Some(SquareCoord(0, 0)));
    assert_eq!(find_square_at(&squares, -250, -250), Some(SquareCoord(1, 1)));
    assert_eq!(find_square_at(&squares, -10, 150), Some(SquareCoord(3, 5)));
    assert_eq!(find_square_at(&squares, 351, 0), Some(SquareCoord(7, 3)));
}

#[test]
fn click_off_board_selects_nothing() {
    let squares = square_pairs();
    assert_eq!(find_square_at(&squares, 10_000, 0), None);
    assert_eq!(find_square_at(&squares, 0, -351), None);
    let empty: Vec<(BoardSquare, Transform)> = Vec::new();
    assert_eq!(find_square_at(&empty, 0, 0), None);
}

#[test]
fn click_in_overlap_selects_first_listed() {
    let tile = |c: SquareCoord, x: i64, y: i64| {
        (
            BoardSquare { coord: c },
            Transform {
                translation: Vec3Fixed { x, y, z: 1000 },
                scale: Vec3Fixed { x: 100, y: 100, z: 1000 },
            },
        )
    };
    let squares = vec![tile(SquareCoord(4, 4), 0, 0), tile(SquareCoord(6, 6), 50, 50)];
    assert_eq!(find_square_at(&squares, 60, 60), Some(SquareCoord(4, 4)));
    let reversed = vec![tile(SquareCoord(6, 6), 50, 50), tile(SquareCoord(4, 4), 0, 0)];
    assert_eq!(find_square_at(&reversed, 60, 60), Some(SquareCoord(6, 6)));
}

#[test]
fn coord_matches_compares_indices() {
    let c = SquareCoord(2, 6);
    assert!(c.matches_indices(2, 6));
    assert!(!c.matches_indices(6, 2));
    assert!(!c.matches_indices(2, 5));
}
