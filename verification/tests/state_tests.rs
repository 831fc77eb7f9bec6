use chess_board::board::BoardSquare;
use chess_board::board::SquareCoord;
use chess_board::board::Transform;
use chess_board::board::Vec3Fixed;
use chess_board::board::board_squares;
use chess_board::piece::Piece;
use chess_board::piece::PieceSide;
use chess_board::piece::PieceType;
use chess_board::piece::initial_piece_spawns;
use chess_board::state::GameState;
use chess_board::state::PieceInfo;
use chess_board::state::position_pieces;

fn square_pairs() -> Vec<(BoardSquare, Transform)> {
    board_squares().into_iter().map(|b| (b.board_square, b.transform)).collect()
}

fn piece_pairs() -> Vec<(Piece, Transform)> {
    initial_piece_spawns().into_iter().map(|b| (b.piece, b.transform)).collect()
}

#[test]
fn default_table_holds_initial_layout() {
    let state = GameState::default();
    assert_eq!(state.pieces_locations.len(), 32);

    let back_rank = [
        PieceType::Rook,
        PieceType::Knight,
        PieceType::Bishop,
        PieceType::Queen,
        PieceType::King,
        PieceType::Bishop,
        PieceType::Knight,
        PieceType::Rook,
    ];
    for i in 0..8 {
        // White back rank on squares 0..8.
        assert_eq!(
            state.pieces_locations[i],
            Some(PieceInfo {
                piece_type: back_rank[i],
                piece_side: PieceSide::White,
                location: i,
                identifier: i,
            })
        );
        // White pawns on squares 8..16.
        assert_eq!(
            state.pieces_locations[8 + i],
            Some(PieceInfo {
                piece_type: PieceType::Pawn,
                piece_side: PieceSide::White,
                location: 8 + i,
                identifier: 16 + i,
            })
        );
        // Black pawns on squares 48..56.
        assert_eq!(
            state.pieces_locations[16 + i],
            Some(PieceInfo {
                piece_type: PieceType::Pawn,
                piece_side: PieceSide::Black,
                location: 48 + i,
                identifier: 24 + i,
            })
        );
        // Black back rank on squares 56..64.
        assert_eq!(
            state.pieces_locations[24 + i],
            Some(PieceInfo {
                piece_type: back_rank[i],
                piece_side: PieceSide::Black,
                location: 56 + i,
                identifier: 8 + i,
            })
        );
    }
}

#[test]
fn default_table_is_well_formed() {
    let state = GameState::default();
    assert!(state.check_well_formed());
}

#[test]
fn short_table_is_not_well_formed() {
    let state = GameState { pieces_locations: vec![None; 31] };
    assert!(!state.check_well_formed());
}

#[test]
fn duplicate_identifiers_are_not_well_formed() {
    let mut state = GameState::default();
    let mut slot = state.pieces_locations[3].unwrap();
    slot.identifier = 0;
    state.pieces_locations[3] = Some(slot);
    assert!(!state.check_well_formed());
}

#[test]
fn empty_slots_keep_table_well_formed() {
    let mut state = GameState::default();
    state.pieces_locations[5] = None;
    state.pieces_locations[17] = None;
    assert!(state.check_well_formed());
}

#[test]
fn positioning_moves_pieces_onto_their_squares() {
    let state = GameState::default();
    let squares = square_pairs();
    let mut pieces = piece_pairs();
    position_pieces(&state, &squares, &mut pieces);

    assert_eq!(pieces.len(), 32);
    for (piece, transform) in pieces.iter() {
        let info = state
            .pieces_locations
            .iter()
            .flatten()
            .find(|info| info.identifier == piece.identifier)
            .expect("every spawned piece is in the table");
        let x = (info.location % 8) as i64;
        let y = (info.location / 8) as i64;
        assert_eq!(
            *transform,
            Transform {
                translation: Vec3Fixed { x: 100 * x - 350 - 10, y: 100 * y - 350, z: 4000 },
                scale: Vec3Fixed { x: 2, y: 2, z: 0 },
            }
        );
    }
}

#[test]
fn positioning_puts_white_rook_by_first_square() {
    let state = GameState::default();
    let squares = square_pairs();
    let mut pieces = piece_pairs();
    position_pieces(&state, &squares, &mut pieces);
    // Identifier 0 is the white rook on square 0: column 0, row 0.
    assert_eq!(pieces[0].0.identifier, 0);
    assert_eq!(
        pieces[0].1.translation,
        Vec3Fixed { x: -360, y: -350, z: 4000 }
    );
    // Identifier 15 is the black rook on square 63: column 7, row 7.
    assert_eq!(pieces[23].0.identifier, 15);
    assert_eq!(
        pieces[23].1.translation,
        Vec3Fixed { x: 340, y: 350, z: 4000 }
    );
}

#[test]
fn positioning_skips_piece_without_square() {
    let state = GameState::default();
    // Only the first eight squares exist, the ones of board column 0:
    // every piece whose location falls in another column stays put.
    let squares: Vec<(BoardSquare, Transform)> = square_pairs().into_iter().take(8).collect();
    let mut pieces = piece_pairs();
    let before = pieces.clone();
    position_pieces(&state, &squares, &mut pieces);
    for j in 0..32 {
        let loc = state
            .pieces_locations
            .iter()
            .flatten()
            .find(|info| info.identifier == pieces[j].0.identifier)
            .unwrap()
            .location;
        if loc % 8 == 0 {
            assert_eq!(
                pieces[j].1.translation,
                Vec3Fixed { x: -360, y: 100 * (loc / 8) as i64 - 350, z: 4000 }
            );
        } else {
            assert_eq!(pieces[j], before[j]);
        }
    }
}

#[test]
fn positioning_skips_unknown_identifier() {
    let state = GameState::default();
    let squares = square_pairs();
    let stranger = Piece {
        piece_type: PieceType::Queen,
        piece_side: PieceSide::White,
        identifier: 99,
    };
    let parked = Transform {
        translation: Vec3Fixed { x: 123, y: 456, z: 789 },
        scale: Vec3Fixed { x: 2, y: 2, z: 0 },
    };
    let mut pieces = vec![(stranger, parked)];
    position_pieces(&state, &squares, &mut pieces);
    assert_eq!(pieces, vec![(stranger, parked)]);
}

#[test]
fn positioning_moves_first_of_twin_identifiers() {
    let state = GameState::default();
    let squares = square_pairs();
    let twin = Piece {
        piece_type: PieceType::Rook,
        piece_side: PieceSide::White,
        identifier: 0,
    };
    let parked = Transform {
        translation: Vec3Fixed { x: 5, y: 6, z: 7 },
        scale: Vec3Fixed { x: 2, y: 2, z: 0 },
    };
    let mut pieces = vec![(twin, parked), (twin, parked)];
    position_pieces(&state, &squares, &mut pieces);
    // The table's square 0 anchors at (-350, -350); only the first twin moves.
    assert_eq!(
        pieces[0].1.translation,
        Vec3Fixed { x: -360, y: -350, z: 7 }
    );
    assert_eq!(pieces[1].1, parked);
}

#[test]
fn positioning_ignores_empty_slots() {
    let mut state = GameState::default();
    state.pieces_locations[0] = None;
    let squares = square_pairs();
    let mut pieces = piece_pairs();
    let before = pieces.clone();
    position_pieces(&state, &squares, &mut pieces);
    // Identifier 0 had its slot emptied: the white rook stays put.
    assert_eq!(pieces[0].0.identifier, 0);
    assert_eq!(pieces[0].1, before[0].1);
    // Its neighbour still moves.
    assert_eq!(pieces[1].0.identifier, 1);
    assert_ne!(pieces[1].1, before[1].1);
}
