use chess::Color::{Black, White};
use chess::Move;
use chess::PieceName::{Bishop, King, Knight, Pawn, Queen, Rook};
use chess::{GameState, Placement};

#[test]
fn pawn_movement_sideways_test() {
    // Pawns should not be able to move sideways
    let state = GameState::with_placements(vec![Placement::new(White, Pawn, 16)]);
    let action = Move { from: 16, to: 17 };
    assert_eq!(false, action.is_legal(&state));
}

#[test]
fn pawn_movement_too_far_test() {
    // Pawns should not be able to move more than two squares vertically
    let state = GameState::with_placements(vec![Placement::new(White, Pawn, 18)]);
    let action = Move { from: 18, to: 42 };
    assert!(!action.is_legal(&state));
}

#[test]
fn pawn_movement_normal_test() {
    // White pawns should be able to move 1 square up
    let state = GameState::with_placements(vec![Placement::new(White, Pawn, 22)]);
    let action = Move { from: 22, to: 30 };
    assert_eq!(true, action.is_legal(&state));
}

#[test]
fn pawn_cant_move_diagonally_test() {
    // Pawns should not be able to move diagonally
    let state = GameState::with_placements(vec![Placement::new(White, Pawn, 4)]);
    let action = Move { from: 22, to: 31 };
    assert_eq!(false, action.is_legal(&state));

    let action = Move { from: 22, to: 29 };
    assert_eq!(false, action.is_legal(&state));
}

#[test]
fn rook_movement_horizontal_test() {
    // Rooks should be able to travel horizontally
    let state = GameState::with_placements(vec![Placement::new(White, Rook, 35)]);
    let action = Move { from: 35, to: 32 };
    assert_eq!(true, action.is_legal(&state));
}

#[test]
fn rook_movement_vertical_test() {
    // Rooks should be able to travel vertically
    let state = GameState::with_placements(vec![Placement::new(White, Rook, 35)]);
    let action = Move { from: 35, to: 3 };
    assert_eq!(true, action.is_legal(&state));
}

#[test]
fn rook_movement_horizontal_obstruction_test() {
    // Rooks should not be able to travel horizontally through other pieces
    let state = GameState::with_placements(vec![
        Placement::new(White, Rook, 32),
        Placement::new(Black, Pawn, 33),
    ]);
    let action = Move { from: 32, to: 36 };
    assert_eq!(false, action.is_legal(&state));
}

#[test]
fn rook_movement_vertical_obstruction_test() {
    // Rooks should not be able to travel vertically through other pieces
    let state = GameState::new();
    let action = Move { from: 0, to: 8 };
    assert_eq!(false, action.is_legal(&state));
}

#[test]
fn bishop_movement_diagonal_up_left_test() {
    // Bishops should be able to travel diagonally up-left
    let state = GameState::with_placements(vec![Placement::new(White, Bishop, 22)]);
    let action = Move { from: 22, to: 36 };
    assert_eq!(true, action.is_legal(&state));
}

#[test]
fn bishop_movement_diagonal_up_right_test() {
    // Bishops should be able to travel diagonally up-right
    let state = GameState::with_placements(vec![Placement::new(White, Bishop, 0)]);
    let action = Move { from: 0, to: 36 };
    assert_eq!(true, action.is_legal(&state));
}

#[test]
fn bishop_movement_diagonal_down_left_test() {
    // Bishops should be able to travel diagonally down-left
    let state = GameState::with_placements(vec![Placement::new(White, Bishop, 27)]);
    let action = Move { from: 27, to: 9 };
    assert_eq!(true, action.is_legal(&state));
}

#[test]
fn bishop_movement_diagonal_down_right_test() {
    // Bishops should be able to travel diagonally down-right
    let state = GameState::with_placements(vec![Placement::new(White, Bishop, 56)]);
    let action = Move { from: 56, to: 42 };
    assert_eq!(true, action.is_legal(&state));
}

#[test]
fn bishop_movement_diagonal_right_edge_test() {
    // Bishops should not wrap around the right edge of the board
    let state = GameState::with_placements(vec![Placement::new(White, Bishop, 23)]);
    let action = Move { from: 23, to: 41 };
    assert!(!action.is_legal(&state));
}

#[test]
fn bishop_movement_diagonal_left_edge_test() {
    // Bishops should not wrap around the left edge of the board
    let state = GameState::with_placements(vec![Placement::new(White, Bishop, 24)]);
    let action = Move { from: 24, to: 15 };
    assert!(!action.is_legal(&state));
}

#[test]
fn knight_movement_two_up_one_right_test() {
    let state = GameState::with_placements(vec![Placement::new(Black, Knight, 28)]);
    let action = Move { from: 28, to: 45 };
    assert!(action.is_legal(&state));
}

#[test]
fn knight_movement_one_up_two_right_test() {
    let state = GameState::with_placements(vec![Placement::new(Black, Knight, 28)]);
    let action = Move { from: 28, to: 38 };
    assert!(action.is_legal(&state));
}

#[test]
fn knight_movement_two_up_one_left_test() {
    let state = GameState::with_placements(vec![Placement::new(Black, Knight, 28)]);
    let action = Move { from: 28, to: 43 };
    assert!(action.is_legal(&state));
}

#[test]
fn knight_movement_one_up_two_left_test() {
    let state = GameState::with_placements(vec![Placement::new(Black, Knight, 28)]);
    let action = Move { from: 28, to: 34 };
    assert!(action.is_legal(&state));
}

#[test]
fn knight_movement_two_down_one_right_test() {
    let state = GameState::with_placements(vec![Placement::new(Black, Knight, 28)]);
    let action = Move { from: 28, to: 13 };
    assert!(action.is_legal(&state));
}

#[test]
fn knight_movement_one_down_two_right_test() {
    let state = GameState::with_placements(vec![Placement::new(Black, Knight, 28)]);
    let action = Move { from: 28, to: 22 };
    assert!(action.is_legal(&state));
}

#[test]
fn knight_movement_two_down_one_left_test() {
    let state = GameState::with_placements(vec![Placement::new(Black, Knight, 28)]);
    let action = Move { from: 28, to: 11 };
    assert!(action.is_legal(&state));
}

#[test]
fn knight_movement_one_down_two_left_test() {
    let state = GameState::with_placements(vec![Placement::new(Black, Knight, 28)]);
    let action = Move { from: 28, to: 18 };
    assert!(action.is_legal(&state));
}

#[test]
fn queen_movement_horizontal_test() {
    // Queens should be able to move horizontally
    let state = GameState::with_placements(vec![Placement::new(Black, Queen, 24)]);
    let action = Move { from: 24, to: 30 };
    assert_eq!(true, action.is_legal(&state));
}

#[test]
fn queen_movement_vertical_obstruction_test() {
    // Queens should not be able to travel vertically through other pieces
    let mut state = GameState::with_placements(vec![
        Placement::new(Black, Queen, 40),
        Placement::new(Black, Pawn, 32),
    ]);
    state.to_move = Black;
    let action = Move { from: 40, to: 24 };
    assert_eq!(false, action.is_legal(&state));
}

#[test]
fn queen_movement_horizontal_obstruction_test() {
    // Queens should not be able to travel horizontally through other pieces
    let mut state = GameState::with_placements(vec![
        Placement::new(Black, Queen, 40),
        Placement::new(Black, Pawn, 41),
    ]);
    state.to_move = Black;
    let action = Move { from: 40, to: 42 };
    assert_eq!(false, action.is_legal(&state));
}

#[test]
fn queen_movement_vertical_test() {
    // Queens should be able to move vertically
    let state = GameState::with_placements(vec![Placement::new(Black, Queen, 24)]);
    let action = Move { from: 24, to: 48 };
    assert_eq!(true, action.is_legal(&state));
}

#[test]
fn queen_movement_diagonal_test() {
    // Queens should be able to move diagonally
    let state = GameState::with_placements(vec![Placement::new(White, Queen, 24)]);
    let action = Move { from: 24, to: 42 };
    assert_eq!(true, action.is_legal(&state));
}

#[test]
fn king_movement_horizontal_test() {
    // Kings should be able to move one square horizontally
    let state = GameState::with_placements(vec![Placement::new(Black, King, 28)]);
    let action = Move { from: 28, to: 27 };
    assert!(action.is_legal(&state));
}

#[test]
fn king_movement_vertical_test() {
    // Kings should be able to move one square vertically
    let state = GameState::with_placements(vec![Placement::new(Black, King, 28)]);
    let action = Move { from: 28, to: 20 };
    assert!(action.is_legal(&state));
}

#[test]
fn king_movement_diagonal_test() {
    // Kings should be able to move one square diagonally
    let state = GameState::with_placements(vec![Placement::new(Black, King, 24)]);
    let action = Move { from: 24, to: 33 };
    assert!(action.is_legal(&state));
}

#[test]
fn cant_move_onto_another_piece_test() {
    let state = GameState::with_placements(vec![
        Placement::new(Black, King, 63),
        Placement::new(Black, Pawn, 52),
        Placement::new(White, Pawn, 44),
        Placement::new(White, Bishop, 43),
        Placement::new(White, Knight, 35),
        Placement::new(White, Rook, 53),
        Placement::new(White, Queen, 51),
        Placement::new(White, King, 60),
    ]);

    let action = Move { from: 44, to: 52 };
    assert!(!action.is_legal(&state));

    let action = Move { from: 43, to: 52 };
    assert!(!action.is_legal(&state));

    let action = Move { from: 35, to: 52 };
    assert!(!action.is_legal(&state));

    let action = Move { from: 53, to: 52 };
    assert!(!action.is_legal(&state));

    let action = Move { from: 51, to: 52 };
    assert!(!action.is_legal(&state));
}
