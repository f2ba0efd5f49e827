use chess::CastleDirection::{Kingside, Queenside};
use chess::Color::{Black, White};
use chess::PieceName::{Bishop, King, Knight, Pawn, Queen, Rook};
use chess::{Capture, Castle, EnPassant, GameState, Move, Placement, Promotion};

#[test]
fn pawn_move_algebraic_notation_test() {
    let state = GameState::with_placements(vec![
        Placement::new(White, King, 7),
        Placement::new(White, Pawn, 20),
        Placement::new(Black, King, 60),
    ]);
    let action = Move { from: 20, to: 28 };
    assert!(action.is_legal(&state));
    assert_eq!("e4", action.as_algebraic_notation(&state));
}

#[test]
fn bishop_move_algebraic_notation_test() {
    let state = GameState::with_placements(vec![
        Placement::new(White, King, 7),
        Placement::new(White, Bishop, 20),
        Placement::new(Black, King, 60),
    ]);
    let action = Move { from: 20, to: 38 };
    assert!(action.is_legal(&state));
    assert_eq!("Bg5", action.as_algebraic_notation(&state));
}

#[test]
fn knight_move_algebraic_notation_test() {
    let state = GameState::with_placements(vec![
        Placement::new(White, King, 7),
        Placement::new(White, Knight, 20),
        Placement::new(Black, King, 60),
    ]);
    let action = Move { from: 20, to: 37 };
    assert!(action.is_legal(&state));
    assert_eq!("Nf5", action.as_algebraic_notation(&state));
}

#[test]
fn rook_move_algebraic_notation_test() {
    let state = GameState::with_placements(vec![
        Placement::new(White, King, 7),
        Placement::new(White, Rook, 20),
        Placement::new(Black, King, 60),
    ]);
    let action = Move { from: 20, to: 18 };
    assert!(action.is_legal(&state));
    assert_eq!("Rc3", action.as_algebraic_notation(&state));
}

#[test]
fn queen_move_algebraic_notation_test() {
    let state = GameState::with_placements(vec![
        Placement::new(White, King, 7),
        Placement::new(White, Queen, 36),
        Placement::new(Black, King, 60),
    ]);
    let action = Move { from: 36, to: 39 };
    assert!(action.is_legal(&state));
    assert_eq!("Qh5", action.as_algebraic_notation(&state));
}

#[test]
fn king_move_algebraic_notation_test() {
    let state = GameState::with_placements(vec![
        Placement::new(White, King, 7),
        Placement::new(Black, King, 60),
    ]);
    let action = Move { from: 7, to: 6 };
    assert!(action.is_legal(&state));
    assert_eq!("Kg1", action.as_algebraic_notation(&state));
}

#[test]
fn move_algebraic_notation_with_ambiguous_file_test() {
    let state = GameState::with_placements(vec![
        Placement::new(White, King, 7),
        Placement::new(White, Bishop, 19),
        Placement::new(White, Bishop, 21),
        Placement::new(Black, King, 60),
    ]);
    let action = Move { from: 19, to: 28 };
    assert!(action.is_legal(&state));
    assert_eq!("Bde4", action.as_algebraic_notation(&state));
}

#[test]
fn move_algebraic_notation_with_ambiguous_rank_test() {
    let state = GameState::with_placements(vec![
        Placement::new(White, King, 7),
        Placement::new(White, Bishop, 19),
        Placement::new(White, Bishop, 35),
        Placement::new(Black, King, 60),
    ]);
    let action = Move { from: 19, to: 28 };
    assert!(action.is_legal(&state));
    assert_eq!("B3e4", action.as_algebraic_notation(&state));
}

#[test]
fn move_algebraic_notation_with_ambiguous_rank_and_file_test() {
    let state = GameState::with_placements(vec![
        Placement::new(White, King, 7),
        Placement::new(White, Bishop, 19),
        Placement::new(White, Bishop, 21),
        Placement::new(White, Bishop, 35),
        Placement::new(Black, King, 60),
    ]);
    let action = Move { from: 19, to: 28 };
    assert!(action.is_legal(&state));
    assert_eq!("Bd3e4", action.as_algebraic_notation(&state));
}

#[test]
fn pawn_capture_algebraic_notation_test() {
    let mut state = GameState::with_placements(vec![
        Placement::new(White, King, 7),
        Placement::new(White, Bishop, 35),
        Placement::new(Black, Pawn, 44),
        Placement::new(Black, King, 60),
    ]);
    state.to_move = Black;
    let action = Capture { on: 35, with: 44 };
    assert!(action.is_legal(&state));
    assert_eq!("exd5", action.as_algebraic_notation(&state));
}

#[test]
fn bishop_capture_algebraic_notation_test() {
    let mut state = GameState::with_placements(vec![
        Placement::new(White, King, 7),
        Placement::new(White, Bishop, 35),
        Placement::new(Black, Bishop, 42),
        Placement::new(Black, King, 60),
    ]);
    state.to_move = Black;
    let action = Capture { on: 35, with: 42 };
    assert!(action.is_legal(&state));
    assert_eq!("Bxd5", action.as_algebraic_notation(&state));
}

#[test]
fn knight_capture_algebraic_notation_test() {
    let state = GameState::with_placements(vec![
        Placement::new(White, King, 7),
        Placement::new(White, Knight, 32),
        Placement::new(Black, Bishop, 42),
        Placement::new(Black, King, 60),
    ]);
    let action = Capture { on: 42, with: 32 };
    assert!(action.is_legal(&state));
    assert_eq!("Nxc6", action.as_algebraic_notation(&state));
}

#[test]
fn rook_capture_algebraic_notation_test() {
    let state = GameState::with_placements(vec![
        Placement::new(White, King, 7),
        Placement::new(White, Rook, 32),
        Placement::new(Black, Rook, 56),
        Placement::new(Black, King, 60),
    ]);
    let action = Capture { on: 56, with: 32 };
    assert!(action.is_legal(&state));
    assert_eq!("Rxa8", action.as_algebraic_notation(&state));
}

#[test]
fn queen_capture_algebraic_notation_test() {
    let state = GameState::with_placements(vec![
        Placement::new(White, King, 7),
        Placement::new(White, Queen, 32),
        Placement::new(Black, Rook, 56),
        Placement::new(Black, King, 60),
    ]);
    let action = Capture { on: 56, with: 32 };
    assert!(action.is_legal(&state));
    assert_eq!("Qxa8", action.as_algebraic_notation(&state));
}

#[test]
fn king_capture_algebraic_notation_test() {
    let mut state = GameState::with_placements(vec![
        Placement::new(White, King, 7),
        Placement::new(White, Pawn, 20),
        Placement::new(Black, King, 21),
    ]);
    state.to_move = Black;
    let action = Capture { on: 20, with: 21 };
    assert!(action.is_legal(&state));
    assert_eq!("Kxe3", action.as_algebraic_notation(&state));
}

#[test]
fn capture_algebraic_notation_with_ambiguous_file_test() {
    let mut state = GameState::with_placements(vec![
        Placement::new(White, King, 7),
        Placement::new(White, Bishop, 35),
        Placement::new(Black, Rook, 32),
        Placement::new(Black, Rook, 38),
        Placement::new(Black, King, 60),
    ]);
    state.to_move = Black;
    let action = Capture { on: 35, with: 32 };
    assert!(action.is_legal(&state));
    assert_eq!("Raxd5", action.as_algebraic_notation(&state));
}

#[test]
fn capture_algebraic_notation_with_ambiguous_rank_test() {
    let mut state = GameState::with_placements(vec![
        Placement::new(White, King, 7),
        Placement::new(White, Bishop, 35),
        Placement::new(Black, Queen, 43),
        Placement::new(Black, Queen, 27),
        Placement::new(Black, King, 60),
    ]);
    state.to_move = Black;
    let action = Capture { on: 35, with: 27 };
    assert!(action.is_legal(&state));
    assert_eq!("Q4xd5", action.as_algebraic_notation(&state));
}

#[test]
fn en_passant_algebraic_notation_test() {
    let mut state = GameState::with_placements(vec![
        Placement::new(White, Pawn, 33),
        Placement::new(Black, Pawn, 50),
    ]);
    state.to_move = Black;

    // Two square advance by black
    let action = Move { from: 50, to: 34 };
    let state = action.apply(&state);

    // En Passant by white
    let action = EnPassant { with: 33 };
    assert!(action.is_legal(&state));
    assert_eq!("bxc6", action.as_algebraic_notation(&state));
}

#[test]
fn kingside_castle_algebraic_notation_test() {
    let mut state = GameState::with_placements(vec![
        Placement::new(White, King, 4),
        Placement::new(White, Rook, 7),
    ]);
    state.white_can_castle_kingside = true;
    let action = Castle { direction: Kingside };
    assert_eq!("O-O", action.as_algebraic_notation(&state));
}

#[test]
fn queenside_castle_algebraic_notation_test() {
    let mut state = GameState::with_placements(vec![
        Placement::new(White, King, 4),
        Placement::new(White, Rook, 0),
    ]);
    state.white_can_castle_queenside = true;
    let action = Castle { direction: Queenside };
    assert_eq!("O-O-O", action.as_algebraic_notation(&state));
}

#[test]
fn promotion_to_bishop_algebraic_notation_test() {
    let state = GameState::with_placements(vec![Placement::new(White, Pawn, 55)]);
    let action = Promotion { pawn_becomes: Bishop, moving_from: 55, to: 63 };
    assert_eq!("h8B", action.as_algebraic_notation(&state));
}

#[test]
fn promotion_to_knight_algebraic_notation_test() {
    let state = GameState::with_placements(vec![Placement::new(White, Pawn, 54)]);
    let action = Promotion { pawn_becomes: Knight, moving_from: 54, to: 62 };
    assert_eq!("g8N", action.as_algebraic_notation(&state));
}

#[test]
fn promotion_to_rook_algebraic_notation_test() {
    let mut state = GameState::with_placements(vec![Placement::new(Black, Pawn, 9)]);
    state.to_move = Black;
    let action = Promotion { pawn_becomes: Rook, moving_from: 9, to: 1 };
    assert_eq!("b1R", action.as_algebraic_notation(&state));
}

#[test]
fn promotion_to_queen_algebraic_notation_test() {
    let mut state = GameState::with_placements(vec![Placement::new(Black, Pawn, 11)]);
    state.to_move = Black;
    let action = Promotion { pawn_becomes: Queen, moving_from: 11, to: 3 };
    assert_eq!("d1Q", action.as_algebraic_notation(&state));
}

#[test]
fn promotion_with_capture_algebraic_notation_test() {
    let mut state = GameState::with_placements(vec![
        Placement::new(Black, Pawn, 11),
        Placement::new(White, Rook, 2),
    ]);
    state.to_move = Black;
    let action = Promotion { pawn_becomes: Queen, moving_from: 11, to: 2 };
    assert_eq!("dxc1Q", action.as_algebraic_notation(&state));
}

#[test]
fn illegal_action_renders_as_empty_string_test() {
    // An illegal action never renders: the empty string comes back for
    // every kind.
    let state = GameState::with_placements(vec![Placement::new(White, Pawn, 20)]);
    let action = Move { from: 20, to: 21 };
    assert!(!action.is_legal(&state));
    assert_eq!("", action.as_algebraic_notation(&state));

    let castle = Castle { direction: Kingside };
    assert!(!castle.is_legal(&state));
    assert_eq!("", castle.as_algebraic_notation(&state));
}
