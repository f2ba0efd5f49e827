use chess::CastleDirection::{Kingside, Queenside};
use chess::Color::{Black, White};
use chess::PieceName::{Bishop, King, Knight, Pawn, Queen, Rook};
use chess::{Capture, Castle, EnPassant, GameState, Move, Placement, Promotion, legal_actions};

#[test]
fn white_performs_en_passant_test() {
    let state = GameState::with_placements(vec![
        Placement::new(White, Pawn, 33),
        Placement::new(Black, Pawn, 50),
    ]);
    assert!(state.en_passant_square == None);

    // Two square advance
    let action = Move { from: 50, to: 34 };
    let state = action.apply(&state);
    assert!(state.en_passant_square == Some(42));

    // En Passant
    let action = EnPassant { with: 33 };
    let state = action.apply(&state);

    // The pawn that advanced two squares has been captured
    assert!(!state.squares[34].is_some());
}

#[test]
fn black_performs_en_passant_test() {
    let state = GameState::with_placements(vec![
        Placement::new(White, Pawn, 12),
        Placement::new(Black, Pawn, 29),
    ]);
    assert!(state.en_passant_square == None);

    // Two square advance
    let action = Move { from: 12, to: 28 };
    let state = action.apply(&state);
    assert!(state.en_passant_square == Some(20));

    // En Passant
    let action = EnPassant { with: 29 };
    let state = action.apply(&state);

    // The pawn that advanced two squares has been captured
    assert!(!state.squares[28].is_some());
}

#[test]
fn white_knight_promotion_legality_test() {
    let state = GameState::with_placements(vec![Placement::new(White, Pawn, 55)]);
    let action = Promotion { pawn_becomes: Knight, moving_from: 55, to: 63 };
    assert!(action.is_legal(&state));
}

#[test]
fn white_bishop_promotion_legality_test() {
    let state = GameState::with_placements(vec![Placement::new(White, Pawn, 48)]);
    let action = Promotion { pawn_becomes: Bishop, moving_from: 48, to: 56 };
    assert!(action.is_legal(&state));
}

#[test]
fn white_rook_promotion_legality_test() {
    let state = GameState::with_placements(vec![Placement::new(White, Pawn, 49)]);
    let action = Promotion { pawn_becomes: Rook, moving_from: 49, to: 57 };
    assert!(action.is_legal(&state));
}

#[test]
fn white_queen_promotion_legality_test() {
    let state = GameState::with_placements(vec![Placement::new(White, Pawn, 50)]);
    let action = Promotion { pawn_becomes: Queen, moving_from: 50, to: 58 };
    assert!(action.is_legal(&state));
}

#[test]
fn black_bishop_promotion_legality_test() {
    let mut state = GameState::with_placements(vec![Placement::new(Black, Pawn, 12)]);
    state.to_move = Black;
    let action = Promotion { pawn_becomes: Bishop, moving_from: 12, to: 4 };
    assert!(action.is_legal(&state));
}

#[test]
fn black_knight_promotion_legality_test() {
    let mut state = GameState::with_placements(vec![Placement::new(Black, Pawn, 11)]);
    state.to_move = Black;
    let action = Promotion { pawn_becomes: Knight, moving_from: 11, to: 3 };
    assert!(action.is_legal(&state));
}

#[test]
fn black_rook_promotion_legality_test() {
    let mut state = GameState::with_placements(vec![Placement::new(Black, Pawn, 15)]);
    state.to_move = Black;
    let action = Promotion { pawn_becomes: Rook, moving_from: 15, to: 7 };
    assert!(action.is_legal(&state));
}

#[test]
fn black_queen_promotion_legality_test() {
    let mut state = GameState::with_placements(vec![Placement::new(Black, Pawn, 14)]);
    state.to_move = Black;
    let action = Promotion { pawn_becomes: Queen, moving_from: 14, to: 6 };
    assert!(action.is_legal(&state));
}

#[test]
fn promotion_capture_legality_test() {
    let mut state = GameState::with_placements(vec![
        Placement::new(Black, Pawn, 14),
        Placement::new(White, Rook, 7),
    ]);
    state.to_move = Black;
    let action = Promotion { pawn_becomes: Queen, moving_from: 14, to: 7 };
    assert!(action.is_legal(&state));
}

#[test]
fn en_passant_expires_after_move_test() {
    let state = GameState::with_placements(vec![
        Placement::new(White, Pawn, 12),
        Placement::new(Black, Pawn, 29),
        Placement::new(Black, King, 60),
    ]);
    // Two square advance by White
    let action = Move { from: 12, to: 28 };
    let state = action.apply(&state);
    assert!(state.en_passant_square == Some(20));

    // Black moves king
    let action = Move { from: 60, to: 61 };
    let state = action.apply(&state);

    // En-passant no longer legal
    assert!(state.en_passant_square == None);
}

#[test]
fn en_passant_expires_after_castle_test() {
    let state = GameState::with_placements(vec![
        Placement::new(White, Pawn, 12),
        Placement::new(Black, Pawn, 29),
        Placement::new(Black, King, 60),
        Placement::new(Black, Rook, 63),
    ]);
    // Two square advance by White
    let action = Move { from: 12, to: 28 };
    let state = action.apply(&state);
    assert!(state.en_passant_square == Some(20));

    // Black castles
    let action = Castle { direction: Kingside };
    let state = action.apply(&state);

    // En-passant no longer legal
    let action = Move { from: 29, to: 20 };
    let _ = action;
    assert!(state.en_passant_square == None);
}

#[test]
fn en_passant_expires_after_promotion_test() {
    let state = GameState::with_placements(vec![
        Placement::new(White, Pawn, 12),
        Placement::new(Black, Pawn, 29),
        Placement::new(Black, Pawn, 9),
    ]);

    assert!(state.to_move == White);
    // Two square advance by White
    let action = Move { from: 12, to: 28 };
    let state = action.apply(&state);
    assert!(state.en_passant_square == Some(20));

    // Black promotes
    let action = Promotion { pawn_becomes: Queen, moving_from: 9, to: 1 };
    let state = action.apply(&state);

    // En-passant no longer legal
    assert!(state.en_passant_square == None);
}

#[test]
fn en_passant_expires_after_en_passant_test() {
    let state = GameState::with_placements(vec![
        Placement::new(White, Bishop, 61),
        Placement::new(White, Pawn, 12),
        Placement::new(Black, Pawn, 29),
        Placement::new(Black, King, 60),
    ]);
    // Two square advance by White
    let action = Move { from: 12, to: 28 };
    let state = action.apply(&state);
    assert!(state.en_passant_square == Some(20));

    // Black accepts en-passant
    let action = EnPassant { with: 60 };
    let state = action.apply(&state);

    // En-passant no longer legal
    assert!(state.en_passant_square == None);
}

#[test]
fn en_passant_expires_after_capture_test() {
    let state = GameState::with_placements(vec![
        Placement::new(White, Bishop, 61),
        Placement::new(White, Pawn, 12),
        Placement::new(Black, Pawn, 29),
        Placement::new(Black, King, 60),
    ]);
    // Two square advance by White
    let action = Move { from: 12, to: 28 };
    let state = action.apply(&state);
    assert!(state.en_passant_square == Some(20));

    // Black captures
    let action = Capture { on: 61, with: 60 };
    let state = action.apply(&state);

    // En-passant no longer legal
    assert!(state.en_passant_square == None);
}

#[test]
fn to_move_switches_after_move_test() {
    let state = GameState::with_placements(vec![
        Placement::new(White, Pawn, 8),
        Placement::new(Black, Pawn, 48),
    ]);
    // Advance by White
    let action = Move { from: 8, to: 16 };
    let state = action.apply(&state);
    assert!(state.to_move == Black);

    // Advance by Black
    let action = Move { from: 48, to: 40 };
    let state = action.apply(&state);
    assert!(state.to_move == White);
}

#[test]
fn to_move_switches_after_promotion_test() {
    let state = GameState::with_placements(vec![
        Placement::new(White, Pawn, 55),
        Placement::new(Black, Pawn, 8),
    ]);
    // Promotion by White
    let action = Promotion { pawn_becomes: Queen, moving_from: 55, to: 63 };
    let state = action.apply(&state);
    assert!(state.to_move == Black);

    // Promotion by Black
    let action = Promotion { pawn_becomes: Queen, moving_from: 8, to: 1 };
    let state = action.apply(&state);
    assert!(state.to_move == White);
}

#[test]
fn to_move_switches_after_castle_test() {
    let state = GameState::with_placements(vec![
        Placement::new(White, King, 4),
        Placement::new(White, Rook, 7),
        Placement::new(Black, King, 60),
        Placement::new(Black, Rook, 56),
    ]);
    // Castle by White
    let action = Castle { direction: Kingside };
    let state = action.apply(&state);
    assert!(state.to_move == Black);

    // Castle by Black
    let action = Castle { direction: Queenside };
    let state = action.apply(&state);
    assert!(state.to_move == White);
}

#[test]
fn legal_actions_includes_moves_test() {
    let mut state = GameState::with_placements(vec![
        Placement::new(White, King, 4),
        Placement::new(White, Rook, 7),
        Placement::new(Black, King, 60),
    ]);
    state.to_move = Black;
    let actions = legal_actions(&state);
    assert!(actions.iter().any(|action| { action.name() == "Move" }));
}

#[test]
fn legal_actions_includes_promotions_test() {
    let state = GameState::with_placements(vec![
        Placement::new(White, King, 4),
        Placement::new(White, Pawn, 49),
        Placement::new(Black, King, 63),
    ]);

    let actions = legal_actions(&state);
    assert!(actions.iter().any(|action| { action.name() == "Promotion" }));
}

#[test]
fn legal_actions_includes_all_legal_castles_by_white_test() {
    let mut state = GameState::with_placements(vec![
        Placement::new(White, King, 4),
        Placement::new(White, Rook, 0),
        Placement::new(White, Rook, 7),
        Placement::new(Black, King, 63),
    ]);
    state.white_can_castle_kingside = true;
    state.white_can_castle_queenside = true;

    let actions = legal_actions(&state);
    let legal_castles = actions
        .iter()
        .filter(|action| action.name() == "Castle")
        .collect::<Vec<_>>();

    assert_eq!(2, legal_castles.len());
}

#[test]
fn legal_actions_includes_all_legal_castles_by_black_test() {
    let mut state = GameState::with_placements(vec![
        Placement::new(White, King, 4),
        Placement::new(Black, King, 60),
        Placement::new(Black, Rook, 63),
        Placement::new(Black, Rook, 56),
    ]);
    state.black_can_castle_kingside = true;
    state.black_can_castle_queenside = true;
    state.to_move = Black;

    let actions = legal_actions(&state);
    let legal_castles = actions
        .iter()
        .filter(|action| action.name() == "Castle")
        .collect::<Vec<_>>();

    assert_eq!(2, legal_castles.len());
}

#[test]
fn legal_actions_includes_all_legal_en_passants_by_white_test() {
    let mut state = GameState::with_placements(vec![
        Placement::new(White, Pawn, 33),
        Placement::new(White, Pawn, 35),
        Placement::new(Black, Pawn, 50),
    ]);
    state.to_move = Black;
    assert!(state.en_passant_square == None);

    // Two square advance
    let action = Move { from: 50, to: 34 };
    assert!(action.is_legal(&state));

    // EnPassant is now available
    let state = action.apply(&state);
    assert!(state.en_passant_square == Some(42));

    // Legal Actions include EnPassant
    let actions = legal_actions(&state);
    let legal_en_passants = actions
        .iter()
        .filter(|action| action.name() == "EnPassant")
        .collect::<Vec<_>>();

    assert_eq!(2, legal_en_passants.len());
}

#[test]
fn legal_actions_includes_all_legal_en_passants_by_black_test() {
    let state = GameState::with_placements(vec![
        Placement::new(Black, Pawn, 27),
        Placement::new(Black, Pawn, 29),
        Placement::new(White, Pawn, 12),
    ]);
    assert!(state.en_passant_square == None);

    // Two square advance
    let action = Move { from: 12, to: 28 };
    assert!(action.is_legal(&state));

    // EnPassant is now available
    let state = action.apply(&state);
    assert!(state.en_passant_square == Some(20));

    // Legal Actions include EnPassant
    let actions = legal_actions(&state);
    let legal_en_passants = actions
        .iter()
        .filter(|action| action.name() == "EnPassant")
        .collect::<Vec<_>>();

    assert_eq!(2, legal_en_passants.len());
}

#[test]
fn legal_actions_includes_all_legal_captures_by_white_test() {
    let state = GameState::with_placements(vec![
        Placement::new(White, Pawn, 33),
        Placement::new(White, Rook, 43),
        Placement::new(Black, Pawn, 40),
    ]);

    let actions = legal_actions(&state);
    let legal_captures = actions
        .iter()
        .filter(|action| action.name() == "Capture")
        .collect::<Vec<_>>();

    assert_eq!(2, legal_captures.len());
}

#[test]
fn legal_actions_includes_all_legal_captures_by_black_test() {
    let mut state = GameState::with_placements(vec![
        Placement::new(White, Pawn, 33),
        Placement::new(Black, Pawn, 40),
        Placement::new(Black, Knight, 50),
    ]);
    state.to_move = Black;

    let actions = legal_actions(&state);
    let legal_captures = actions
        .iter()
        .filter(|action| action.name() == "Capture")
        .collect::<Vec<_>>();

    assert_eq!(2, legal_captures.len());
}

#[test]
fn no_legal_actions_in_checkmate_test() {
    let state = GameState::with_placements(vec![
        Placement::new(White, King, 4),
        Placement::new(Black, Rook, 0),
        Placement::new(Black, Rook, 8),
    ]);

    let actions = legal_actions(&state);
    assert_eq!(0, actions.iter().len());
}

#[test]
fn white_promotion_to_bishop_test() {
    let state = GameState::with_placements(vec![
        Placement::new(White, King, 4),
        Placement::new(White, Pawn, 48),
        Placement::new(Black, King, 60),
    ]);
    let action = Promotion { pawn_becomes: Bishop, moving_from: 48, to: 56 };
    assert!(action.is_legal(&state));
}

#[test]
fn white_promotion_to_knight_test() {
    let state = GameState::with_placements(vec![
        Placement::new(White, King, 4),
        Placement::new(White, Pawn, 48),
        Placement::new(Black, King, 60),
    ]);
    let action = Promotion { pawn_becomes: Knight, moving_from: 48, to: 56 };
    assert!(action.is_legal(&state));
}

#[test]
fn white_promotion_to_rook_test() {
    let state = GameState::with_placements(vec![
        Placement::new(White, King, 4),
        Placement::new(White, Pawn, 49),
        Placement::new(Black, King, 60),
    ]);
    let action = Promotion { pawn_becomes: Rook, moving_from: 49, to: 57 };
    assert!(action.is_legal(&state));
}

#[test]
fn white_promotion_to_queen_test() {
    let state = GameState::with_placements(vec![
        Placement::new(White, King, 4),
        Placement::new(White, Pawn, 50),
        Placement::new(Black, King, 60),
    ]);
    let action = Promotion { pawn_becomes: Queen, moving_from: 50, to: 58 };
    assert!(action.is_legal(&state));
}

#[test]
fn black_promotion_to_bishop_test() {
    let mut state = GameState::with_placements(vec![
        Placement::new(White, King, 4),
        Placement::new(Black, Pawn, 8),
        Placement::new(Black, King, 60),
    ]);
    state.to_move = Black;
    let action = Promotion { pawn_becomes: Bishop, moving_from: 8, to: 0 };
    assert!(action.is_legal(&state));
}

#[test]
fn black_promotion_to_knight_test() {
    let mut state = GameState::with_placements(vec![
        Placement::new(White, King, 4),
        Placement::new(Black, Pawn, 15),
        Placement::new(Black, King, 60),
    ]);
    state.to_move = Black;
    let action = Promotion { pawn_becomes: Knight, moving_from: 15, to: 7 };
    assert!(action.is_legal(&state));
}

#[test]
fn black_promotion_to_rook_test() {
    let mut state = GameState::with_placements(vec![
        Placement::new(White, King, 4),
        Placement::new(Black, Pawn, 14),
        Placement::new(Black, King, 60),
    ]);
    state.to_move = Black;
    let action = Promotion { pawn_becomes: Rook, moving_from: 14, to: 6 };
    assert!(action.is_legal(&state));
}

#[test]
fn black_promotion_to_queen_test() {
    let mut state = GameState::with_placements(vec![
        Placement::new(White, King, 4),
        Placement::new(Black, Pawn, 13),
        Placement::new(Black, King, 60),
    ]);
    state.to_move = Black;
    let action = Promotion { pawn_becomes: Queen, moving_from: 13, to: 5 };
    assert!(action.is_legal(&state));
}

#[test]
fn white_cant_move_into_check_test() {
    let state = GameState::with_placements(vec![
        Placement::new(White, King, 4),
        Placement::new(White, Pawn, 42),
        Placement::new(Black, King, 60),
        Placement::new(Black, Rook, 0),
    ]);
    let action = Move { from: 42, to: 50 };
    assert!(!action.is_legal(&state));
}

#[test]
fn white_cant_promote_into_check_test() {
    let state = GameState::with_placements(vec![
        Placement::new(White, King, 4),
        Placement::new(White, Pawn, 50),
        Placement::new(Black, King, 60),
        Placement::new(Black, Rook, 0),
    ]);
    let action = Promotion { pawn_becomes: Queen, moving_from: 50, to: 58 };
    assert!(!action.is_legal(&state));
}

#[test]
fn black_cant_move_into_check_test() {
    let mut state = GameState::with_placements(vec![
        Placement::new(White, King, 4),
        Placement::new(White, Queen, 48),
        Placement::new(Black, King, 60),
    ]);
    state.to_move = Black;
    let action = Move { from: 60, to: 52 };
    assert!(!action.is_legal(&state));
}

#[test]
fn black_cant_promote_into_check_test() {
    let mut state = GameState::with_placements(vec![
        Placement::new(White, King, 7),
        Placement::new(White, Queen, 56),
        Placement::new(Black, King, 60),
        Placement::new(Black, Pawn, 11),
    ]);
    state.to_move = Black;
    let action = Promotion { pawn_becomes: Queen, moving_from: 11, to: 3 };
    assert!(!action.is_legal(&state));
}

#[test]
fn white_pawn_can_capture_test() {
    let state = GameState::with_placements(vec![
        Placement::new(White, King, 7),
        Placement::new(White, Pawn, 28),
        Placement::new(Black, King, 60),
        Placement::new(Black, Pawn, 37),
    ]);

    let action = Capture { on: 37, with: 28 };
    assert!(action.is_legal(&state));
}

#[test]
fn white_pawn_cant_capture_vertically_test() {
    let state = GameState::with_placements(vec![
        Placement::new(White, King, 7),
        Placement::new(White, Pawn, 28),
        Placement::new(Black, King, 60),
        Placement::new(Black, Pawn, 36),
    ]);
    let action = Capture { on: 36, with: 28 };
    assert!(!action.is_legal(&state));
}

#[test]
fn black_pawn_can_capture_test() {
    let mut state = GameState::with_placements(vec![
        Placement::new(White, King, 7),
        Placement::new(White, Pawn, 28),
        Placement::new(Black, King, 60),
        Placement::new(Black, Pawn, 37),
    ]);

    state.to_move = Black;
    let action = Capture { on: 28, with: 37 };
    assert!(action.is_legal(&state));
}

#[test]
fn black_pawn_cant_capture_vertically_test() {
    let mut state = GameState::with_placements(vec![
        Placement::new(White, King, 7),
        Placement::new(White, Pawn, 28),
        Placement::new(Black, King, 60),
        Placement::new(Black, Pawn, 36),
    ]);
    state.to_move = Black;
    let action = Capture { on: 28, with: 36 };
    assert!(!action.is_legal(&state));
}

#[test]
fn white_bishop_can_capture_test() {
    let state = GameState::with_placements(vec![
        Placement::new(White, King, 7),
        Placement::new(White, Bishop, 19),
        Placement::new(Black, King, 60),
        Placement::new(Black, Pawn, 37),
    ]);

    let action = Capture { on: 37, with: 19 };
    assert!(action.is_legal(&state));
}

#[test]
fn black_bishop_can_capture_test() {
    let mut state = GameState::with_placements(vec![
        Placement::new(White, King, 7),
        Placement::new(White, Pawn, 19),
        Placement::new(Black, King, 60),
        Placement::new(Black, Bishop, 37),
    ]);

    state.to_move = Black;
    let action = Capture { on: 19, with: 37 };
    assert!(action.is_legal(&state));
}

#[test]
fn white_knight_can_capture_test() {
    let state = GameState::with_placements(vec![
        Placement::new(White, King, 7),
        Placement::new(White, Knight, 20),
        Placement::new(Black, King, 60),
        Placement::new(Black, Pawn, 37),
    ]);

    let action = Capture { on: 37, with: 20 };
    assert!(action.is_legal(&state));
}

#[test]
fn black_knight_can_capture_test() {
    let mut state = GameState::with_placements(vec![
        Placement::new(White, King, 7),
        Placement::new(White, Pawn, 20),
        Placement::new(Black, King, 60),
        Placement::new(Black, Knight, 37),
    ]);

    state.to_move = Black;
    let action = Capture { on: 20, with: 37 };
    assert!(action.is_legal(&state));
}

#[test]
fn white_rook_can_capture_test() {
    let state = GameState::with_placements(vec![
        Placement::new(White, King, 7),
        Placement::new(White, Rook, 21),
        Placement::new(Black, King, 60),
        Placement::new(Black, Pawn, 37),
    ]);

    let action = Capture { on: 37, with: 21 };
    assert!(action.is_legal(&state));
}

#[test]
fn black_rook_can_capture_test() {
    let mut state = GameState::with_placements(vec![
        Placement::new(White, King, 7),
        Placement::new(White, Pawn, 20),
        Placement::new(Black, King, 60),
        Placement::new(Black, Rook, 36),
    ]);

    state.to_move = Black;
    let action = Capture { on: 20, with: 36 };
    assert!(action.is_legal(&state));
}

#[test]
fn white_queen_can_capture_test() {
    let state = GameState::with_placements(vec![
        Placement::new(White, King, 7),
        Placement::new(White, Queen, 19),
        Placement::new(Black, King, 60),
        Placement::new(Black, Pawn, 37),
    ]);

    let action = Capture { on: 37, with: 19 };
    assert!(action.is_legal(&state));
}

#[test]
fn black_queen_can_capture_test() {
    let mut state = GameState::with_placements(vec![
        Placement::new(White, King, 7),
        Placement::new(White, Pawn, 20),
        Placement::new(Black, King, 60),
        Placement::new(Black, Queen, 36),
    ]);

    state.to_move = Black;
    let action = Capture { on: 20, with: 36 };
    assert!(action.is_legal(&state));
}

#[test]
fn white_king_can_capture_test() {
    let state = GameState::with_placements(vec![
        Placement::new(White, King, 36),
        Placement::new(Black, King, 60),
        Placement::new(Black, Pawn, 37),
    ]);

    let action = Capture { on: 37, with: 36 };
    assert!(action.is_legal(&state));
}

#[test]
fn black_king_can_capture_test() {
    let mut state = GameState::with_placements(vec![
        Placement::new(White, King, 7),
        Placement::new(White, Pawn, 20),
        Placement::new(Black, King, 28),
    ]);

    state.to_move = Black;
    let action = Capture { on: 20, with: 28 };
    assert!(action.is_legal(&state));
}
