//! A chess rules engine: given a board position it answers which actions are
//! legal, what the position looks like after an action, and whether a position
//! is check, checkmate, or stalemate.  The library is a pure value-to-value
//! core: no I/O and no shared mutable state; applying an action returns a
//! brand-new `GameState`.

pub mod actions;
pub mod display;
pub mod gamestate;
pub mod notation;
pub mod pieces;
pub mod rules;
pub mod utilities;

pub use actions::{
    Action, Capture, Castle, CastleDirection, EnPassant, Move, Promotion, pawn_can_promote_to,
};
pub use display::print;
pub use gamestate::{GameState, Placement};
pub use notation::{
    algebraic_as_index, fen_notation, index_as_algebraic, square_algebraic_to_index,
    square_index_to_algebraic,
};
pub use pieces::{Color, Piece, PieceName};
pub use rules::{
    color_is_checked, color_threatens_square, move_is_pseudo_legal, movement_is_vertical, piece_is,
    position_delta,
};
pub use utilities::{
    is_checkmate, is_stalemate, legal_actions, legal_captures, legal_castles, legal_en_passants,
    legal_moves, legal_next_states, legal_promotions, piece_value, relative_material_values,
};
