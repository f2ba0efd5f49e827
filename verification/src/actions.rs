//! The five kinds of action that can be applied to a `GameState`: plain
//! moves, captures, en-passant captures, castles and pawn promotions.  Each
//! kind answers `is_legal`, produces the successor state with `apply`, and
//! renders itself in algebraic notation.  `apply` never re-validates: callers
//! gate it behind `is_legal`, and `is_legal` itself applies the action to a
//! scratch copy to test check-safety ("simulate, don't commit").

use vstd::prelude::*;
use vstd::string::*;

use crate::gamestate::GameState;
use crate::notation::{
    file_char, file_str, rank_char, rank_str, square_index_to_algebraic, square_text,
};
use crate::pieces::{Color, Piece, PieceName};
use crate::rules::{
    abs_of, color_checked, color_is_checked, color_threatens, color_threatens_square, file_of,
    move_is_pseudo_legal, movement_is_vertical, piece_is, position_delta, pseudo_legal, rank_of,
    spec_delta_x, spec_delta_y,
};

verus! {

#[derive(Copy, Clone, Debug, PartialEq, Eq, Structural)]
pub enum CastleDirection {
    Kingside,
    Queenside,
}

/// King and rook castle together in one of the two directions.
#[derive(Copy, Clone, Debug, PartialEq, Eq, Structural)]
pub struct Castle {
    pub direction: CastleDirection,
}

/// A pawn on the rank before the last one advances or captures onto the last
/// rank and becomes `pawn_becomes`.
#[derive(Copy, Clone, Debug, PartialEq, Eq, Structural)]
pub struct Promotion {
    pub pawn_becomes: PieceName,
    pub moving_from: usize,
    pub to: usize,
}

/// A non-capturing relocation.
#[derive(Copy, Clone, Debug, PartialEq, Eq, Structural)]
pub struct Move {
    pub from: usize,
    pub to: usize,
}

/// A relocation onto an enemy-occupied square.
#[derive(Copy, Clone, Debug, PartialEq, Eq, Structural)]
pub struct Capture {
    pub on: usize,
    pub with: usize,
}

/// A pawn on `with` captures via the en-passant rule.
#[derive(Copy, Clone, Debug, PartialEq, Eq, Structural)]
pub struct EnPassant {
    pub with: usize,
}

/// Any of the five action kinds, as one closed sum.
#[derive(Copy, Clone, Debug, PartialEq, Eq, Structural)]
pub enum Action {
    Move(Move),
    Capture(Capture),
    EnPassant(EnPassant),
    Castle(Castle),
    Promotion(Promotion),
}

/// Promotion may produce any piece but a pawn or a king.
pub fn pawn_can_promote_to(piece: &PieceName) -> (r: bool)
    ensures
        r == (piece is Bishop || piece is Knight || piece is Rook || piece is Queen),
{
    match piece {
        PieceName::Bishop => true,
        PieceName::Knight => true,
        PieceName::Rook => true,
        PieceName::Queen => true,
        _ => false,
    }
}

/// The board after the piece on `from` relocates to `to`.
pub open spec fn board_after_move(board: Seq<Option<Piece>>, from: int, to: int) -> Seq<
    Option<Piece>,
> {
    board.update(to, board[from]).update(from, None)
}

/// Moving the king of `color`, or moving its rook off `rook_home`, forfeits
/// the corresponding castling right.
pub open spec fn departure_clears(
    board: Seq<Option<Piece>>,
    from: int,
    color: Color,
    rook_home: int,
) -> bool {
    match board[from] {
        Some(p) => p.color == color && (p.name is King || (p.name is Rook && from == rook_home)),
        None => false,
    }
}

/// Capturing the rook of `color` on its home corner forfeits the
/// corresponding castling right.
pub open spec fn capture_clears(
    board: Seq<Option<Piece>>,
    target: int,
    color: Color,
    rook_home: int,
) -> bool {
    &&& target == rook_home
    &&& board[target] matches Some(p) && p.color == color && p.name is Rook
}

/// The en-passant opportunity a move leaves behind: only a two-square pawn
/// advance opens one, on the square the pawn skipped.
pub open spec fn ep_after_move(s: GameState, m: Move) -> Option<usize> {
    match s.squares@[m.from as int] {
        Some(p) => {
            if p.name is Pawn && abs_of(spec_delta_y(m.from as int, m.to as int)) == 2 {
                match p.color {
                    Color::White => Some((m.from + 8) as usize),
                    Color::Black => Some((m.from - 8) as usize),
                }
            } else {
                None
            }
        },
        None => None,
    }
}

/// What `Move::apply` needs so that it cannot fail: squares on the board, a
/// piece to move, and room for the skipped square of a two-square advance.
pub open spec fn move_can_apply(m: Move, s: GameState) -> bool {
    &&& m.from < 64
    &&& m.to < 64
    &&& s.squares@[m.from as int] is Some
    &&& (match s.squares@[m.from as int] {
        Some(p) => (p.name is Pawn && abs_of(spec_delta_y(m.from as int, m.to as int)) == 2)
            ==> (match p.color {
            Color::White => m.from < 56,
            Color::Black => m.from >= 8,
        }),
        None => true,
    })
}

/// Everything `Move::apply` promises of the state it returns.
pub open spec fn move_apply_post(m: Move, s: GameState, r: GameState) -> bool {
    &&& r.squares@ == board_after_move(s.squares@, m.from as int, m.to as int)
    &&& r.to_move == s.to_move.spec_opposite()
    &&& r.en_passant_square == ep_after_move(s, m)
    &&& r.white_can_castle_kingside == (s.white_can_castle_kingside && !departure_clears(
        s.squares@,
        m.from as int,
        Color::White,
        7,
    ))
    &&& r.white_can_castle_queenside == (s.white_can_castle_queenside && !departure_clears(
        s.squares@,
        m.from as int,
        Color::White,
        0,
    ))
    &&& r.black_can_castle_kingside == (s.black_can_castle_kingside && !departure_clears(
        s.squares@,
        m.from as int,
        Color::Black,
        63,
    ))
    &&& r.black_can_castle_queenside == (s.black_can_castle_queenside && !departure_clears(
        s.squares@,
        m.from as int,
        Color::Black,
        56,
    ))
}

/// Hand the turn to the other side.  Everything else is left untouched.
fn switch_turn(state: &mut GameState)
    ensures
        final(state).to_move == old(state).to_move.spec_opposite(),
        final(state).squares@ == old(state).squares@,
        final(state).en_passant_square == old(state).en_passant_square,
        final(state).white_can_castle_kingside == old(state).white_can_castle_kingside,
        final(state).white_can_castle_queenside == old(state).white_can_castle_queenside,
        final(state).black_can_castle_kingside == old(state).black_can_castle_kingside,
        final(state).black_can_castle_queenside == old(state).black_can_castle_queenside,
{
    state.to_move = state.to_move.opposite();
}

/// Clear the castling rights that moving the piece on `from` forfeits.  The
/// board itself is left untouched.
fn clear_rights_for_departure(state: &mut GameState, from: usize)
    requires
        from < 64,
    ensures
        final(state).squares@ == old(state).squares@,
        final(state).to_move == old(state).to_move,
        final(state).en_passant_square == old(state).en_passant_square,
        final(state).white_can_castle_kingside == (old(state).white_can_castle_kingside
            && !departure_clears(old(state).squares@, from as int, Color::White, 7)),
        final(state).white_can_castle_queenside == (old(state).white_can_castle_queenside
            && !departure_clears(old(state).squares@, from as int, Color::White, 0)),
        final(state).black_can_castle_kingside == (old(state).black_can_castle_kingside
            && !departure_clears(old(state).squares@, from as int, Color::Black, 63)),
        final(state).black_can_castle_queenside == (old(state).black_can_castle_queenside
            && !departure_clears(old(state).squares@, from as int, Color::Black, 56)),
{
    match state.squares[from] {
        Some(piece) => match (piece.color, piece.name) {
            (Color::White, PieceName::King) => {
                state.white_can_castle_kingside = false;
                state.white_can_castle_queenside = false;
            },
            (Color::Black, PieceName::King) => {
                state.black_can_castle_kingside = false;
                state.black_can_castle_queenside = false;
            },
            (Color::White, PieceName::Rook) => {
                if from == 7 {
                    state.white_can_castle_kingside = false;
                }
                if from == 0 {
                    state.white_can_castle_queenside = false;
                }
            },
            (Color::Black, PieceName::Rook) => {
                if from == 63 {
                    state.black_can_castle_kingside = false;
                }
                if from == 56 {
                    state.black_can_castle_queenside = false;
                }
            },
            _ => {},
        },
        None => {},
    }
}

/// Clear the castling right that capturing onto `target` forfeits: a rook
/// taken on its home corner.  The board itself is left untouched.
fn clear_rights_for_captured(state: &mut GameState, target: usize)
    requires
        target < 64,
    ensures
        final(state).squares@ == old(state).squares@,
        final(state).to_move == old(state).to_move,
        final(state).en_passant_square == old(state).en_passant_square,
        final(state).white_can_castle_kingside == (old(state).white_can_castle_kingside
            && !capture_clears(old(state).squares@, target as int, Color::White, 7)),
        final(state).white_can_castle_queenside == (old(state).white_can_castle_queenside
            && !capture_clears(old(state).squares@, target as int, Color::White, 0)),
        final(state).black_can_castle_kingside == (old(state).black_can_castle_kingside
            && !capture_clears(old(state).squares@, target as int, Color::Black, 63)),
        final(state).black_can_castle_queenside == (old(state).black_can_castle_queenside
            && !capture_clears(old(state).squares@, target as int, Color::Black, 56)),
{
    match state.squares[target] {
        Some(piece) => match (piece.color, piece.name) {
            (Color::White, PieceName::Rook) => {
                if target == 7 {
                    state.white_can_castle_kingside = false;
                }
                if target == 0 {
                    state.white_can_castle_queenside = false;
                }
            },
            (Color::Black, PieceName::Rook) => {
                if target == 63 {
                    state.black_can_castle_kingside = false;
                }
                if target == 56 {
                    state.black_can_castle_queenside = false;
                }
            },
            _ => {},
        },
        None => {},
    }
}

/// When a plain move is legal: an on-board relocation of a piece onto an
/// empty square, pseudo-legal for that piece, that does not leave the side
/// to move in check.
pub open spec fn move_is_legal_spec(m: Move, s: GameState) -> bool {
    &&& m.from < 64
    &&& m.to < 64
    &&& s.squares@[m.to as int] is None
    &&& s.squares@[m.from as int] is Some
    &&& m.from != m.to
    &&& pseudo_legal(s.squares@, s.en_passant_square, m.from as int, m.to as int)
    &&& !color_checked(board_after_move(s.squares@, m.from as int, m.to as int), s.to_move)
}

impl Move {
    /// Whether this move may be played in `state`.
    pub fn is_legal(&self, state: &GameState) -> (r: bool)
        ensures
            r == move_is_legal_spec(*self, *state),
    {
        if self.from > 63 || self.to > 63 {
            return false;
        }
        if state.squares[self.to].is_some() {
            return false;
        }
        if state.squares[self.from].is_none() {
            return false;
        }
        if self.from == self.to {
            return false;
        }
        if !move_is_pseudo_legal(self.from, self.to, state) {
            return false;
        }
        let applied = self.apply(state);
        if color_is_checked(state.to_move, &applied) {
            return false;
        }
        true
    }

    /// Perform the relocation unconditionally: expire en-passant, switch
    /// turns, revoke forfeited castling rights, record the skipped square of
    /// a two-square pawn advance, and move the piece.
    pub fn apply(&self, state: &GameState) -> (r: GameState)
        requires
            move_can_apply(*self, *state),
        ensures
            move_apply_post(*self, *state, r),
    {
        let mut new_state = *state;
        switch_turn(&mut new_state);
        clear_rights_for_departure(&mut new_state, self.from);

        let piece = state.squares[self.from].unwrap();
        new_state.en_passant_square = en_passant_opening(&piece, self.from, self.to);
        new_state.squares[self.to] = new_state.squares[self.from];
        new_state.squares[self.from] = None;
        new_state
    }
}

/// The en-passant square a piece opens by moving from `from` to `to`: the
/// skipped square of a two-square pawn advance, and nothing otherwise.
fn en_passant_opening(piece: &Piece, from: usize, to: usize) -> (r: Option<usize>)
    requires
        from < 64,
        to < 64,
        (piece.name is Pawn && abs_of(spec_delta_y(from as int, to as int)) == 2) ==> (match piece
            .color {
            Color::White => from < 56,
            Color::Black => from >= 8,
        }),
    ensures
        r == (if piece.name is Pawn && abs_of(spec_delta_y(from as int, to as int)) == 2 {
            match piece.color {
                Color::White => Some((from + 8) as usize),
                Color::Black => Some((from - 8) as usize),
            }
        } else {
            None::<usize>
        }),
{
    if matches!(piece.name, PieceName::Pawn) {
        let (_delta_x, delta_y) = position_delta(from, to);
        if delta_y == 2 || delta_y == -2 {
            return match piece.color {
                Color::White => Some(from + 8),
                Color::Black => Some(from - 8),
            };
        }
    }
    None
}

/// What `Capture::apply` needs so that it cannot fail: both squares on the
/// board.
pub open spec fn capture_can_apply(c: Capture, s: GameState) -> bool {
    c.with < 64 && c.on < 64
}

/// Everything `Capture::apply` promises of the state it returns.
pub open spec fn capture_apply_post(c: Capture, s: GameState, r: GameState) -> bool {
    &&& r.squares@ == board_after_move(s.squares@, c.with as int, c.on as int)
    &&& r.to_move == s.to_move.spec_opposite()
    &&& r.en_passant_square is None
    &&& r.white_can_castle_kingside == (s.white_can_castle_kingside && !departure_clears(
        s.squares@,
        c.with as int,
        Color::White,
        7,
    ) && !capture_clears(s.squares@, c.on as int, Color::White, 7))
    &&& r.white_can_castle_queenside == (s.white_can_castle_queenside && !departure_clears(
        s.squares@,
        c.with as int,
        Color::White,
        0,
    ) && !capture_clears(s.squares@, c.on as int, Color::White, 0))
    &&& r.black_can_castle_kingside == (s.black_can_castle_kingside && !departure_clears(
        s.squares@,
        c.with as int,
        Color::Black,
        63,
    ) && !capture_clears(s.squares@, c.on as int, Color::Black, 63))
    &&& r.black_can_castle_queenside == (s.black_can_castle_queenside && !departure_clears(
        s.squares@,
        c.with as int,
        Color::Black,
        56,
    ) && !capture_clears(s.squares@, c.on as int, Color::Black, 56))
}

/// When a capture is legal: the side to move relocates its piece onto an
/// enemy-occupied square, pseudo-legally for that piece, pawns only
/// diagonally, without leaving itself in check.
pub open spec fn capture_is_legal_spec(c: Capture, s: GameState) -> bool {
    &&& c.with < 64
    &&& c.on < 64
    &&& s.squares@[c.with as int] is Some
    &&& s.squares@[c.on as int] is Some
    &&& c.with != c.on
    &&& (match s.squares@[c.with as int] {
        Some(attacker) => attacker.color == s.to_move,
        None => false,
    })
    &&& (match s.squares@[c.on as int] {
        Some(defender) => defender.color != s.to_move,
        None => false,
    })
    &&& !(match s.squares@[c.with as int] {
        Some(attacker) => attacker.name is Pawn && spec_delta_x(c.with as int, c.on as int) == 0,
        None => false,
    })
    &&& pseudo_legal(s.squares@, s.en_passant_square, c.with as int, c.on as int)
    &&& !color_checked(board_after_move(s.squares@, c.with as int, c.on as int), s.to_move)
}

impl Capture {
    /// Whether this capture may be played in `state`.
    pub fn is_legal(&self, state: &GameState) -> (r: bool)
        ensures
            r == capture_is_legal_spec(*self, *state),
    {
        if self.with > 63 || self.on > 63 {
            return false;
        }
        if state.squares[self.with].is_none() {
            return false;
        }
        if state.squares[self.on].is_none() {
            return false;
        }
        if self.with == self.on {
            return false;
        }
        let attacker = state.squares[self.with].unwrap();
        let defender = state.squares[self.on].unwrap();
        if attacker.color != state.to_move {
            return false;
        }
        if defender.color == state.to_move {
            return false;
        }
        // Straight-ahead movement is pseudo-legal for pawns, but a pawn only
        // ever captures diagonally.
        if matches!(attacker.name, PieceName::Pawn) && movement_is_vertical(self.with, self.on) {
            return false;
        }
        if !move_is_pseudo_legal(self.with, self.on, state) {
            return false;
        }
        let applied = self.apply(state);
        if color_is_checked(state.to_move, &applied) {
            return false;
        }
        true
    }

    /// Perform the capture unconditionally: expire en-passant, switch turns,
    /// revoke forfeited castling rights, and relocate the attacker onto the
    /// captured square.
    pub fn apply(&self, state: &GameState) -> (r: GameState)
        requires
            capture_can_apply(*self, *state),
        ensures
            capture_apply_post(*self, *state, r),
    {
        let mut new_state = *state;
        new_state.en_passant_square = None;
        switch_turn(&mut new_state);
        clear_rights_for_captured(&mut new_state, self.on);
        clear_rights_for_departure(&mut new_state, self.with);
        new_state.squares[self.on] = new_state.squares[self.with];
        new_state.squares[self.with] = None;
        new_state
    }
}

/// The square whose pawn an en-passant capture removes: the one the
/// two-square advance actually landed on, directly behind the en-passant
/// square from the attacker's point of view.
pub open spec fn ep_captured_square(dest: int, attacker: Color) -> int {
    match attacker {
        Color::White => dest - 8,
        Color::Black => dest + 8,
    }
}

/// What `EnPassant::apply` needs so that it cannot fail: an en-passant
/// square with room behind it, and an attacker to move.
pub open spec fn en_passant_can_apply(e: EnPassant, s: GameState) -> bool {
    &&& e.with < 64
    &&& s.en_passant_square matches Some(d) && d < 64
    &&& s.squares@[e.with as int] is Some
    &&& match (s.squares@[e.with as int], s.en_passant_square) {
        (Some(p), Some(d)) => 0 <= ep_captured_square(d as int, p.color) < 64,
        _ => true,
    }
}

/// The board after the pawn on `with` captures en passant onto `dest`.
pub open spec fn en_passant_board(
    board: Seq<Option<Piece>>,
    with: int,
    dest: int,
    attacker: Color,
) -> Seq<Option<Piece>> {
    let cleared = board.update(ep_captured_square(dest, attacker), None);
    let moved = cleared.update(dest, cleared[with]);
    moved.update(with, None)
}

/// Everything `EnPassant::apply` promises of the state it returns.
pub open spec fn en_passant_apply_post(e: EnPassant, s: GameState, r: GameState) -> bool {
    &&& match (s.squares@[e.with as int], s.en_passant_square) {
        (Some(p), Some(d)) => r.squares@ == en_passant_board(
            s.squares@,
            e.with as int,
            d as int,
            p.color,
        ),
        _ => true,
    }
    &&& r.to_move == s.to_move.spec_opposite()
    &&& r.en_passant_square is None
    &&& r.white_can_castle_kingside == s.white_can_castle_kingside
    &&& r.white_can_castle_queenside == s.white_can_castle_queenside
    &&& r.black_can_castle_kingside == s.black_can_castle_kingside
    &&& r.black_can_castle_queenside == s.black_can_castle_queenside
}

/// When an en-passant capture is legal: the opportunity is open, a pawn of
/// the side to move stands one legal capture-delta away from the en-passant
/// square, and taking it does not leave the mover in check.
pub open spec fn en_passant_is_legal_spec(e: EnPassant, s: GameState) -> bool {
    &&& s.en_passant_square matches Some(d) && d < 64
    &&& e.with < 64
    &&& s.squares@[e.with as int] matches Some(p) && p.name is Pawn
    &&& (match (s.squares@[e.with as int], s.en_passant_square) {
        (Some(p), Some(d)) => {
            let dx = spec_delta_x(e.with as int, d as int);
            let dy = spec_delta_y(e.with as int, d as int);
            match p.color {
                Color::White => (dx == 1 || dx == -1) && dy == 1 && s.to_move is White,
                Color::Black => (dx == 1 || dx == -1) && dy == -1 && s.to_move is Black,
            }
        },
        _ => false,
    })
    &&& (match (s.squares@[e.with as int], s.en_passant_square) {
        (Some(p), Some(d)) => !color_checked(
            en_passant_board(s.squares@, e.with as int, d as int, p.color),
            s.to_move,
        ),
        _ => false,
    })
}

impl EnPassant {
    /// Whether this en-passant capture may be played in `state`.
    pub fn is_legal(&self, state: &GameState) -> (r: bool)
        ensures
            r == en_passant_is_legal_spec(*self, *state),
    {
        let destination = match state.en_passant_square {
            Some(d) => d,
            None => {
                return false;
            },
        };
        if destination > 63 {
            return false;
        }
        if self.with > 63 {
            return false;
        }
        let attacker = match state.squares[self.with] {
            Some(p) => p,
            None => {
                return false;
            },
        };
        if !matches!(attacker.name, PieceName::Pawn) {
            return false;
        }
        let (delta_x, delta_y) = position_delta(self.with, destination);
        let is_pseudo_legal = match attacker.color {
            Color::White => (delta_x == 1 || delta_x == -1) && delta_y == 1 && state.to_move
                == Color::White,
            Color::Black => (delta_x == 1 || delta_x == -1) && delta_y == -1 && state.to_move
                == Color::Black,
        };
        if !is_pseudo_legal {
            return false;
        }
        let applied = self.apply(state);
        if color_is_checked(state.to_move, &applied) {
            return false;
        }
        true
    }

    /// Perform the en-passant capture unconditionally: remove the pawn that
    /// opened the opportunity, expire it, switch turns, and relocate the
    /// attacker onto the en-passant square.
    pub fn apply(&self, state: &GameState) -> (r: GameState)
        requires
            en_passant_can_apply(*self, *state),
        ensures
            en_passant_apply_post(*self, *state, r),
    {
        let mut new_state = *state;
        let attacker = state.squares[self.with].unwrap();
        let destination = state.en_passant_square.unwrap();

        match attacker.color {
            Color::White => new_state.squares[destination - 8] = None,
            Color::Black => new_state.squares[destination + 8] = None,
        }
        new_state.en_passant_square = None;
        switch_turn(&mut new_state);
        new_state.squares[destination] = new_state.squares[self.with];
        new_state.squares[self.with] = None;
        new_state
    }
}

/// The board after `color` castles in `direction`: king and rook relocate
/// simultaneously between their fixed home and castle squares.
pub open spec fn castle_board(
    board: Seq<Option<Piece>>,
    color: Color,
    direction: CastleDirection,
) -> Seq<Option<Piece>> {
    match (color, direction) {
        (Color::White, CastleDirection::Kingside) => {
            let b = board.update(6, board[4]);
            let b = b.update(5, b[7]);
            let b = b.update(4, None);
            b.update(7, None)
        },
        (Color::White, CastleDirection::Queenside) => {
            let b = board.update(2, board[4]);
            let b = b.update(3, b[0]);
            let b = b.update(4, None);
            b.update(0, None)
        },
        (Color::Black, CastleDirection::Kingside) => {
            let b = board.update(62, board[60]);
            let b = b.update(61, b[63]);
            let b = b.update(60, None);
            b.update(63, None)
        },
        (Color::Black, CastleDirection::Queenside) => {
            let b = board.update(58, board[60]);
            let b = b.update(59, b[56]);
            let b = b.update(60, None);
            b.update(56, None)
        },
    }
}

/// Everything `Castle::apply` promises of the state it returns: the used
/// castling right is gone for good, the other three are untouched.
pub open spec fn castle_apply_post(c: Castle, s: GameState, r: GameState) -> bool {
    &&& r.squares@ == castle_board(s.squares@, s.to_move, c.direction)
    &&& r.to_move == s.to_move.spec_opposite()
    &&& r.en_passant_square is None
    &&& r.white_can_castle_kingside == (s.white_can_castle_kingside && !(s.to_move is White
        && c.direction is Kingside))
    &&& r.white_can_castle_queenside == (s.white_can_castle_queenside && !(s.to_move is White
        && c.direction is Queenside))
    &&& r.black_can_castle_kingside == (s.black_can_castle_kingside && !(s.to_move is Black
        && c.direction is Kingside))
    &&& r.black_can_castle_queenside == (s.black_can_castle_queenside && !(s.to_move is Black
        && c.direction is Queenside))
}

/// A piece of exactly this color and kind stands on `sq`.
pub open spec fn piece_at_is(
    board: Seq<Option<Piece>>,
    sq: int,
    color: Color,
    name: PieceName,
) -> bool {
    board[sq] matches Some(p) && p.color == color && p.name == name
}

/// When a castle is legal: the matching right is still held, king and rook
/// stand on their exact home squares, the squares between them are empty,
/// the king's start, transit and end squares are free of enemy threat, and
/// the castle does not leave the mover in check.
pub open spec fn castle_is_legal_spec(c: Castle, s: GameState) -> bool {
    &&& !color_checked(castle_board(s.squares@, s.to_move, c.direction), s.to_move)
    &&& (match (s.to_move, c.direction) {
        (Color::White, CastleDirection::Kingside) => {
            &&& s.white_can_castle_kingside
            &&& piece_at_is(s.squares@, 4, Color::White, PieceName::King)
            &&& piece_at_is(s.squares@, 7, Color::White, PieceName::Rook)
            &&& s.squares@[5] is None
            &&& s.squares@[6] is None
            &&& !color_threatens(s.squares@, Color::Black, 4)
            &&& !color_threatens(s.squares@, Color::Black, 5)
            &&& !color_threatens(s.squares@, Color::Black, 6)
            &&& !color_threatens(s.squares@, Color::Black, 7)
        },
        (Color::White, CastleDirection::Queenside) => {
            &&& s.white_can_castle_queenside
            &&& piece_at_is(s.squares@, 4, Color::White, PieceName::King)
            &&& piece_at_is(s.squares@, 0, Color::White, PieceName::Rook)
            &&& s.squares@[1] is None
            &&& s.squares@[2] is None
            &&& s.squares@[3] is None
            &&& !color_threatens(s.squares@, Color::Black, 0)
            &&& !color_threatens(s.squares@, Color::Black, 1)
            &&& !color_threatens(s.squares@, Color::Black, 2)
            &&& !color_threatens(s.squares@, Color::Black, 3)
            &&& !color_threatens(s.squares@, Color::Black, 4)
        },
        (Color::Black, CastleDirection::Kingside) => {
            &&& s.black_can_castle_kingside
            &&& piece_at_is(s.squares@, 60, Color::Black, PieceName::King)
            &&& piece_at_is(s.squares@, 63, Color::Black, PieceName::Rook)
            &&& s.squares@[61] is None
            &&& s.squares@[62] is None
            &&& !color_threatens(s.squares@, Color::White, 60)
            &&& !color_threatens(s.squares@, Color::White, 61)
            &&& !color_threatens(s.squares@, Color::White, 62)
            &&& !color_threatens(s.squares@, Color::White, 63)
        },
        (Color::Black, CastleDirection::Queenside) => {
            &&& s.black_can_castle_queenside
            &&& piece_at_is(s.squares@, 60, Color::Black, PieceName::King)
            &&& piece_at_is(s.squares@, 56, Color::Black, PieceName::Rook)
            &&& s.squares@[57] is None
            &&& s.squares@[58] is None
            &&& s.squares@[59] is None
            &&& !color_threatens(s.squares@, Color::White, 56)
            &&& !color_threatens(s.squares@, Color::White, 57)
            &&& !color_threatens(s.squares@, Color::White, 58)
            &&& !color_threatens(s.squares@, Color::White, 59)
            &&& !color_threatens(s.squares@, Color::White, 60)
        },
    })
}

/// White may castle kingside but for check-safety: right held, king on e1,
/// rook on h1, f1 and g1 empty, none of e1..h1 threatened by Black.
fn white_kingside_castle_allowed(state: &GameState) -> (r: bool)
    ensures
        r == ({
            &&& state.white_can_castle_kingside
            &&& piece_at_is(state.squares@, 4, Color::White, PieceName::King)
            &&& piece_at_is(state.squares@, 7, Color::White, PieceName::Rook)
            &&& state.squares@[5] is None
            &&& state.squares@[6] is None
            &&& !color_threatens(state.squares@, Color::Black, 4)
            &&& !color_threatens(state.squares@, Color::Black, 5)
            &&& !color_threatens(state.squares@, Color::Black, 6)
            &&& !color_threatens(state.squares@, Color::Black, 7)
        }),
{
    if !state.white_can_castle_kingside {
        return false;
    }
    if !piece_is(Color::White, PieceName::King, 4, state) {
        return false;
    }
    if !piece_is(Color::White, PieceName::Rook, 7, state) {
        return false;
    }
    if state.squares[5].is_some() {
        return false;
    }
    if state.squares[6].is_some() {
        return false;
    }
    if color_threatens_square(Color::Black, 4, state) {
        return false;
    }
    if color_threatens_square(Color::Black, 5, state) {
        return false;
    }
    if color_threatens_square(Color::Black, 6, state) {
        return false;
    }
    if color_threatens_square(Color::Black, 7, state) {
        return false;
    }
    true
}

/// White may castle queenside but for check-safety: right held, king on e1,
/// rook on a1, b1..d1 empty, none of a1..e1 threatened by Black.
fn white_queenside_castle_allowed(state: &GameState) -> (r: bool)
    ensures
        r == ({
            &&& state.white_can_castle_queenside
            &&& piece_at_is(state.squares@, 4, Color::White, PieceName::King)
            &&& piece_at_is(state.squares@, 0, Color::White, PieceName::Rook)
            &&& state.squares@[1] is None
            &&& state.squares@[2] is None
            &&& state.squares@[3] is None
            &&& !color_threatens(state.squares@, Color::Black, 0)
            &&& !color_threatens(state.squares@, Color::Black, 1)
            &&& !color_threatens(state.squares@, Color::Black, 2)
            &&& !color_threatens(state.squares@, Color::Black, 3)
            &&& !color_threatens(state.squares@, Color::Black, 4)
        }),
{
    if !state.white_can_castle_queenside {
        return false;
    }
    if !piece_is(Color::White, PieceName::King, 4, state) {
        return false;
    }
    if !piece_is(Color::White, PieceName::Rook, 0, state) {
        return false;
    }
    if state.squares[1].is_some() {
        return false;
    }
    if state.squares[2].is_some() {
        return false;
    }
    if state.squares[3].is_some() {
        return false;
    }
    if color_threatens_square(Color::Black, 0, state) {
        return false;
    }
    if color_threatens_square(Color::Black, 1, state) {
        return false;
    }
    if color_threatens_square(Color::Black, 2, state) {
        return false;
    }
    if color_threatens_square(Color::Black, 3, state) {
        return false;
    }
    if color_threatens_square(Color::Black, 4, state) {
        return false;
    }
    true
}

/// Black may castle kingside but for check-safety: right held, king on e8,
/// rook on h8, f8 and g8 empty, none of e8..h8 threatened by White.
fn black_kingside_castle_allowed(state: &GameState) -> (r: bool)
    ensures
        r == ({
            &&& state.black_can_castle_kingside
            &&& piece_at_is(state.squares@, 60, Color::Black, PieceName::King)
            &&& piece_at_is(state.squares@, 63, Color::Black, PieceName::Rook)
            &&& state.squares@[61] is None
            &&& state.squares@[62] is None
            &&& !color_threatens(state.squares@, Color::White, 60)
            &&& !color_threatens(state.squares@, Color::White, 61)
            &&& !color_threatens(state.squares@, Color::White, 62)
            &&& !color_threatens(state.squares@, Color::White, 63)
        }),
{
    if !state.black_can_castle_kingside {
        return false;
    }
    if !piece_is(Color::Black, PieceName::King, 60, state) {
        return false;
    }
    if !piece_is(Color::Black, PieceName::Rook, 63, state) {
        return false;
    }
    if state.squares[61].is_some() {
        return false;
    }
    if state.squares[62].is_some() {
        return false;
    }
    if color_threatens_square(Color::White, 60, state) {
        return false;
    }
    if color_threatens_square(Color::White, 61, state) {
        return false;
    }
    if color_threatens_square(Color::White, 62, state) {
        return false;
    }
    if color_threatens_square(Color::White, 63, state) {
        return false;
    }
    true
}

/// Black may castle queenside but for check-safety: right held, king on e8,
/// rook on a8, b8..d8 empty, none of a8..e8 threatened by White.
fn black_queenside_castle_allowed(state: &GameState) -> (r: bool)
    ensures
        r == ({
            &&& state.black_can_castle_queenside
            &&& piece_at_is(state.squares@, 60, Color::Black, PieceName::King)
            &&& piece_at_is(state.squares@, 56, Color::Black, PieceName::Rook)
            &&& state.squares@[57] is None
            &&& state.squares@[58] is None
            &&& state.squares@[59] is None
            &&& !color_threatens(state.squares@, Color::White, 56)
            &&& !color_threatens(state.squares@, Color::White, 57)
            &&& !color_threatens(state.squares@, Color::White, 58)
            &&& !color_threatens(state.squares@, Color::White, 59)
            &&& !color_threatens(state.squares@, Color::White, 60)
        }),
{
    if !state.black_can_castle_queenside {
        return false;
    }
    if !piece_is(Color::Black, PieceName::King, 60, state) {
        return false;
    }
    if !piece_is(Color::Black, PieceName::Rook, 56, state) {
        return false;
    }
    if state.squares[57].is_some() {
        return false;
    }
    if state.squares[58].is_some() {
        return false;
    }
    if state.squares[59].is_some() {
        return false;
    }
    if color_threatens_square(Color::White, 56, state) {
        return false;
    }
    if color_threatens_square(Color::White, 57, state) {
        return false;
    }
    if color_threatens_square(Color::White, 58, state) {
        return false;
    }
    if color_threatens_square(Color::White, 59, state) {
        return false;
    }
    if color_threatens_square(Color::White, 60, state) {
        return false;
    }
    true
}

impl Castle {
    /// Whether this castle may be played in `state`.
    pub fn is_legal(&self, state: &GameState) -> (r: bool)
        ensures
            r == castle_is_legal_spec(*self, *state),
    {
        let applied = self.apply(state);
        if color_is_checked(state.to_move, &applied) {
            return false;
        }
        match (state.to_move, self.direction) {
            (Color::White, CastleDirection::Kingside) => white_kingside_castle_allowed(state),
            (Color::White, CastleDirection::Queenside) => white_queenside_castle_allowed(state),
            (Color::Black, CastleDirection::Kingside) => black_kingside_castle_allowed(state),
            (Color::Black, CastleDirection::Queenside) => black_queenside_castle_allowed(state),
        }
    }

    /// Perform the castle unconditionally: expire en-passant, switch turns,
    /// move king and rook, and clear the used castling right.
    pub fn apply(&self, state: &GameState) -> (r: GameState)
        ensures
            castle_apply_post(*self, *state, r),
    {
        let mut new_state = *state;
        new_state.en_passant_square = None;
        switch_turn(&mut new_state);

        match (state.to_move, self.direction) {
            (Color::White, CastleDirection::Kingside) => {
                new_state.white_can_castle_kingside = false;
                new_state.squares[6] = new_state.squares[4];
                new_state.squares[5] = new_state.squares[7];
                new_state.squares[4] = None;
                new_state.squares[7] = None;
            },
            (Color::White, CastleDirection::Queenside) => {
                new_state.white_can_castle_queenside = false;
                new_state.squares[2] = new_state.squares[4];
                new_state.squares[3] = new_state.squares[0];
                new_state.squares[4] = None;
                new_state.squares[0] = None;
            },
            (Color::Black, CastleDirection::Kingside) => {
                new_state.black_can_castle_kingside = false;
                new_state.squares[62] = new_state.squares[60];
                new_state.squares[61] = new_state.squares[63];
                new_state.squares[60] = None;
                new_state.squares[63] = None;
            },
            (Color::Black, CastleDirection::Queenside) => {
                new_state.black_can_castle_queenside = false;
                new_state.squares[58] = new_state.squares[60];
                new_state.squares[59] = new_state.squares[56];
                new_state.squares[60] = None;
                new_state.squares[56] = None;
            },
        }
        new_state
    }
}

/// What `Promotion::apply` needs so that it cannot fail: both squares on the
/// board.
pub open spec fn promotion_can_apply(p: Promotion, s: GameState) -> bool {
    p.moving_from < 64 && p.to < 64
}

/// The board after the pawn on `from` leaves it and the promoted piece
/// appears on `to`.
pub open spec fn promotion_board(
    board: Seq<Option<Piece>>,
    from: int,
    to: int,
    piece: Piece,
) -> Seq<Option<Piece>> {
    board.update(from, None).update(to, Some(piece))
}

/// Everything `Promotion::apply` promises of the state it returns.
pub open spec fn promotion_apply_post(p: Promotion, s: GameState, r: GameState) -> bool {
    &&& r.squares@ == promotion_board(
        s.squares@,
        p.moving_from as int,
        p.to as int,
        Piece { color: s.to_move, name: p.pawn_becomes },
    )
    &&& r.to_move == s.to_move.spec_opposite()
    &&& r.en_passant_square is None
    &&& r.white_can_castle_kingside == (s.white_can_castle_kingside && !capture_clears(
        s.squares@,
        p.to as int,
        Color::White,
        7,
    ))
    &&& r.white_can_castle_queenside == (s.white_can_castle_queenside && !capture_clears(
        s.squares@,
        p.to as int,
        Color::White,
        0,
    ))
    &&& r.black_can_castle_kingside == (s.black_can_castle_kingside && !capture_clears(
        s.squares@,
        p.to as int,
        Color::Black,
        63,
    ))
    &&& r.black_can_castle_queenside == (s.black_can_castle_queenside && !capture_clears(
        s.squares@,
        p.to as int,
        Color::Black,
        56,
    ))
}

/// When a promotion is legal: a pawn of the side to move stands on the rank
/// before its last one, promotes to anything but a pawn or a king, steps
/// straight onto an empty square or diagonally onto an enemy piece on the
/// last rank, and does not leave its side in check.
pub open spec fn promotion_is_legal_spec(p: Promotion, s: GameState) -> bool {
    &&& (p.pawn_becomes is Bishop || p.pawn_becomes is Knight || p.pawn_becomes is Rook
        || p.pawn_becomes is Queen)
    &&& p.moving_from < 64
    &&& p.to < 64
    &&& (match s.squares@[p.moving_from as int] {
        Some(pawn) => {
            let dx = spec_delta_x(p.moving_from as int, p.to as int);
            let dy = spec_delta_y(p.moving_from as int, p.to as int);
            &&& pawn.color == s.to_move
            &&& pawn.name is Pawn
            &&& (match pawn.color {
                Color::White => 48 <= p.moving_from < 56 && dy == 1,
                Color::Black => 8 <= p.moving_from < 16 && dy == -1,
            })
            &&& ((dx == 0 && s.squares@[p.to as int] is None) || ((dx == 1 || dx == -1)
                && (match s.squares@[p.to as int] {
                Some(q) => q.color != s.to_move,
                None => false,
            })))
        },
        None => false,
    })
    &&& !color_checked(
        promotion_board(
            s.squares@,
            p.moving_from as int,
            p.to as int,
            Piece { color: s.to_move, name: p.pawn_becomes },
        ),
        s.to_move,
    )
}

impl Promotion {
    /// Whether this promotion may be played in `state`.
    pub fn is_legal(&self, state: &GameState) -> (r: bool)
        ensures
            r == promotion_is_legal_spec(*self, *state),
    {
        if self.moving_from > 63 || self.to > 63 {
            return false;
        }
        if !pawn_can_promote_to(&self.pawn_becomes) {
            return false;
        }
        let piece = match state.squares[self.moving_from] {
            Some(p) => p,
            None => {
                return false;
            },
        };
        if piece.color != state.to_move {
            return false;
        }
        if !matches!(piece.name, PieceName::Pawn) {
            return false;
        }
        let (delta_x, delta_y) = position_delta(self.moving_from, self.to);
        let rank_ok = match piece.color {
            Color::White => self.moving_from >= 48 && self.moving_from < 56 && delta_y == 1,
            Color::Black => self.moving_from >= 8 && self.moving_from < 16 && delta_y == -1,
        };
        if !rank_ok {
            return false;
        }
        let target_ok = if delta_x == 0 {
            state.squares[self.to].is_none()
        } else if delta_x == 1 || delta_x == -1 {
            match state.squares[self.to] {
                Some(q) => q.color != state.to_move,
                None => false,
            }
        } else {
            false
        };
        if !target_ok {
            return false;
        }
        let applied = self.apply(state);
        if color_is_checked(state.to_move, &applied) {
            return false;
        }
        true
    }

    /// Perform the promotion unconditionally: expire en-passant, switch
    /// turns, revoke the castling right of a rook captured on its corner,
    /// remove the pawn, and place the new piece.
    pub fn apply(&self, state: &GameState) -> (r: GameState)
        requires
            promotion_can_apply(*self, *state),
        ensures
            promotion_apply_post(*self, *state, r),
    {
        let mut new_state = *state;
        new_state.en_passant_square = None;
        switch_turn(&mut new_state);
        clear_rights_for_captured(&mut new_state, self.to);
        new_state.squares[self.moving_from] = None;
        new_state.squares[self.to] = Some(Piece { color: state.to_move, name: self.pawn_becomes });
        new_state
    }
}

impl Move {
    /// The constant tag that enumeration filters go by.
    pub fn name(&self) -> (r: &'static str)
        ensures
            r@ == "Move"@,
    {
        "Move"
    }
}

impl Capture {
    /// The constant tag that enumeration filters go by.
    pub fn name(&self) -> (r: &'static str)
        ensures
            r@ == "Capture"@,
    {
        "Capture"
    }
}

impl EnPassant {
    /// The constant tag that enumeration filters go by.
    pub fn name(&self) -> (r: &'static str)
        ensures
            r@ == "EnPassant"@,
    {
        "EnPassant"
    }
}

impl Castle {
    /// The constant tag that enumeration filters go by.
    pub fn name(&self) -> (r: &'static str)
        ensures
            r@ == "Castle"@,
    {
        "Castle"
    }
}

impl Promotion {
    /// The constant tag that enumeration filters go by.
    pub fn name(&self) -> (r: &'static str)
        ensures
            r@ == "Promotion"@,
    {
        "Promotion"
    }
}

/// When an action of any kind is legal.
pub open spec fn action_is_legal_spec(a: Action, s: GameState) -> bool {
    match a {
        Action::Move(m) => move_is_legal_spec(m, s),
        Action::Capture(c) => capture_is_legal_spec(c, s),
        Action::EnPassant(e) => en_passant_is_legal_spec(e, s),
        Action::Castle(c) => castle_is_legal_spec(c, s),
        Action::Promotion(p) => promotion_is_legal_spec(p, s),
    }
}

/// What `Action::apply` needs so that it cannot fail.
pub open spec fn action_can_apply(a: Action, s: GameState) -> bool {
    match a {
        Action::Move(m) => move_can_apply(m, s),
        Action::Capture(c) => capture_can_apply(c, s),
        Action::EnPassant(e) => en_passant_can_apply(e, s),
        Action::Castle(_) => true,
        Action::Promotion(p) => promotion_can_apply(p, s),
    }
}

/// The board an action leaves behind.  For an en-passant capture whose
/// preconditions fail nothing meaningful can be said, so the board is left
/// as it was.
pub open spec fn action_applied_board(a: Action, s: GameState) -> Seq<Option<Piece>> {
    match a {
        Action::Move(m) => board_after_move(s.squares@, m.from as int, m.to as int),
        Action::Capture(c) => board_after_move(s.squares@, c.with as int, c.on as int),
        Action::EnPassant(e) => match (s.squares@[e.with as int], s.en_passant_square) {
            (Some(p), Some(d)) => en_passant_board(s.squares@, e.with as int, d as int, p.color),
            _ => s.squares@,
        },
        Action::Castle(c) => castle_board(s.squares@, s.to_move, c.direction),
        Action::Promotion(p) => promotion_board(
            s.squares@,
            p.moving_from as int,
            p.to as int,
            Piece { color: s.to_move, name: p.pawn_becomes },
        ),
    }
}

/// Everything `Action::apply` promises of the state it returns.
pub open spec fn action_apply_post(a: Action, s: GameState, r: GameState) -> bool {
    match a {
        Action::Move(m) => move_apply_post(m, s, r),
        Action::Capture(c) => capture_apply_post(c, s, r),
        Action::EnPassant(e) => en_passant_apply_post(e, s, r),
        Action::Castle(c) => castle_apply_post(c, s, r),
        Action::Promotion(p) => promotion_apply_post(p, s, r),
    }
}

impl Action {
    /// Whether this action may be played in `state`.
    pub fn is_legal(&self, state: &GameState) -> (r: bool)
        ensures
            r == action_is_legal_spec(*self, *state),
    {
        match self {
            Action::Move(m) => m.is_legal(state),
            Action::Capture(c) => c.is_legal(state),
            Action::EnPassant(e) => e.is_legal(state),
            Action::Castle(c) => c.is_legal(state),
            Action::Promotion(p) => p.is_legal(state),
        }
    }

    /// Perform the action unconditionally; callers gate it behind
    /// `is_legal`.
    pub fn apply(&self, state: &GameState) -> (r: GameState)
        requires
            action_can_apply(*self, *state),
        ensures
            action_apply_post(*self, *state, r),
    {
        match self {
            Action::Move(m) => m.apply(state),
            Action::Capture(c) => c.apply(state),
            Action::EnPassant(e) => e.apply(state),
            Action::Castle(c) => c.apply(state),
            Action::Promotion(p) => p.apply(state),
        }
    }

    /// The constant tag of the action's kind.
    pub fn name(&self) -> (r: &'static str)
        ensures
            r@ == match *self {
                Action::Move(_) => "Move"@,
                Action::Capture(_) => "Capture"@,
                Action::EnPassant(_) => "EnPassant"@,
                Action::Castle(_) => "Castle"@,
                Action::Promotion(_) => "Promotion"@,
            },
    {
        match self {
            Action::Move(m) => m.name(),
            Action::Capture(c) => c.name(),
            Action::EnPassant(e) => e.name(),
            Action::Castle(c) => c.name(),
            Action::Promotion(p) => p.name(),
        }
    }
}

/// Whether qualifiers are needed to disambiguate a rendered action:
/// `file_is_ambiguous` asks for the origin's file letter (another like piece
/// on the same rank could reach the destination), `rank_is_ambiguous` for
/// the origin's rank digit (another like piece on the same file could).
struct Disambiguation {
    rank_is_ambiguous: bool,
    file_is_ambiguous: bool,
}

/// Another piece of the same kind, belonging to the side to move, stands on
/// `sq` and could legally move to the same destination.
pub open spec fn move_disamb_candidate(s: GameState, origin: int, dest: int, sq: int) -> bool {
    &&& 0 <= sq < 64
    &&& sq != origin
    &&& (match (s.squares@[sq], s.squares@[origin]) {
        (Some(candidate), Some(moving)) => candidate.name == moving.name && candidate.color
            == s.to_move,
        _ => false,
    })
    &&& move_is_legal_spec(Move { from: sq as usize, to: dest as usize }, s)
}

/// The rendered move needs the origin's file letter: a like piece on the
/// same rank could make the same move.
pub open spec fn move_needs_file(s: GameState, origin: int, dest: int) -> bool {
    exists|sq: int|
        #[trigger] move_disamb_candidate(s, origin, dest, sq) && rank_of(sq) == rank_of(origin)
}

/// The rendered move needs the origin's rank digit: a like piece on the
/// same file could make the same move.
pub open spec fn move_needs_rank(s: GameState, origin: int, dest: int) -> bool {
    exists|sq: int|
        #[trigger] move_disamb_candidate(s, origin, dest, sq) && file_of(sq) == file_of(origin)
}

/// Another piece of the same kind, belonging to the side to move, stands on
/// `sq` and could legally capture on the same destination.
pub open spec fn capture_disamb_candidate(s: GameState, origin: int, dest: int, sq: int) -> bool {
    &&& 0 <= sq < 64
    &&& sq != origin
    &&& (match (s.squares@[sq], s.squares@[origin]) {
        (Some(candidate), Some(moving)) => candidate.name == moving.name && candidate.color
            == s.to_move,
        _ => false,
    })
    &&& capture_is_legal_spec(Capture { on: dest as usize, with: sq as usize }, s)
}

/// The rendered capture needs the origin's file letter.
pub open spec fn capture_needs_file(s: GameState, origin: int, dest: int) -> bool {
    exists|sq: int|
        #[trigger] capture_disamb_candidate(s, origin, dest, sq) && rank_of(sq) == rank_of(origin)
}

/// The rendered capture needs the origin's rank digit.
pub open spec fn capture_needs_rank(s: GameState, origin: int, dest: int) -> bool {
    exists|sq: int|
        #[trigger] capture_disamb_candidate(s, origin, dest, sq) && file_of(sq) == file_of(origin)
}

/// Scan the whole board for like pieces with a legal move to the same
/// destination and report which qualifiers notation needs.
fn disambiguate_move(origin: usize, destination: usize, state: &GameState) -> (d: Disambiguation)
    requires
        origin < 64,
        destination < 64,
        state.squares@[origin as int] is Some,
    ensures
        d.file_is_ambiguous == move_needs_file(*state, origin as int, destination as int),
        d.rank_is_ambiguous == move_needs_rank(*state, origin as int, destination as int),
{
    let mut rank_is_ambiguous = false;
    let mut file_is_ambiguous = false;
    let piece_name = state.squares[origin].unwrap().name;
    let mut square: usize = 0;
    while square < 64
        invariant
            origin < 64,
            destination < 64,
            square <= 64,
            state.squares@[origin as int] is Some,
            piece_name == state.squares@[origin as int].unwrap().name,
            file_is_ambiguous ==> move_needs_file(*state, origin as int, destination as int),
            !file_is_ambiguous ==> forall|sq: int|
                0 <= sq < square ==> !(#[trigger] move_disamb_candidate(
                    *state,
                    origin as int,
                    destination as int,
                    sq,
                ) && rank_of(sq) == rank_of(origin as int)),
            rank_is_ambiguous ==> move_needs_rank(*state, origin as int, destination as int),
            !rank_is_ambiguous ==> forall|sq: int|
                0 <= sq < square ==> !(#[trigger] move_disamb_candidate(
                    *state,
                    origin as int,
                    destination as int,
                    sq,
                ) && file_of(sq) == file_of(origin as int)),
        decreases 64 - square,
    {
        if square != origin {
            match state.squares[square] {
                Some(piece) => {
                    if piece.name == piece_name && piece.color == state.to_move {
                        let action = Move { from: square, to: destination };
                        if action.is_legal(state) {
                            proof {
                                assert(move_disamb_candidate(
                                    *state,
                                    origin as int,
                                    destination as int,
                                    square as int,
                                ));
                            }
                            if square % 8 == origin % 8 {
                                rank_is_ambiguous = true;
                            }
                            if square / 8 == origin / 8 {
                                file_is_ambiguous = true;
                            }
                        }
                    }
                },
                None => {},
            }
        }
        square = square + 1;
    }
    Disambiguation { rank_is_ambiguous, file_is_ambiguous }
}

/// Scan the whole board for like pieces with a legal capture on the same
/// destination and report which qualifiers notation needs.
fn disambiguate_capture(origin: usize, destination: usize, state: &GameState) -> (d:
    Disambiguation)
    requires
        origin < 64,
        destination < 64,
        state.squares@[origin as int] is Some,
    ensures
        d.file_is_ambiguous == capture_needs_file(*state, origin as int, destination as int),
        d.rank_is_ambiguous == capture_needs_rank(*state, origin as int, destination as int),
{
    let mut rank_is_ambiguous = false;
    let mut file_is_ambiguous = false;
    let piece_name = state.squares[origin].unwrap().name;
    let mut square: usize = 0;
    while square < 64
        invariant
            origin < 64,
            destination < 64,
            square <= 64,
            state.squares@[origin as int] is Some,
            piece_name == state.squares@[origin as int].unwrap().name,
            file_is_ambiguous ==> capture_needs_file(*state, origin as int, destination as int),
            !file_is_ambiguous ==> forall|sq: int|
                0 <= sq < square ==> !(#[trigger] capture_disamb_candidate(
                    *state,
                    origin as int,
                    destination as int,
                    sq,
                ) && rank_of(sq) == rank_of(origin as int)),
            rank_is_ambiguous ==> capture_needs_rank(*state, origin as int, destination as int),
            !rank_is_ambiguous ==> forall|sq: int|
                0 <= sq < square ==> !(#[trigger] capture_disamb_candidate(
                    *state,
                    origin as int,
                    destination as int,
                    sq,
                ) && file_of(sq) == file_of(origin as int)),
        decreases 64 - square,
    {
        if square != origin {
            match state.squares[square] {
                Some(piece) => {
                    if piece.name == piece_name && piece.color == state.to_move {
                        let action = Capture { on: destination, with: square };
                        if action.is_legal(state) {
                            proof {
                                assert(capture_disamb_candidate(
                                    *state,
                                    origin as int,
                                    destination as int,
                                    square as int,
                                ));
                            }
                            if square % 8 == origin % 8 {
                                rank_is_ambiguous = true;
                            }
                            if square / 8 == origin / 8 {
                                file_is_ambiguous = true;
                            }
                        }
                    }
                },
                None => {},
            }
        }
        square = square + 1;
    }
    Disambiguation { rank_is_ambiguous, file_is_ambiguous }
}

/// The algebraic rendering of a legal move: piece letter, any qualifiers,
/// then the destination.  An illegal action renders as the empty string.
pub open spec fn move_notation(m: Move, s: GameState) -> Seq<char> {
    if !move_is_legal_spec(m, s) {
        Seq::<char>::empty()
    } else {
        (match s.squares@[m.from as int] {
            Some(p) => p.spec_letter(),
            None => Seq::<char>::empty(),
        }) + (if move_needs_file(s, m.from as int, m.to as int) {
            seq![file_char(m.from as int)]
        } else {
            Seq::<char>::empty()
        }) + (if move_needs_rank(s, m.from as int, m.to as int) {
            seq![rank_char(m.from as int)]
        } else {
            Seq::<char>::empty()
        }) + square_text(m.to as int)
    }
}

impl Move {
    /// Standard algebraic notation of the move, or `""` if it is illegal.
    pub fn as_algebraic_notation(&self, state: &GameState) -> (r: String)
        ensures
            r@ == move_notation(*self, *state),
    {
        if !self.is_legal(state) {
            let out = String::new();
            proof {
                assert(out@ =~= move_notation(*self, *state));
            }
            return out;
        }
        let piece = state.squares[self.from].unwrap();
        let mut out = piece.to_string();
        let ambiguity = disambiguate_move(self.from, self.to, state);
        if ambiguity.file_is_ambiguous {
            out.append(file_str(self.from));
        }
        if ambiguity.rank_is_ambiguous {
            out.append(rank_str(self.from));
        }
        let destination = square_index_to_algebraic(self.to);
        out.append(destination.as_str());
        proof {
            assert(out@ =~= move_notation(*self, *state));
        }
        out
    }
}

/// The algebraic rendering of a legal capture: piece letter, the origin
/// file for a pawn or when needed, any rank qualifier, an `x`, then the
/// destination.  An illegal action renders as the empty string.
pub open spec fn capture_notation(c: Capture, s: GameState) -> Seq<char> {
    if !capture_is_legal_spec(c, s) {
        Seq::<char>::empty()
    } else {
        (match s.squares@[c.with as int] {
            Some(p) => p.spec_letter(),
            None => Seq::<char>::empty(),
        }) + (if (s.squares@[c.with as int] matches Some(p) && p.name is Pawn)
            || capture_needs_file(s, c.with as int, c.on as int) {
            seq![file_char(c.with as int)]
        } else {
            Seq::<char>::empty()
        }) + (if capture_needs_rank(s, c.with as int, c.on as int) {
            seq![rank_char(c.with as int)]
        } else {
            Seq::<char>::empty()
        }) + seq!['x'] + square_text(c.on as int)
    }
}

impl Capture {
    /// Standard algebraic notation of the capture, or `""` if it is
    /// illegal.
    pub fn as_algebraic_notation(&self, state: &GameState) -> (r: String)
        ensures
            r@ == capture_notation(*self, *state),
    {
        if !self.is_legal(state) {
            let out = String::new();
            proof {
                assert(out@ =~= capture_notation(*self, *state));
            }
            return out;
        }
        let piece = state.squares[self.with].unwrap();
        let mut out = piece.to_string();
        let ambiguity = disambiguate_capture(self.with, self.on, state);
        if matches!(piece.name, PieceName::Pawn) || ambiguity.file_is_ambiguous {
            out.append(file_str(self.with));
        }
        if ambiguity.rank_is_ambiguous {
            out.append(rank_str(self.with));
        }
        out.append("x");
        let destination = square_index_to_algebraic(self.on);
        out.append(destination.as_str());
        proof {
            reveal_strlit("x");
            assert(out@ =~= capture_notation(*self, *state));
        }
        out
    }
}

/// The algebraic rendering of a legal en-passant capture: the origin file,
/// an `x`, then the en-passant square.  An illegal action renders as the
/// empty string.
pub open spec fn en_passant_notation(e: EnPassant, s: GameState) -> Seq<char> {
    if !en_passant_is_legal_spec(e, s) {
        Seq::<char>::empty()
    } else {
        match s.en_passant_square {
            Some(d) => seq![file_char(e.with as int)] + seq!['x'] + square_text(d as int),
            None => Seq::<char>::empty(),
        }
    }
}

impl EnPassant {
    /// Standard algebraic notation of the en-passant capture, or `""` if it
    /// is illegal.
    pub fn as_algebraic_notation(&self, state: &GameState) -> (r: String)
        ensures
            r@ == en_passant_notation(*self, *state),
    {
        if !self.is_legal(state) {
            let out = String::new();
            proof {
                assert(out@ =~= en_passant_notation(*self, *state));
            }
            return out;
        }
        let destination = state.en_passant_square.unwrap();
        let mut out = String::new();
        out.append(file_str(self.with));
        out.append("x");
        let text = square_index_to_algebraic(destination);
        out.append(text.as_str());
        proof {
            reveal_strlit("x");
            assert(out@ =~= en_passant_notation(*self, *state));
        }
        out
    }
}

/// The algebraic rendering of a legal castle: `O-O` kingside, `O-O-O`
/// queenside.  An illegal action renders as the empty string.
pub open spec fn castle_notation(c: Castle, s: GameState) -> Seq<char> {
    if !castle_is_legal_spec(c, s) {
        Seq::<char>::empty()
    } else {
        match c.direction {
            CastleDirection::Kingside => seq!['O', '-', 'O'],
            CastleDirection::Queenside => seq!['O', '-', 'O', '-', 'O'],
        }
    }
}

impl Castle {
    /// Standard algebraic notation of the castle, or `""` if it is illegal.
    pub fn as_algebraic_notation(&self, state: &GameState) -> (r: String)
        ensures
            r@ == castle_notation(*self, *state),
    {
        if !self.is_legal(state) {
            let out = String::new();
            proof {
                assert(out@ =~= castle_notation(*self, *state));
            }
            return out;
        }
        proof {
            reveal_strlit("O-O");
            reveal_strlit("O-O-O");
        }
        let r = match self.direction {
            CastleDirection::Kingside => "O-O".to_owned(),
            CastleDirection::Queenside => "O-O-O".to_owned(),
        };
        proof {
            assert(r@ =~= castle_notation(*self, *state));
        }
        r
    }
}

/// The algebraic rendering of a legal promotion: for a capturing promotion
/// the origin file and an `x`, then the destination, then the new piece's
/// letter.  An illegal action renders as the empty string.
pub open spec fn promotion_notation(p: Promotion, s: GameState) -> Seq<char> {
    if !promotion_is_legal_spec(p, s) {
        Seq::<char>::empty()
    } else {
        (if spec_delta_x(p.moving_from as int, p.to as int) != 0 {
            seq![file_char(p.moving_from as int), 'x']
        } else {
            Seq::<char>::empty()
        }) + square_text(p.to as int) + Piece {
            color: s.to_move,
            name: p.pawn_becomes,
        }.spec_letter()
    }
}

impl Promotion {
    /// Standard algebraic notation of the promotion, or `""` if it is
    /// illegal.
    pub fn as_algebraic_notation(&self, state: &GameState) -> (r: String)
        ensures
            r@ == promotion_notation(*self, *state),
    {
        if !self.is_legal(state) {
            let out = String::new();
            proof {
                assert(out@ =~= promotion_notation(*self, *state));
            }
            return out;
        }
        let new_piece = Piece::new(state.to_move, self.pawn_becomes);
        let mut out = String::new();
        // Only a capturing promotion names its origin file.
        if !movement_is_vertical(self.moving_from, self.to) {
            out.append(file_str(self.moving_from));
            out.append("x");
        }
        let destination = square_index_to_algebraic(self.to);
        out.append(destination.as_str());
        let letter = new_piece.to_string();
        out.append(letter.as_str());
        proof {
            reveal_strlit("x");
            assert(out@ =~= promotion_notation(*self, *state));
        }
        out
    }
}

/// The algebraic rendering of any action.
pub open spec fn action_notation(a: Action, s: GameState) -> Seq<char> {
    match a {
        Action::Move(m) => move_notation(m, s),
        Action::Capture(c) => capture_notation(c, s),
        Action::EnPassant(e) => en_passant_notation(e, s),
        Action::Castle(c) => castle_notation(c, s),
        Action::Promotion(p) => promotion_notation(p, s),
    }
}

impl Action {
    /// Standard algebraic notation of the action, or `""` if it is illegal.
    pub fn as_algebraic_notation(&self, state: &GameState) -> (r: String)
        ensures
            r@ == action_notation(*self, *state),
    {
        match self {
            Action::Move(m) => m.as_algebraic_notation(state),
            Action::Capture(c) => c.as_algebraic_notation(state),
            Action::EnPassant(e) => e.as_algebraic_notation(state),
            Action::Castle(c) => c.as_algebraic_notation(state),
            Action::Promotion(p) => p.as_algebraic_notation(state),
        }
    }
}

/// A legal action always survives its own `apply`: its structural
/// preconditions hold.
pub proof fn lemma_legal_action_can_apply(a: Action, s: GameState)
    requires
        action_is_legal_spec(a, s),
    ensures
        action_can_apply(a, s),
{
}

/// Check-safety closure: applying any legal action never leaves the side
/// that moved in check.
pub proof fn lemma_check_safety_closure(a: Action, s: GameState)
    requires
        action_is_legal_spec(a, s),
    ensures
        !color_checked(action_applied_board(a, s), s.to_move),
{
}

/// Castling rights are one-way: no action ever re-grants a right that a
/// state has already lost.
pub proof fn lemma_castling_rights_are_one_way(a: Action, s: GameState, r: GameState)
    requires
        action_apply_post(a, s, r),
    ensures
        !s.white_can_castle_kingside ==> !r.white_can_castle_kingside,
        !s.white_can_castle_queenside ==> !r.white_can_castle_queenside,
        !s.black_can_castle_kingside ==> !r.black_can_castle_kingside,
        !s.black_can_castle_queenside ==> !r.black_can_castle_queenside,
{
}

/// The action is a two-square pawn advance: the one kind of action that
/// opens an en-passant window.
pub open spec fn is_two_square_pawn_advance(a: Action, s: GameState) -> bool {
    &&& a matches Action::Move(m)
    &&& s.squares@[m.from as int] matches Some(p) && p.name is Pawn
    &&& abs_of(spec_delta_y(m.from as int, m.to as int)) == 2
}

/// En-passant single-ply window: whatever the state before, the state after
/// an action holds an en-passant square exactly when the action itself was a
/// two-square pawn advance; every other action closes the window.
pub proof fn lemma_en_passant_single_ply(a: Action, s: GameState, r: GameState)
    requires
        action_apply_post(a, s, r),
    ensures
        r.en_passant_square is Some <==> is_two_square_pawn_advance(a, s),
{
}

} // verus!
