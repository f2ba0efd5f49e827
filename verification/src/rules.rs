//! Square geometry, path obstruction, the per-piece pseudo-legality rules,
//! and threat / check detection.  "Pseudo-legal" means the move obeys the
//! piece's geometry and path-obstruction rules while ignoring whether it
//! leaves the mover's own king in check.

use vstd::prelude::*;

use crate::gamestate::GameState;
use crate::pieces::{Color, Piece, PieceName};

verus! {

pub open spec fn on_board(sq: int) -> bool {
    0 <= sq < 64
}

pub open spec fn file_of(sq: int) -> int {
    sq % 8
}

pub open spec fn rank_of(sq: int) -> int {
    sq / 8
}

/// File displacement from `from` to `to`.
pub open spec fn spec_delta_x(from: int, to: int) -> int {
    file_of(to) - file_of(from)
}

/// Rank displacement from `from` to `to`.
pub open spec fn spec_delta_y(from: int, to: int) -> int {
    rank_of(to) - rank_of(from)
}

pub open spec fn abs_of(d: int) -> int {
    if d < 0 {
        -d
    } else {
        d
    }
}

/// The file and rank displacement between two squares.  Callers must
/// pre-validate that both indices are on the board.
pub fn position_delta(from: usize, to: usize) -> (r: (i32, i32))
    requires
        from < 64,
        to < 64,
    ensures
        r.0 == spec_delta_x(from as int, to as int),
        r.1 == spec_delta_y(from as int, to as int),
{
    let x = (to as i32 % 8) - (from as i32 % 8);
    let y = (to as i32 / 8) - (from as i32 / 8);
    (x, y)
}

/// Whether the two squares lie on one file (no file displacement).
pub fn movement_is_vertical(origin: usize, destination: usize) -> (r: bool)
    requires
        origin < 64,
        destination < 64,
    ensures
        r == (spec_delta_x(origin as int, destination as int) == 0),
{
    let diff = if origin > destination {
        origin - destination
    } else {
        destination - origin
    };
    diff % 8 == 0
}

/// The `x`-th square of the rank scan walking from `from` toward the sign of
/// `dx`.
pub open spec fn rank_scan_square(from: int, dx: int, x: int) -> int {
    if dx > 0 {
        from + x
    } else {
        from - x
    }
}

/// The `y`-th square of the file scan walking from `from` toward the sign of
/// `dy`.
pub open spec fn file_scan_square(from: int, dy: int, y: int) -> int {
    if dy > 0 {
        from + 8 * y
    } else {
        from - 8 * y
    }
}

/// A piece stands strictly between `from` and `from + dx` on the rank scan.
pub open spec fn horizontal_obstructed(board: Seq<Option<Piece>>, from: int, dx: int) -> bool {
    exists|x: int| 1 <= x < abs_of(dx) && #[trigger] board[rank_scan_square(from, dx, x)] is Some
}

/// A piece stands strictly between `from` and `from + 8 * dy` on the file
/// scan.
pub open spec fn vertical_obstructed(board: Seq<Option<Piece>>, from: int, dy: int) -> bool {
    exists|y: int| 1 <= y < abs_of(dy) && #[trigger] board[file_scan_square(from, dy, y)] is Some
}

/// The index step between neighbouring squares of the diagonal through
/// `from` and `to`: two diagonal squares differ by a multiple of 9 (up-right)
/// or of 7 (up-left).
pub open spec fn diagonal_step(from: int, to: int) -> int {
    if (abs_of(to - from)) % 9 == 0 {
        9
    } else {
        7
    }
}

/// The lower of the two squares.
pub open spec fn diag_lo(from: int, to: int) -> int {
    if from < to {
        from
    } else {
        to
    }
}

/// The higher of the two squares.
pub open spec fn diag_hi(from: int, to: int) -> int {
    if from < to {
        to
    } else {
        from
    }
}

/// The `m`-th square of the diagonal scan between `from` and `to`, walking
/// up from the lower end.
pub open spec fn diag_square(from: int, to: int, m: int) -> int {
    diag_lo(from, to) + m * diagonal_step(from, to)
}

/// A piece stands strictly between `from` and `to` on their diagonal.
pub open spec fn diagonal_obstructed(board: Seq<Option<Piece>>, from: int, to: int) -> bool {
    exists|m: int|
        1 <= m && diag_square(from, to, m) < diag_hi(from, to) && #[trigger] board[diag_square(
            from,
            to,
            m,
        )] is Some
}

fn horizontal_path_is_obstructed(from: usize, delta_x: i32, state: &GameState) -> (r: bool)
    requires
        from < 64,
        0 <= file_of(from as int) + delta_x <= 7,
    ensures
        r == horizontal_obstructed(state.squares@, from as int, delta_x as int),
{
    let steps: i32 = if delta_x < 0 {
        -delta_x
    } else {
        delta_x
    };
    let mut x: i32 = 1;
    while x < steps
        invariant
            from < 64,
            1 <= x,
            steps == abs_of(delta_x as int),
            0 <= file_of(from as int) + delta_x <= 7,
            forall|k: int|
                1 <= k < x ==> #[trigger] state.squares@[rank_scan_square(
                    from as int,
                    delta_x as int,
                    k,
                )] is None,
        decreases steps - x,
    {
        let index = if delta_x > 0 {
            from + x as usize
        } else {
            from - x as usize
        };
        if state.squares[index].is_some() {
            proof {
                assert(state.squares@[rank_scan_square(from as int, delta_x as int, x as int)]
                    is Some);
            }
            return true;
        }
        x = x + 1;
    }
    false
}

fn vertical_path_is_obstructed(from: usize, delta_y: i32, state: &GameState) -> (r: bool)
    requires
        from < 64,
        0 <= rank_of(from as int) + delta_y <= 7,
    ensures
        r == vertical_obstructed(state.squares@, from as int, delta_y as int),
{
    let steps: i32 = if delta_y < 0 {
        -delta_y
    } else {
        delta_y
    };
    let mut y: i32 = 1;
    while y < steps
        invariant
            from < 64,
            1 <= y,
            steps == abs_of(delta_y as int),
            0 <= rank_of(from as int) + delta_y <= 7,
            forall|k: int|
                1 <= k < y ==> #[trigger] state.squares@[file_scan_square(
                    from as int,
                    delta_y as int,
                    k,
                )] is None,
        decreases steps - y,
    {
        let index = if delta_y > 0 {
            from + y as usize * 8
        } else {
            from - y as usize * 8
        };
        if state.squares[index].is_some() {
            proof {
                assert(state.squares@[file_scan_square(from as int, delta_y as int, y as int)]
                    is Some);
            }
            return true;
        }
        y = y + 1;
    }
    false
}

#[verifier::rlimit(50)]
fn diagonal_path_is_obstructed(from: usize, to: usize, state: &GameState) -> (r: bool)
    requires
        from < 64,
        to < 64,
    ensures
        r == diagonal_obstructed(state.squares@, from as int, to as int),
{
    let low = if from < to {
        from
    } else {
        to
    };
    let hi = if from < to {
        to
    } else {
        from
    };
    let n: usize = if (hi - low) % 9 == 0 {
        9
    } else {
        7
    };
    let mut i = low + n;
    let ghost mut k: int = 1;
    while i < hi
        invariant
            low < 64,
            hi < 64,
            n == diagonal_step(from as int, to as int),
            (n == 7 || n == 9),
            low as int == diag_lo(from as int, to as int),
            hi as int == diag_hi(from as int, to as int),
            1 <= k,
            i as int == diag_square(from as int, to as int, k),
            forall|m: int|
                1 <= m < k ==> state.squares@[#[trigger] diag_square(from as int, to as int, m)]
                    is None,
        decreases hi + n - i,
    {
        if state.squares[i].is_some() {
            proof {
                assert(state.squares@[diag_square(from as int, to as int, k)] is Some);
            }
            return true;
        }
        proof {
            assert(state.squares@[diag_square(from as int, to as int, k)] is None);
            assert((k + 1) * (n as int) == k * (n as int) + n) by (nonlinear_arith);
            k = k + 1;
        }
        i = i + n;
    }
    proof {
        assert forall|m: int|
            1 <= m && diag_square(from as int, to as int, m) < diag_hi(from as int, to as int)
            implies state.squares@[#[trigger] diag_square(from as int, to as int, m)] is None by {
            assert(m * (n as int) < k * (n as int));
            assert(m < k) by (nonlinear_arith)
                requires
                    m * (n as int) < k * (n as int),
                    n > 0,
            ;
        }
    }
    false
}

/// What a pawn may capture onto: an enemy piece, or the en-passant square.
pub open spec fn pawn_capture_target(
    board: Seq<Option<Piece>>,
    ep: Option<usize>,
    color: Color,
    dest: int,
) -> bool {
    match board[dest] {
        Some(other) => other.color != color,
        None => ep matches Some(e) && e as int == dest,
    }
}

/// Pawn geometry: one forward, two forward from the home rank, or one
/// forward-diagonal onto an enemy piece or the en-passant square.
pub open spec fn pawn_move_ok(
    board: Seq<Option<Piece>>,
    ep: Option<usize>,
    origin: int,
    dest: int,
) -> bool {
    match board[origin] {
        Some(p) => {
            let dx = spec_delta_x(origin, dest);
            let dy = spec_delta_y(origin, dest);
            match p.color {
                Color::White => {
                    ||| (dx == 0 && dy == 1)
                    ||| (dx == 0 && dy == 2 && 8 <= origin < 16)
                    ||| ((dx == 1 || dx == -1) && dy == 1 && pawn_capture_target(
                        board,
                        ep,
                        p.color,
                        dest,
                    ))
                },
                Color::Black => {
                    ||| (dx == 0 && dy == -1)
                    ||| (dx == 0 && dy == -2 && 48 <= origin < 56)
                    ||| ((dx == 1 || dx == -1) && dy == -1 && pawn_capture_target(
                        board,
                        ep,
                        p.color,
                        dest,
                    ))
                },
            }
        },
        None => false,
    }
}

/// Rook geometry: a straight line along one file or one rank, with nothing
/// in between.
pub open spec fn rook_move_ok(board: Seq<Option<Piece>>, origin: int, dest: int) -> bool {
    let dx = spec_delta_x(origin, dest);
    let dy = spec_delta_y(origin, dest);
    ||| (dx == 0 && !vertical_obstructed(board, origin, dy))
    ||| (dy == 0 && !horizontal_obstructed(board, origin, dx))
}

/// Bishop geometry: a diagonal with nothing in between.
pub open spec fn bishop_move_ok(board: Seq<Option<Piece>>, origin: int, dest: int) -> bool {
    let dx = spec_delta_x(origin, dest);
    let dy = spec_delta_y(origin, dest);
    abs_of(dx) == abs_of(dy) && !diagonal_obstructed(board, origin, dest)
}

/// Knight geometry: an L of one and two squares; knights are never
/// obstructed.
pub open spec fn knight_move_ok(origin: int, dest: int) -> bool {
    let dx = abs_of(spec_delta_x(origin, dest));
    let dy = abs_of(spec_delta_y(origin, dest));
    (dx == 1 && dy == 2) || (dx == 2 && dy == 1)
}

/// Queen geometry: the union of the rook and bishop rules.
pub open spec fn queen_move_ok(board: Seq<Option<Piece>>, origin: int, dest: int) -> bool {
    let dx = spec_delta_x(origin, dest);
    let dy = spec_delta_y(origin, dest);
    ||| (dx == 0 && !vertical_obstructed(board, origin, dy))
    ||| (dy == 0 && !horizontal_obstructed(board, origin, dx))
    ||| (abs_of(dx) == abs_of(dy) && !diagonal_obstructed(board, origin, dest))
}

/// King geometry: one step in any direction; a single step has no path to
/// obstruct.
pub open spec fn king_move_ok(origin: int, dest: int) -> bool {
    let dx = spec_delta_x(origin, dest);
    let dy = spec_delta_y(origin, dest);
    abs_of(dx) <= 1 && abs_of(dy) <= 1 && !(dx == 0 && dy == 0)
}

/// The piece on `origin` may move to `dest` by its own geometry and
/// obstruction rules, ignoring check.
pub open spec fn pseudo_legal(
    board: Seq<Option<Piece>>,
    ep: Option<usize>,
    origin: int,
    dest: int,
) -> bool {
    match board[origin] {
        Some(p) => match p.name {
            PieceName::Pawn => pawn_move_ok(board, ep, origin, dest),
            PieceName::Rook => rook_move_ok(board, origin, dest),
            PieceName::Bishop => bishop_move_ok(board, origin, dest),
            PieceName::Knight => knight_move_ok(origin, dest),
            PieceName::Queen => queen_move_ok(board, origin, dest),
            PieceName::King => king_move_ok(origin, dest),
        },
        None => false,
    }
}

fn pawn_move_is_legal(origin: usize, destination: usize, state: &GameState) -> (r: bool)
    requires
        origin < 64,
        destination < 64,
        state.squares@[origin as int] is Some,
    ensures
        r == pawn_move_ok(state.squares@, state.en_passant_square, origin as int,
            destination as int),
{
    let piece = state.squares[origin].unwrap();
    let (delta_x, delta_y) = position_delta(origin, destination);

    let to_is_enemy_piece = match state.squares[destination] {
        Some(other_piece) => other_piece.color != piece.color,
        None => match state.en_passant_square {
            Some(e) => e == destination,
            None => false,
        },
    };

    match piece.color {
        Color::White => {
            if delta_x == 0 && delta_y == 1 {
                true
            } else if delta_x == 0 && delta_y == 2 {
                origin > 7 && origin < 16
            } else if (delta_x == 1 || delta_x == -1) && delta_y == 1 {
                to_is_enemy_piece
            } else {
                false
            }
        },
        Color::Black => {
            if delta_x == 0 && delta_y == -1 {
                true
            } else if delta_x == 0 && delta_y == -2 {
                origin > 47 && origin < 56
            } else if (delta_x == 1 || delta_x == -1) && delta_y == -1 {
                to_is_enemy_piece
            } else {
                false
            }
        },
    }
}

fn rook_move_is_legal(origin: usize, destination: usize, state: &GameState) -> (r: bool)
    requires
        origin < 64,
        destination < 64,
    ensures
        r == rook_move_ok(state.squares@, origin as int, destination as int),
{
    let (delta_x, delta_y) = position_delta(origin, destination);
    if delta_x == 0 {
        !vertical_path_is_obstructed(origin, delta_y, state)
    } else if delta_y == 0 {
        !horizontal_path_is_obstructed(origin, delta_x, state)
    } else {
        false
    }
}

fn bishop_move_is_legal(origin: usize, destination: usize, state: &GameState) -> (r: bool)
    requires
        origin < 64,
        destination < 64,
    ensures
        r == bishop_move_ok(state.squares@, origin as int, destination as int),
{
    let (delta_x, delta_y) = position_delta(origin, destination);
    let abs_x = if delta_x < 0 {
        -delta_x
    } else {
        delta_x
    };
    let abs_y = if delta_y < 0 {
        -delta_y
    } else {
        delta_y
    };
    if abs_x != abs_y {
        return false;
    }
    !diagonal_path_is_obstructed(origin, destination, state)
}

fn knight_move_is_legal(origin: usize, destination: usize, _state: &GameState) -> (r: bool)
    requires
        origin < 64,
        destination < 64,
    ensures
        r == knight_move_ok(origin as int, destination as int),
{
    let (delta_x, delta_y) = position_delta(origin, destination);
    let abs_x = if delta_x < 0 {
        -delta_x
    } else {
        delta_x
    };
    let abs_y = if delta_y < 0 {
        -delta_y
    } else {
        delta_y
    };
    (abs_x == 1 && abs_y == 2) || (abs_x == 2 && abs_y == 1)
}

fn queen_move_is_legal(origin: usize, destination: usize, state: &GameState) -> (r: bool)
    requires
        origin < 64,
        destination < 64,
    ensures
        r == queen_move_ok(state.squares@, origin as int, destination as int),
{
    let (delta_x, delta_y) = position_delta(origin, destination);
    if delta_x == 0 {
        !vertical_path_is_obstructed(origin, delta_y, state)
    } else if delta_y == 0 {
        !horizontal_path_is_obstructed(origin, delta_x, state)
    } else {
        let abs_x = if delta_x < 0 {
            -delta_x
        } else {
            delta_x
        };
        let abs_y = if delta_y < 0 {
            -delta_y
        } else {
            delta_y
        };
        abs_x == abs_y && !diagonal_path_is_obstructed(origin, destination, state)
    }
}

fn king_move_is_legal(origin: usize, destination: usize, _state: &GameState) -> (r: bool)
    requires
        origin < 64,
        destination < 64,
    ensures
        r == king_move_ok(origin as int, destination as int),
{
    let (delta_x, delta_y) = position_delta(origin, destination);
    let abs_x = if delta_x < 0 {
        -delta_x
    } else {
        delta_x
    };
    let abs_y = if delta_y < 0 {
        -delta_y
    } else {
        delta_y
    };
    abs_x <= 1 && abs_y <= 1 && !(delta_x == 0 && delta_y == 0)
}

/// Whether the piece on `origin` can move to `destination` by its own
/// movement geometry and obstruction rules, regardless of threats.
pub fn move_is_pseudo_legal(origin: usize, destination: usize, state: &GameState) -> (r: bool)
    requires
        origin < 64,
        destination < 64,
    ensures
        r == pseudo_legal(state.squares@, state.en_passant_square, origin as int,
            destination as int),
{
    if state.squares[origin].is_none() {
        return false;
    }
    let piece = state.squares[origin].unwrap();
    match piece.name {
        PieceName::Pawn => pawn_move_is_legal(origin, destination, state),
        PieceName::Rook => rook_move_is_legal(origin, destination, state),
        PieceName::Bishop => bishop_move_is_legal(origin, destination, state),
        PieceName::Knight => knight_move_is_legal(origin, destination, state),
        PieceName::Queen => queen_move_is_legal(origin, destination, state),
        PieceName::King => king_move_is_legal(origin, destination, state),
    }
}

/// A square of `color` and `name` stands on `square`.
pub fn piece_is(color: Color, name: PieceName, square: usize, state: &GameState) -> (r: bool)
    requires
        square < 64,
    ensures
        r == (state.squares@[square as int] matches Some(p) && p.color == color && p.name == name),
{
    match state.squares[square] {
        Some(piece) => piece.color == color && piece.name == name,
        None => false,
    }
}

/// A pawn of `color` standing on `from` attacks `to`: one forward-diagonal
/// step in the pawn's own direction, regardless of what stands there.
pub open spec fn pawn_threat_delta(color: Color, from: int, to: int) -> bool {
    let dx = spec_delta_x(from, to);
    let dy = spec_delta_y(from, to);
    (dx == 1 || dx == -1) && dy == (match color {
        Color::White => 1,
        Color::Black => -1,
    })
}

/// The piece of `color` on `sq` attacks `target`: pawns by their capture
/// deltas alone (forward pushes never threaten), every other piece by its
/// pseudo-legal geometry.
pub open spec fn threat_from(
    board: Seq<Option<Piece>>,
    color: Color,
    sq: int,
    target: int,
) -> bool {
    match board[sq] {
        Some(p) => p.color == color && (match p.name {
            PieceName::Pawn => pawn_threat_delta(color, sq, target),
            PieceName::Rook => rook_move_ok(board, sq, target),
            PieceName::Bishop => bishop_move_ok(board, sq, target),
            PieceName::Knight => knight_move_ok(sq, target),
            PieceName::Queen => queen_move_ok(board, sq, target),
            PieceName::King => king_move_ok(sq, target),
        }),
        None => false,
    }
}

/// Some piece of `color` attacks `target`.
pub open spec fn color_threatens(board: Seq<Option<Piece>>, color: Color, target: int) -> bool {
    exists|sq: int| 0 <= sq < 64 && #[trigger] threat_from(board, color, sq, target)
}

/// Whether a pawn of `color` standing on `from` attacks `to`.
pub fn pawn_threatens(color: Color, from: usize, to: usize) -> (r: bool)
    requires
        from < 64,
        to < 64,
    ensures
        r == pawn_threat_delta(color, from as int, to as int),
{
    let (delta_x, delta_y) = position_delta(from, to);
    let forward: i32 = match color {
        Color::White => 1,
        Color::Black => -1,
    };
    (delta_x == 1 || delta_x == -1) && delta_y == forward
}

/// Whether any piece of `color` has an attacking path to `target_square`.
pub fn color_threatens_square(color: Color, target_square: usize, state: &GameState) -> (r: bool)
    requires
        target_square < 64,
    ensures
        r == color_threatens(state.squares@, color, target_square as int),
{
    let mut square: usize = 0;
    while square < 64
        invariant
            target_square < 64,
            square <= 64,
            forall|k: int|
                0 <= k < square ==> !threat_from(state.squares@, color, k, target_square as int),
        decreases 64 - square,
    {
        match state.squares[square] {
            Some(piece) => {
                if piece.color == color {
                    if matches!(piece.name, PieceName::Pawn) {
                        if pawn_threatens(piece.color, square, target_square) {
                            proof {
                                assert(threat_from(state.squares@, color, square as int,
                                    target_square as int));
                            }
                            return true;
                        }
                    } else {
                        if move_is_pseudo_legal(square, target_square, state) {
                            proof {
                                assert(threat_from(state.squares@, color, square as int,
                                    target_square as int));
                            }
                            return true;
                        }
                    }
                }
            },
            None => {},
        }
        square = square + 1;
    }
    false
}

/// The lowest-indexed square from `i` upward holding the king of `color`.
pub open spec fn first_king_from(board: Seq<Option<Piece>>, color: Color, i: int) -> Option<int>
    decreases 64 - i when 0 <= i <= 64
{
    if !(0 <= i < 64) {
        None
    } else if board[i] matches Some(p) && p.color == color && p.name is King {
        Some(i)
    } else {
        first_king_from(board, color, i + 1)
    }
}

/// The square of the king of `color`, if any: the lowest-indexed one.
pub open spec fn king_square_of(board: Seq<Option<Piece>>, color: Color) -> Option<int> {
    first_king_from(board, color, 0)
}

/// The king of `color` stands on a square that the other color attacks.  A
/// board without that king is never in check.
pub open spec fn color_checked(board: Seq<Option<Piece>>, color: Color) -> bool {
    match king_square_of(board, color) {
        Some(k) => color_threatens(board, color.spec_opposite(), k),
        None => false,
    }
}

/// The square of the king of `color`, scanning from a1 upward.
pub fn king_square(color: Color, state: &GameState) -> (r: Option<usize>)
    ensures
        match r {
            Some(k) => k < 64 && king_square_of(state.squares@, color) == Some(k as int),
            None => king_square_of(state.squares@, color) is None,
        },
{
    let mut square: usize = 0;
    while square < 64
        invariant
            square <= 64,
            first_king_from(state.squares@, color, 0) == first_king_from(
                state.squares@,
                color,
                square as int,
            ),
        decreases 64 - square,
    {
        match state.squares[square] {
            Some(piece) => {
                if piece.color == color && matches!(piece.name, PieceName::King) {
                    return Some(square);
                }
            },
            None => {},
        }
        square = square + 1;
    }
    None
}

/// Pseudo-legality is idempotent: it is a mathematical function of the
/// board, the en-passant state and the two squares, so two queries on equal
/// inputs always agree — which is also what `move_is_pseudo_legal`'s
/// contract pins its result to.
pub proof fn lemma_pseudo_legal_deterministic(
    board1: Seq<Option<Piece>>,
    ep1: Option<usize>,
    board2: Seq<Option<Piece>>,
    ep2: Option<usize>,
    origin: int,
    dest: int,
)
    requires
        board1 == board2,
        ep1 == ep2,
    ensures
        pseudo_legal(board1, ep1, origin, dest) == pseudo_legal(board2, ep2, origin, dest),
{
}

/// Whether the king of `color` is in check.
pub fn color_is_checked(color: Color, state: &GameState) -> (r: bool)
    ensures
        r == color_checked(state.squares@, color),
{
    let king = king_square(color, state);
    match king {
        Some(k) => {
            let attacker = color.opposite();
            color_threatens_square(attacker, k, state)
        },
        None => false,
    }
}

} // verus!
