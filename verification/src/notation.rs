//! Translation between the engine's square indices / states and the
//! conventions of chess notation: algebraic square names and FEN strings.

use vstd::prelude::*;
use vstd::string::*;

use crate::gamestate::GameState;
use crate::pieces::{Color, Piece, PieceName};

verus! {

/// The file letter of a square, `'a'` through `'h'`.
pub open spec fn file_char(sq: int) -> char {
    if sq % 8 == 0 {
        'a'
    } else if sq % 8 == 1 {
        'b'
    } else if sq % 8 == 2 {
        'c'
    } else if sq % 8 == 3 {
        'd'
    } else if sq % 8 == 4 {
        'e'
    } else if sq % 8 == 5 {
        'f'
    } else if sq % 8 == 6 {
        'g'
    } else {
        'h'
    }
}

/// The rank digit of a square, `'1'` through `'8'`.
pub open spec fn rank_char(sq: int) -> char {
    if sq / 8 == 0 {
        '1'
    } else if sq / 8 == 1 {
        '2'
    } else if sq / 8 == 2 {
        '3'
    } else if sq / 8 == 3 {
        '4'
    } else if sq / 8 == 4 {
        '5'
    } else if sq / 8 == 5 {
        '6'
    } else if sq / 8 == 6 {
        '7'
    } else {
        '8'
    }
}

/// The algebraic name of a square: file letter then rank digit.
pub open spec fn square_text(sq: int) -> Seq<char> {
    seq![file_char(sq), rank_char(sq)]
}

/// The file letter of a square, as a one-character string slice.
pub(crate) fn file_str(square: usize) -> (r: &'static str)
    requires
        square < 64,
    ensures
        r@ == seq![file_char(square as int)],
{
    proof {
        reveal_strlit("a");
        reveal_strlit("b");
        reveal_strlit("c");
        reveal_strlit("d");
        reveal_strlit("e");
        reveal_strlit("f");
        reveal_strlit("g");
        reveal_strlit("h");
    }
    let r = match square % 8 {
        0 => "a",
        1 => "b",
        2 => "c",
        3 => "d",
        4 => "e",
        5 => "f",
        6 => "g",
        _ => "h",
    };
    proof {
        assert(r@ =~= seq![file_char(square as int)]);
    }
    r
}

/// The rank digit of a square, as a one-character string slice.
pub(crate) fn rank_str(square: usize) -> (r: &'static str)
    requires
        square < 64,
    ensures
        r@ == seq![rank_char(square as int)],
{
    proof {
        reveal_strlit("1");
        reveal_strlit("2");
        reveal_strlit("3");
        reveal_strlit("4");
        reveal_strlit("5");
        reveal_strlit("6");
        reveal_strlit("7");
        reveal_strlit("8");
    }
    let r = match square / 8 {
        0 => "1",
        1 => "2",
        2 => "3",
        3 => "4",
        4 => "5",
        5 => "6",
        6 => "7",
        _ => "8",
    };
    proof {
        assert(r@ =~= seq![rank_char(square as int)]);
    }
    r
}

/// The algebraic name of a square index, "a1" through "h8".  Callers must
/// pre-validate that the index is on the board.
pub fn square_index_to_algebraic(square: usize) -> (r: String)
    requires
        square < 64,
    ensures
        r@ == square_text(square as int),
{
    let mut out = String::new();
    out.append(file_str(square));
    out.append(rank_str(square));
    proof {
        assert(out@ =~= square_text(square as int));
    }
    out
}

/// The algebraic name of a square index; a shorter synonym of
/// `square_index_to_algebraic`.
pub fn index_as_algebraic(square: usize) -> (r: String)
    requires
        square < 64,
    ensures
        r@ == square_text(square as int),
{
    square_index_to_algebraic(square)
}

/// The file index a letter stands for, if it is one of `'a'`..`'h'`.
pub open spec fn file_index_of(c: char) -> Option<int> {
    if c == 'a' {
        Some(0int)
    } else if c == 'b' {
        Some(1int)
    } else if c == 'c' {
        Some(2int)
    } else if c == 'd' {
        Some(3int)
    } else if c == 'e' {
        Some(4int)
    } else if c == 'f' {
        Some(5int)
    } else if c == 'g' {
        Some(6int)
    } else if c == 'h' {
        Some(7int)
    } else {
        None
    }
}

/// The rank index a digit stands for, if it is one of `'1'`..`'8'`.
pub open spec fn rank_index_of(c: char) -> Option<int> {
    if c == '1' {
        Some(0int)
    } else if c == '2' {
        Some(1int)
    } else if c == '3' {
        Some(2int)
    } else if c == '4' {
        Some(3int)
    } else if c == '5' {
        Some(4int)
    } else if c == '6' {
        Some(5int)
    } else if c == '7' {
        Some(6int)
    } else if c == '8' {
        Some(7int)
    } else {
        None
    }
}

/// What a two-character algebraic square name parses to: the index of the
/// named square, or nothing for any other string.
pub open spec fn parse_square(s: Seq<char>) -> Option<usize> {
    if s.len() == 2 {
        match (file_index_of(s[0]), rank_index_of(s[1])) {
            (Some(f), Some(rk)) => Some((f + 8 * rk) as usize),
            _ => None,
        }
    } else {
        None
    }
}

/// The file index a letter stands for, `'a'`..`'h'`.
fn file_index_for(c: char) -> (r: Option<usize>)
    ensures
        r matches Some(f) ==> file_index_of(c) == Some(f as int) && f < 8,
        r is None ==> file_index_of(c) is None,
{
    match c {
        'a' => Some(0),
        'b' => Some(1),
        'c' => Some(2),
        'd' => Some(3),
        'e' => Some(4),
        'f' => Some(5),
        'g' => Some(6),
        'h' => Some(7),
        _ => None,
    }
}

/// The rank index a digit stands for, `'1'`..`'8'`.
fn rank_index_for(c: char) -> (r: Option<usize>)
    ensures
        r matches Some(rk) ==> rank_index_of(c) == Some(rk as int) && rk < 8,
        r is None ==> rank_index_of(c) is None,
{
    match c {
        '1' => Some(0),
        '2' => Some(1),
        '3' => Some(2),
        '4' => Some(3),
        '5' => Some(4),
        '6' => Some(5),
        '7' => Some(6),
        '8' => Some(7),
        _ => None,
    }
}

/// The index of the square an algebraic name like "e4" denotes; `None` for
/// anything that is not exactly a file letter followed by a rank digit.
pub fn square_algebraic_to_index(s: &str) -> (r: Option<usize>)
    ensures
        r == parse_square(s@),
        r matches Some(i) ==> i < 64,
{
    let len = s.unicode_len();
    if len != 2 {
        return None;
    }
    let file = s.get_char(0);
    let rank = s.get_char(1);
    let f: usize = match file_index_for(file) {
        Some(f) => f,
        None => {
            return None;
        },
    };
    let rk: usize = match rank_index_for(rank) {
        Some(rk) => rk,
        None => {
            return None;
        },
    };
    Some(f + 8 * rk)
}

/// The index of the square an algebraic name denotes; a shorter synonym of
/// `square_algebraic_to_index`.
pub fn algebraic_as_index(s: &str) -> (r: Option<usize>)
    ensures
        r == parse_square(s@),
        r matches Some(i) ==> i < 64,
{
    square_algebraic_to_index(s)
}

/// The FEN letter of a piece: upper case for White, lower case for Black.
pub open spec fn fen_piece_char(p: Piece) -> char {
    match (p.color, p.name) {
        (Color::White, PieceName::Pawn) => 'P',
        (Color::White, PieceName::Bishop) => 'B',
        (Color::White, PieceName::Knight) => 'N',
        (Color::White, PieceName::Rook) => 'R',
        (Color::White, PieceName::Queen) => 'Q',
        (Color::White, PieceName::King) => 'K',
        (Color::Black, PieceName::Pawn) => 'p',
        (Color::Black, PieceName::Bishop) => 'b',
        (Color::Black, PieceName::Knight) => 'n',
        (Color::Black, PieceName::Rook) => 'r',
        (Color::Black, PieceName::Queen) => 'q',
        (Color::Black, PieceName::King) => 'k',
    }
}

/// The FEN letter of a piece, as a one-character string slice.
pub(crate) fn fen_piece_str(p: &Piece) -> (r: &'static str)
    ensures
        r@ == seq![fen_piece_char(*p)],
{
    proof {
        reveal_strlit("P");
        reveal_strlit("B");
        reveal_strlit("N");
        reveal_strlit("R");
        reveal_strlit("Q");
        reveal_strlit("K");
        reveal_strlit("p");
        reveal_strlit("b");
        reveal_strlit("n");
        reveal_strlit("r");
        reveal_strlit("q");
        reveal_strlit("k");
    }
    let r = match (p.color, p.name) {
        (Color::White, PieceName::Pawn) => "P",
        (Color::White, PieceName::Bishop) => "B",
        (Color::White, PieceName::Knight) => "N",
        (Color::White, PieceName::Rook) => "R",
        (Color::White, PieceName::Queen) => "Q",
        (Color::White, PieceName::King) => "K",
        (Color::Black, PieceName::Pawn) => "p",
        (Color::Black, PieceName::Bishop) => "b",
        (Color::Black, PieceName::Knight) => "n",
        (Color::Black, PieceName::Rook) => "r",
        (Color::Black, PieceName::Queen) => "q",
        (Color::Black, PieceName::King) => "k",
    };
    proof {
        assert(r@ =~= seq![fen_piece_char(*p)]);
    }
    r
}

/// The digit for a run of `n` empty squares inside one FEN rank.
pub open spec fn digit_char(n: int) -> char {
    if n == 1 {
        '1'
    } else if n == 2 {
        '2'
    } else if n == 3 {
        '3'
    } else if n == 4 {
        '4'
    } else if n == 5 {
        '5'
    } else if n == 6 {
        '6'
    } else if n == 7 {
        '7'
    } else {
        '8'
    }
}

/// The digit for a run of empty squares, as a one-character string slice.
fn digit_str(n: usize) -> (r: &'static str)
    requires
        1 <= n <= 8,
    ensures
        r@ == seq![digit_char(n as int)],
{
    proof {
        reveal_strlit("1");
        reveal_strlit("2");
        reveal_strlit("3");
        reveal_strlit("4");
        reveal_strlit("5");
        reveal_strlit("6");
        reveal_strlit("7");
        reveal_strlit("8");
    }
    let r = match n {
        1 => "1",
        2 => "2",
        3 => "3",
        4 => "4",
        5 => "5",
        6 => "6",
        7 => "7",
        _ => "8",
    };
    proof {
        assert(r@ =~= seq![digit_char(n as int)]);
    }
    r
}

/// One FEN rank from `file` onward, with `empties` empty squares already
/// pending: empty runs become digits, pieces their letters.
pub open spec fn fen_rank_from(
    board: Seq<Option<Piece>>,
    rank: int,
    file: int,
    empties: int,
) -> Seq<char>
    decreases 8 - file,
{
    if file >= 8 {
        if empties > 0 {
            seq![digit_char(empties)]
        } else {
            Seq::<char>::empty()
        }
    } else {
        match board[rank * 8 + file] {
            None => fen_rank_from(board, rank, file + 1, empties + 1),
            Some(p) => (if empties > 0 {
                seq![digit_char(empties)]
            } else {
                Seq::<char>::empty()
            }) + seq![fen_piece_char(p)] + fen_rank_from(board, rank, file + 1, 0),
        }
    }
}

/// The piece-placement field of FEN from rank `rank` down to rank 0, ranks
/// separated by `'/'`.
pub open spec fn fen_ranks_from(board: Seq<Option<Piece>>, rank: int) -> Seq<char>
    decreases rank,
{
    if rank <= 0 {
        fen_rank_from(board, 0, 0, 0)
    } else {
        fen_rank_from(board, rank, 0, 0) + seq!['/'] + fen_ranks_from(board, rank - 1)
    }
}

/// The castling-rights field of FEN, without the conventional `'-'` when no
/// right is left.
pub open spec fn fen_rights_text(s: GameState) -> Seq<char> {
    (if s.white_can_castle_kingside {
        seq!['K']
    } else {
        Seq::<char>::empty()
    }) + (if s.white_can_castle_queenside {
        seq!['Q']
    } else {
        Seq::<char>::empty()
    }) + (if s.black_can_castle_kingside {
        seq!['k']
    } else {
        Seq::<char>::empty()
    }) + (if s.black_can_castle_queenside {
        seq!['q']
    } else {
        Seq::<char>::empty()
    })
}

/// The en-passant field of FEN: the square's algebraic name, or `'-'`.
pub open spec fn fen_ep_text(s: GameState) -> Seq<char> {
    match s.en_passant_square {
        Some(sq) => square_text(sq as int),
        None => seq!['-'],
    }
}

/// The whole FEN string of a state.  The engine keeps no move clocks, so
/// both clock fields are a meaningless `0`.
pub open spec fn fen_text(s: GameState) -> Seq<char> {
    fen_ranks_from(s.squares@, 7) + seq![' '] + (match s.to_move {
        Color::White => seq!['w'],
        Color::Black => seq!['b'],
    }) + seq![' '] + fen_rights_text(s) + seq![' '] + fen_ep_text(s) + seq![' ', '0', ' ', '0']
}

/// One FEN rank of the board, as a string.
fn fen_rank_string(state: &GameState, rank: usize) -> (r: String)
    requires
        rank < 8,
    ensures
        r@ == fen_rank_from(state.squares@, rank as int, 0, 0),
{
    let mut out = String::new();
    let mut file: usize = 0;
    let mut empties: usize = 0;
    proof {
        assert(out@ =~= Seq::<char>::empty());
    }
    while file < 8
        invariant
            rank < 8,
            file <= 8,
            empties <= file,
            fen_rank_from(state.squares@, rank as int, 0, 0) == out@ + fen_rank_from(
                state.squares@,
                rank as int,
                file as int,
                empties as int,
            ),
        decreases 8 - file,
    {
        match state.squares[rank * 8 + file] {
            None => {
                empties = empties + 1;
            },
            Some(piece) => {
                let ghost before = out@;
                if empties > 0 {
                    out.append(digit_str(empties));
                }
                out.append(fen_piece_str(&piece));
                proof {
                    if empties > 0 {
                        assert(out@ =~= before + seq![digit_char(empties as int)] + seq![
                            fen_piece_char(piece),
                        ]);
                    } else {
                        assert(out@ =~= before + seq![fen_piece_char(piece)]);
                    }
                    assert(fen_rank_from(state.squares@, rank as int, 0, 0) == out@
                        + fen_rank_from(state.squares@, rank as int, file as int + 1, 0)) by {
                        assert(fen_rank_from(
                            state.squares@,
                            rank as int,
                            file as int,
                            empties as int,
                        ) == (if empties > 0 {
                            seq![digit_char(empties as int)]
                        } else {
                            Seq::<char>::empty()
                        }) + seq![fen_piece_char(piece)] + fen_rank_from(
                            state.squares@,
                            rank as int,
                            file as int + 1,
                            0,
                        ));
                        assert(before + (if empties > 0 {
                            seq![digit_char(empties as int)]
                        } else {
                            Seq::<char>::empty()
                        }) + seq![fen_piece_char(piece)] =~= out@);
                        assert(before + ((if empties > 0 {
                            seq![digit_char(empties as int)]
                        } else {
                            Seq::<char>::empty()
                        }) + seq![fen_piece_char(piece)] + fen_rank_from(
                            state.squares@,
                            rank as int,
                            file as int + 1,
                            0,
                        )) =~= out@ + fen_rank_from(state.squares@, rank as int, file as int + 1, 0));
                    }
                }
                empties = 0;
            },
        }
        file = file + 1;
    }
    if empties > 0 {
        let ghost before = out@;
        out.append(digit_str(empties));
        proof {
            assert(out@ =~= before + seq![digit_char(empties as int)]);
        }
    }
    proof {
        assert(fen_rank_from(state.squares@, rank as int, 0, 0) =~= out@);
    }
    out
}

/// The castling-rights field of FEN, as a string.
fn fen_rights_string(state: &GameState) -> (r: String)
    ensures
        r@ == fen_rights_text(*state),
{
    proof {
        reveal_strlit("K");
        reveal_strlit("Q");
        reveal_strlit("k");
        reveal_strlit("q");
    }
    let mut out = String::new();
    if state.white_can_castle_kingside {
        out.append("K");
    }
    if state.white_can_castle_queenside {
        out.append("Q");
    }
    if state.black_can_castle_kingside {
        out.append("k");
    }
    if state.black_can_castle_queenside {
        out.append("q");
    }
    proof {
        assert(out@ =~= fen_rights_text(*state));
    }
    out
}

/// The en-passant field of FEN, as a string.
fn fen_ep_string(state: &GameState) -> (r: String)
    requires
        state.en_passant_square matches Some(e) ==> e < 64,
    ensures
        r@ == fen_ep_text(*state),
{
    proof {
        reveal_strlit("-");
    }
    let mut out = String::new();
    match state.en_passant_square {
        None => out.append("-"),
        Some(square) => {
            let text = square_index_to_algebraic(square);
            out.append(text.as_str());
        },
    }
    proof {
        assert(out@ =~= fen_ep_text(*state));
    }
    out
}

/// The piece-placement field of FEN, as a string.
fn fen_board_string(state: &GameState) -> (r: String)
    ensures
        r@ == fen_ranks_from(state.squares@, 7),
{
    let mut output = String::new();
    let mut i: usize = 0;
    proof {
        assert(output@ =~= Seq::<char>::empty());
    }
    while i < 8
        invariant
            i <= 8,
            i < 8 ==> fen_ranks_from(state.squares@, 7) == output@ + fen_ranks_from(
                state.squares@,
                7 - i as int,
            ),
            i == 8 ==> output@ == fen_ranks_from(state.squares@, 7),
        decreases 8 - i,
    {
        let rank = 7 - i;
        let ghost before = output@;
        let rank_string = fen_rank_string(state, rank);
        output.append(rank_string.as_str());
        if rank > 0 {
            output.append("/");
        }
        proof {
            reveal_strlit("/");
            if rank > 0 {
                assert(output@ =~= before + fen_rank_from(state.squares@, rank as int, 0, 0)
                    + seq!['/']);
                assert(fen_ranks_from(state.squares@, rank as int) == fen_rank_from(
                    state.squares@,
                    rank as int,
                    0,
                    0,
                ) + seq!['/'] + fen_ranks_from(state.squares@, rank as int - 1));
                assert(fen_ranks_from(state.squares@, 7) =~= output@ + fen_ranks_from(
                    state.squares@,
                    rank as int - 1,
                ));
            } else {
                assert(output@ =~= before + fen_rank_from(state.squares@, 0, 0, 0));
                assert(fen_ranks_from(state.squares@, 0) == fen_rank_from(state.squares@, 0, 0, 0));
                assert(output@ =~= fen_ranks_from(state.squares@, 7));
            }
        }
        i = i + 1;
    }
    output
}

/// The FEN string of a state: piece placement, active color, castling
/// rights, en-passant square, and two zeroed clock fields.
#[verifier::rlimit(30)]
pub fn fen_notation(state: &GameState) -> (r: String)
    requires
        state.en_passant_square matches Some(e) ==> e < 64,
    ensures
        r@ == fen_text(*state),
{
    proof {
        reveal_strlit(" ");
        reveal_strlit("w");
        reveal_strlit("b");
    }
    let mut output = fen_board_string(state);
    let ghost board_part = output@;
    output.append(" ");
    match state.to_move {
        Color::White => output.append("w"),
        Color::Black => output.append("b"),
    }
    proof {
        assert(output@ =~= board_part + seq![' '] + (match state.to_move {
            Color::White => seq!['w'],
            Color::Black => seq!['b'],
        }));
    }
    let ghost color_part = output@;
    output.append(" ");
    let rights = fen_rights_string(state);
    output.append(rights.as_str());
    proof {
        assert(output@ =~= color_part + seq![' '] + fen_rights_text(*state));
    }
    let ghost rights_part = output@;
    output.append(" ");
    let ep = fen_ep_string(state);
    output.append(ep.as_str());
    proof {
        assert(output@ =~= rights_part + seq![' '] + fen_ep_text(*state));
    }
    let ghost ep_part = output@;
    output.append(" 0 0");
    proof {
        reveal_strlit(" 0 0");
        assert(output@ =~= ep_part + seq![' ', '0', ' ', '0']);
        assert(output@ =~= fen_text(*state));
    }
    output
}

} // verus!
