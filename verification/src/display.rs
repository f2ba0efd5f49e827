//! A human-readable rendering of a position: eight rows from Black's back
//! rank down to White's, one FEN letter or a dot per square.

use vstd::prelude::*;
use vstd::string::*;

use crate::gamestate::GameState;
use crate::notation::{fen_piece_char, fen_piece_str};
use crate::pieces::Piece;

verus! {

/// The grid letter of one square: the piece's FEN letter, or a dot for an
/// empty square.
pub open spec fn grid_char(square: Option<Piece>) -> char {
    match square {
        Some(p) => fen_piece_char(p),
        None => '.',
    }
}

/// One row of the grid from `file` onward: each square's letter followed by
/// a space, closed by a newline.
pub open spec fn row_text(board: Seq<Option<Piece>>, rank: int, file: int) -> Seq<char>
    decreases 8 - file,
{
    if file >= 8 {
        seq!['\n']
    } else {
        seq![grid_char(board[rank * 8 + file]), ' '] + row_text(board, rank, file + 1)
    }
}

/// The grid from rank `rank` down to rank 0.
pub open spec fn grid_text_from(board: Seq<Option<Piece>>, rank: int) -> Seq<char>
    decreases rank + 1,
{
    if rank < 0 {
        Seq::<char>::empty()
    } else {
        row_text(board, rank, 0) + grid_text_from(board, rank - 1)
    }
}

/// The whole board as text, top rank first.
pub open spec fn board_text(board: Seq<Option<Piece>>) -> Seq<char> {
    grid_text_from(board, 7)
}

/// The grid letter of one square, as a one-character string slice.
fn grid_square_str(square: &Option<Piece>) -> (r: &'static str)
    ensures
        r@ == seq![grid_char(*square)],
{
    proof {
        reveal_strlit(".");
    }
    let r = match square {
        Some(piece) => fen_piece_str(piece),
        None => ".",
    };
    proof {
        assert(r@ =~= seq![grid_char(*square)]);
    }
    r
}

/// One row of the grid, as a string.
fn row_string(state: &GameState, rank: usize) -> (r: String)
    requires
        rank < 8,
    ensures
        r@ == row_text(state.squares@, rank as int, 0),
{
    let mut out = String::new();
    let mut file: usize = 0;
    proof {
        assert(out@ =~= Seq::<char>::empty());
    }
    while file < 8
        invariant
            rank < 8,
            file <= 8,
            row_text(state.squares@, rank as int, 0) == out@ + row_text(
                state.squares@,
                rank as int,
                file as int,
            ),
        decreases 8 - file,
    {
        let ghost before = out@;
        out.append(grid_square_str(&state.squares[rank * 8 + file]));
        out.append(" ");
        proof {
            reveal_strlit(" ");
            assert(out@ =~= before + seq![
                grid_char(state.squares@[rank as int * 8 + file as int]),
                ' ',
            ]);
            assert(row_text(state.squares@, rank as int, 0) =~= out@ + row_text(
                state.squares@,
                rank as int,
                file as int + 1,
            ));
        }
        file = file + 1;
    }
    let ghost before = out@;
    out.append("\n");
    proof {
        reveal_strlit("\n");
        assert(out@ =~= before + seq!['\n']);
        assert(out@ =~= row_text(state.squares@, rank as int, 0));
    }
    out
}

impl GameState {
    /// The position as a human-readable grid, Black's back rank first.
    pub fn to_string(&self) -> (r: String)
        ensures
            r@ == board_text(self.squares@),
    {
        let mut out = String::new();
        let mut i: usize = 0;
        proof {
            assert(out@ =~= Seq::<char>::empty());
        }
        while i < 8
            invariant
                i <= 8,
                board_text(self.squares@) == out@ + grid_text_from(self.squares@, 7 - i as int),
            decreases 8 - i,
        {
            let rank = 7 - i;
            let ghost before = out@;
            let row = row_string(self, rank);
            out.append(row.as_str());
            proof {
                assert(out@ =~= before + row_text(self.squares@, rank as int, 0));
                assert(board_text(self.squares@) =~= out@ + grid_text_from(
                    self.squares@,
                    rank as int - 1,
                ));
            }
            i = i + 1;
        }
        out
    }
}

/// The position as a human-readable grid string.
pub fn print(state: &GameState) -> (r: String)
    ensures
        r@ == board_text(state.squares@),
{
    state.to_string()
}

} // verus!
