//! The board position: 64 optional pieces plus turn, castling-rights and
//! en-passant bookkeeping.  A `GameState` is a plain value; every transition
//! produces a fresh copy and never mutates a shared state.

use vstd::prelude::*;

use crate::pieces::{Color, Piece, PieceName};

verus! {

/// One position of a chess game.  Square indices run 0 = a1 .. 63 = h8, with
/// index = rank * 8 + file (both 0-based).
#[derive(Copy, Clone, Debug)]
pub struct GameState {
    pub squares: [Option<Piece>; 64],
    pub to_move: Color,
    pub black_can_castle_kingside: bool,
    pub white_can_castle_kingside: bool,
    pub black_can_castle_queenside: bool,
    pub white_can_castle_queenside: bool,
    pub en_passant_square: Option<usize>,
}

/// A piece of a color destined for a square; the building block of
/// `GameState::with_placements`.
#[derive(Copy, Clone, Debug)]
pub struct Placement {
    pub color: Color,
    pub piece: PieceName,
    pub square: usize,
}

impl Placement {
    pub fn new(color: Color, piece: PieceName, square: usize) -> (r: Placement)
        ensures
            r == (Placement { color, piece, square }),
    {
        Placement { color, piece, square }
    }
}

/// The piece that the standard starting position puts on each square.
pub open spec fn initial_piece(i: int) -> Option<Piece> {
    if i == 0 || i == 7 {
        Some(Piece { color: Color::White, name: PieceName::Rook })
    } else if i == 1 || i == 6 {
        Some(Piece { color: Color::White, name: PieceName::Knight })
    } else if i == 2 || i == 5 {
        Some(Piece { color: Color::White, name: PieceName::Bishop })
    } else if i == 3 {
        Some(Piece { color: Color::White, name: PieceName::Queen })
    } else if i == 4 {
        Some(Piece { color: Color::White, name: PieceName::King })
    } else if 8 <= i < 16 {
        Some(Piece { color: Color::White, name: PieceName::Pawn })
    } else if 48 <= i < 56 {
        Some(Piece { color: Color::Black, name: PieceName::Pawn })
    } else if i == 56 || i == 63 {
        Some(Piece { color: Color::Black, name: PieceName::Rook })
    } else if i == 57 || i == 62 {
        Some(Piece { color: Color::Black, name: PieceName::Knight })
    } else if i == 58 || i == 61 {
        Some(Piece { color: Color::Black, name: PieceName::Bishop })
    } else if i == 59 {
        Some(Piece { color: Color::Black, name: PieceName::Queen })
    } else if i == 60 {
        Some(Piece { color: Color::Black, name: PieceName::King })
    } else {
        None
    }
}

/// A board with no pieces on it.
pub open spec fn empty_board() -> Seq<Option<Piece>> {
    Seq::new(64, |i: int| None)
}

/// One placement applied to a board: the piece lands only on an empty
/// on-board square; otherwise the board is unchanged.
pub open spec fn place_on(board: Seq<Option<Piece>>, p: Placement) -> Seq<Option<Piece>> {
    if p.square < 64 && board[p.square as int] is None {
        board.update(p.square as int, Some(Piece { color: p.color, name: p.piece }))
    } else {
        board
    }
}

/// All placements applied in order, each later one seeing the effect of the
/// earlier ones.
pub open spec fn place_all(board: Seq<Option<Piece>>, ps: Seq<Placement>) -> Seq<Option<Piece>>
    decreases ps.len(),
{
    if ps.len() == 0 {
        board
    } else {
        place_on(place_all(board, ps.drop_last()), ps.last())
    }
}

impl GameState {
    /// The piece standing on a square, as the contracts speak of it.
    pub open spec fn piece_on(self, square: int) -> Option<Piece> {
        self.squares@[square]
    }

    /// The piece standing on a square.  Callers must pre-validate that the
    /// index is on the board.
    pub fn piece_at(&self, square: usize) -> (r: Option<Piece>)
        requires
            square < 64,
        ensures
            r == self.squares@[square as int],
    {
        self.squares[square]
    }

    /// Whether nothing stands on a square.
    pub fn square_is_empty(&self, square: usize) -> (r: bool)
        requires
            square < 64,
        ensures
            r == (self.squares@[square as int] is None),
    {
        self.squares[square].is_none()
    }

    /// Put a piece on an empty square.  Returns whether the piece was placed;
    /// an off-board square or an occupied square leaves the board unchanged.
    pub fn place_piece(&mut self, piece: Piece, square: usize) -> (r: bool)
        ensures
            r == (square < 64 && old(self).squares@[square as int] is None),
            r ==> final(self).squares@ == old(self).squares@.update(square as int, Some(piece)),
            !r ==> final(self).squares@ == old(self).squares@,
            final(self).to_move == old(self).to_move,
            final(self).black_can_castle_kingside == old(self).black_can_castle_kingside,
            final(self).white_can_castle_kingside == old(self).white_can_castle_kingside,
            final(self).black_can_castle_queenside == old(self).black_can_castle_queenside,
            final(self).white_can_castle_queenside == old(self).white_can_castle_queenside,
            final(self).en_passant_square == old(self).en_passant_square,
    {
        if square > 63 {
            return false;
        }
        if self.squares[square].is_some() {
            return false;
        }
        self.squares[square] = Some(piece);
        true
    }

    /// A board holding exactly the given placements (first come, first
    /// served on a contested square), with White to move, no castling rights
    /// and no en-passant opportunity.
    pub fn with_placements(placements: Vec<Placement>) -> (r: GameState)
        ensures
            r.squares@ == place_all(empty_board(), placements@),
            r.to_move == Color::White,
            !r.black_can_castle_kingside,
            !r.white_can_castle_kingside,
            !r.black_can_castle_queenside,
            !r.white_can_castle_queenside,
            r.en_passant_square is None,
    {
        let mut board = GameState {
            squares: [None; 64],
            to_move: Color::White,
            black_can_castle_kingside: false,
            white_can_castle_kingside: false,
            black_can_castle_queenside: false,
            white_can_castle_queenside: false,
            en_passant_square: None,
        };
        proof {
            assert(board.squares@ =~= empty_board());
            assert(placements@.take(0) =~= Seq::<Placement>::empty());
        }
        let mut i: usize = 0;
        while i < placements.len()
            invariant
                i <= placements.len(),
                board.squares@ == place_all(empty_board(), placements@.take(i as int)),
                board.to_move == Color::White,
                !board.black_can_castle_kingside,
                !board.white_can_castle_kingside,
                !board.black_can_castle_queenside,
                !board.white_can_castle_queenside,
                board.en_passant_square is None,
            decreases placements.len() - i,
        {
            let p = placements[i];
            let piece = Piece::new(p.color, p.piece);
            board.place_piece(piece, p.square);
            proof {
                assert(placements@.take(i + 1).drop_last() =~= placements@.take(i as int));
                assert(placements@.take(i + 1).last() == p);
            }
            i = i + 1;
        }
        proof {
            assert(placements@.take(placements.len() as int) =~= placements@);
        }
        board
    }

    /// The standard starting position: all 32 pieces on their home squares,
    /// White to move, full castling rights, no en-passant opportunity.
    #[verifier::rlimit(50)]
    pub fn new() -> (r: GameState)
        ensures
            forall|i: int| 0 <= i < 64 ==> r.squares@[i] == initial_piece(i),
            r.to_move == Color::White,
            r.black_can_castle_kingside,
            r.white_can_castle_kingside,
            r.black_can_castle_queenside,
            r.white_can_castle_queenside,
            r.en_passant_square is None,
    {
        let mut state = GameState::with_placements(vec![
            Placement::new(Color::White, PieceName::Rook, 0),
            Placement::new(Color::White, PieceName::Knight, 1),
            Placement::new(Color::White, PieceName::Bishop, 2),
            Placement::new(Color::White, PieceName::Queen, 3),
            Placement::new(Color::White, PieceName::King, 4),
            Placement::new(Color::White, PieceName::Bishop, 5),
            Placement::new(Color::White, PieceName::Knight, 6),
            Placement::new(Color::White, PieceName::Rook, 7),
            Placement::new(Color::White, PieceName::Pawn, 8),
            Placement::new(Color::White, PieceName::Pawn, 9),
            Placement::new(Color::White, PieceName::Pawn, 10),
            Placement::new(Color::White, PieceName::Pawn, 11),
            Placement::new(Color::White, PieceName::Pawn, 12),
            Placement::new(Color::White, PieceName::Pawn, 13),
            Placement::new(Color::White, PieceName::Pawn, 14),
            Placement::new(Color::White, PieceName::Pawn, 15),
            Placement::new(Color::Black, PieceName::Pawn, 48),
            Placement::new(Color::Black, PieceName::Pawn, 49),
            Placement::new(Color::Black, PieceName::Pawn, 50),
            Placement::new(Color::Black, PieceName::Pawn, 51),
            Placement::new(Color::Black, PieceName::Pawn, 52),
            Placement::new(Color::Black, PieceName::Pawn, 53),
            Placement::new(Color::Black, PieceName::Pawn, 54),
            Placement::new(Color::Black, PieceName::Pawn, 55),
            Placement::new(Color::Black, PieceName::Rook, 56),
            Placement::new(Color::Black, PieceName::Knight, 57),
            Placement::new(Color::Black, PieceName::Bishop, 58),
            Placement::new(Color::Black, PieceName::Queen, 59),
            Placement::new(Color::Black, PieceName::King, 60),
            Placement::new(Color::Black, PieceName::Bishop, 61),
            Placement::new(Color::Black, PieceName::Knight, 62),
            Placement::new(Color::Black, PieceName::Rook, 63),
        ]);
        state.black_can_castle_kingside = true;
        state.white_can_castle_kingside = true;
        state.black_can_castle_queenside = true;
        state.white_can_castle_queenside = true;
        state.en_passant_square = None;
        proof {
            reveal_with_fuel(place_all, 33);
            assert(forall|i: int| 0 <= i < 64 ==> state.squares@[i] == initial_piece(i));
        }
        state
    }
}

} // verus!
