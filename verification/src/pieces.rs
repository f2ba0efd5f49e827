//! The chess pieces: colors, piece kinds, and the piece value itself.

use vstd::prelude::*;

verus! {

#[derive(Copy, Clone, Debug, PartialEq, Eq, Structural)]
pub enum Color {
    Black,
    White,
}

impl Color {
    /// The other side.
    pub open spec fn spec_opposite(self) -> Color {
        match self {
            Color::White => Color::Black,
            Color::Black => Color::White,
        }
    }

    pub fn opposite(self) -> (r: Color)
        ensures
            r == self.spec_opposite(),
    {
        match self {
            Color::White => Color::Black,
            Color::Black => Color::White,
        }
    }
}

#[derive(Copy, Clone, Debug, PartialEq, Eq, Structural)]
pub enum PieceName {
    Pawn,
    Rook,
    Bishop,
    Knight,
    Queen,
    King,
}

#[derive(Copy, Clone, Debug, PartialEq, Eq, Structural)]
pub struct Piece {
    pub color: Color,
    pub name: PieceName,
}

impl Piece {
    pub fn new(color: Color, name: PieceName) -> (r: Piece)
        ensures
            r == (Piece { color, name }),
    {
        Piece { color, name }
    }

    /// The letter that algebraic notation uses for this piece kind; pawns
    /// have none.
    pub open spec fn spec_letter(self) -> Seq<char> {
        match self.name {
            PieceName::Pawn => Seq::<char>::empty(),
            PieceName::Bishop => seq!['B'],
            PieceName::Knight => seq!['N'],
            PieceName::Rook => seq!['R'],
            PieceName::Queen => seq!['Q'],
            PieceName::King => seq!['K'],
        }
    }

    pub fn to_string(&self) -> (r: String)
        ensures
            r@ == self.spec_letter(),
    {
        proof {
            reveal_strlit("B");
            reveal_strlit("N");
            reveal_strlit("R");
            reveal_strlit("Q");
            reveal_strlit("K");
        }
        let r = match self.name {
            PieceName::Pawn => String::new(),
            PieceName::Bishop => "B".to_owned(),
            PieceName::Knight => "N".to_owned(),
            PieceName::Rook => "R".to_owned(),
            PieceName::Queen => "Q".to_owned(),
            PieceName::King => "K".to_owned(),
        };
        proof {
            assert(r@ =~= self.spec_letter());
        }
        r
    }
}

} // verus!
