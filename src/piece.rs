use vstd::prelude::*;

use crate::color::Color;

verus! {

/// What stands on a square: nothing, or one piece of one side.
#[derive(Copy, Clone, Debug, PartialEq, Eq, Structural)]
pub enum Piece {
    Empty,
    BlackPawn,
    BlackRook,
    BlackKnight,
    BlackBishop,
    BlackQueen,
    BlackKing,
    WhitePawn,
    WhiteRook,
    WhiteKnight,
    WhiteBishop,
    WhiteQueen,
    WhiteKing,
}

impl Piece {
    /// The side a piece belongs to; `None` for an empty square.
    pub open spec fn color(self) -> Option<Color> {
        match self {
            Piece::Empty => None,
            Piece::BlackPawn | Piece::BlackRook | Piece::BlackKnight | Piece::BlackBishop
            | Piece::BlackQueen | Piece::BlackKing => Some(Color::Black),
            _ => Some(Color::White),
        }
    }

    /// A piece of side `c`.
    pub open spec fn owned_by(self, c: Color) -> bool {
        self.color() == Some(c)
    }

    pub open spec fn pawn(self) -> bool {
        self == Piece::WhitePawn || self == Piece::BlackPawn
    }

    pub open spec fn rook(self) -> bool {
        self == Piece::WhiteRook || self == Piece::BlackRook
    }

    pub open spec fn knight(self) -> bool {
        self == Piece::WhiteKnight || self == Piece::BlackKnight
    }

    pub open spec fn bishop(self) -> bool {
        self == Piece::WhiteBishop || self == Piece::BlackBishop
    }

    pub open spec fn queen(self) -> bool {
        self == Piece::WhiteQueen || self == Piece::BlackQueen
    }

    pub open spec fn king(self) -> bool {
        self == Piece::WhiteKing || self == Piece::BlackKing
    }

    /// The king of side `c`.
    pub open spec fn king_of(c: Color) -> Piece {
        match c {
            Color::White => Piece::WhiteKing,
            Color::Black => Piece::BlackKing,
        }
    }

    /// A black piece; an empty square is of neither side.
    pub fn is_black(&self) -> (r: bool)
        ensures
            r == self.owned_by(Color::Black),
    {
        match self {
            Piece::BlackPawn | Piece::BlackRook | Piece::BlackKnight | Piece::BlackBishop
            | Piece::BlackQueen | Piece::BlackKing => true,
            _ => false,
        }
    }

    /// A white piece; an empty square is of neither side.
    pub fn is_white(&self) -> (r: bool)
        ensures
            r == self.owned_by(Color::White),
    {
        match self {
            Piece::WhitePawn | Piece::WhiteRook | Piece::WhiteKnight | Piece::WhiteBishop
            | Piece::WhiteQueen | Piece::WhiteKing => true,
            _ => false,
        }
    }

    /// The side of the piece; `None` for an empty square.
    pub fn get_color(&self) -> (r: Option<Color>)
        ensures
            r == self.color(),
    {
        match self {
            Piece::Empty => None,
            Piece::BlackPawn | Piece::BlackRook | Piece::BlackKnight | Piece::BlackBishop
            | Piece::BlackQueen | Piece::BlackKing => Some(Color::Black),
            _ => Some(Color::White),
        }
    }

    /// A piece of side `color`.
    pub fn belongs_to(&self, color: Color) -> (r: bool)
        ensures
            r == self.owned_by(color),
    {
        match self.get_color() {
            Some(c) => c == color,
            None => false,
        }
    }

    pub fn is_empty(&self) -> (r: bool)
        ensures
            r == (*self == Piece::Empty),
    {
        *self == Piece::Empty
    }

    pub fn is_not_empty(&self) -> (r: bool)
        ensures
            r == (*self != Piece::Empty),
    {
        *self != Piece::Empty
    }

    pub fn is_bishop(&self) -> (r: bool)
        ensures
            r == self.bishop(),
    {
        *self == Piece::BlackBishop || *self == Piece::WhiteBishop
    }

    pub fn is_rook(&self) -> (r: bool)
        ensures
            r == self.rook(),
    {
        *self == Piece::BlackRook || *self == Piece::WhiteRook
    }

    pub fn is_queen(&self) -> (r: bool)
        ensures
            r == self.queen(),
    {
        *self == Piece::WhiteQueen || *self == Piece::BlackQueen
    }

    pub fn is_knight(&self) -> (r: bool)
        ensures
            r == self.knight(),
    {
        *self == Piece::WhiteKnight || *self == Piece::BlackKnight
    }

    pub fn is_pawn(&self) -> (r: bool)
        ensures
            r == self.pawn(),
    {
        *self == Piece::WhitePawn || *self == Piece::BlackPawn
    }

    pub fn is_king(&self) -> (r: bool)
        ensures
            r == self.king(),
    {
        *self == Piece::WhiteKing || *self == Piece::BlackKing
    }
}

impl Default for Piece {
    fn default() -> (r: Piece)
        ensures
            r == Piece::Empty,
    {
        Piece::Empty
    }
}

} // verus!
