use vstd::prelude::*;

use crate::piece::Piece;

verus! {

/// One of the two sides of a game.
#[derive(Copy, Clone, Debug, PartialEq, Eq, Structural)]
pub enum Color {
    White,
    Black,
}

impl Color {
    /// The other side.
    pub open spec fn opposite(self) -> Color {
        match self {
            Color::White => Color::Black,
            Color::Black => Color::White,
        }
    }

    /// The rank step a pawn of this side takes when it advances: White moves
    /// towards rank 0, Black towards rank 7.
    pub open spec fn forward(self) -> int {
        match self {
            Color::White => -1,
            Color::Black => 1,
        }
    }

    /// The rank on which this side's pawns start.
    pub open spec fn pawn_rank(self) -> int {
        match self {
            Color::White => 6,
            Color::Black => 1,
        }
    }

    /// The rank holding this side's king and rooks at the start.
    pub open spec fn home_rank(self) -> int {
        match self {
            Color::White => 7,
            Color::Black => 0,
        }
    }

    /// The rank on which a pawn of this side is promoted.
    pub open spec fn last_rank(self) -> int {
        match self {
            Color::White => 0,
            Color::Black => 7,
        }
    }

    /// This side's queen.
    pub open spec fn queen(self) -> Piece {
        match self {
            Color::White => Piece::WhiteQueen,
            Color::Black => Piece::BlackQueen,
        }
    }

    pub fn is_white(&self) -> (r: bool)
        ensures
            r == (*self == Color::White),
    {
        *self == Color::White
    }

    pub fn is_black(&self) -> (r: bool)
        ensures
            r == (*self == Color::Black),
    {
        *self == Color::Black
    }

    pub fn get_pawn_direction(&self) -> (r: i8)
        ensures
            r as int == self.forward(),
    {
        if self.is_white() {
            -1
        } else {
            1
        }
    }

    pub fn is_opposite(&self, color: Color) -> (r: bool)
        ensures
            r == (*self != color),
            r == (*self == color.opposite()),
    {
        *self != color
    }

    pub fn get_opposite(&self) -> (r: Color)
        ensures
            r == self.opposite(),
    {
        if self.is_white() {
            Color::Black
        } else {
            Color::White
        }
    }

    pub fn is_color(&self, color: Color) -> (r: bool)
        ensures
            r == (*self == color),
    {
        *self == color
    }

    pub fn get_starting_pawn_rank(&self) -> (r: usize)
        ensures
            r as int == self.pawn_rank(),
    {
        if self.is_white() {
            6
        } else {
            1
        }
    }

    pub fn get_queen(&self) -> (r: Piece)
        ensures
            r == self.queen(),
    {
        if self.is_white() {
            Piece::WhiteQueen
        } else {
            Piece::BlackQueen
        }
    }
}

} // verus!
