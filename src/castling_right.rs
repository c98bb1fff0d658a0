use vstd::prelude::*;

use crate::color::Color;
use crate::square::Square;

verus! {

/// Which castles each side may still make. A right, once lost, never comes back.
#[derive(Copy, Clone, Debug, PartialEq, Eq, Structural)]
pub struct CastlingRight {
    pub white_kingside: bool,
    pub white_queenside: bool,
    pub black_kingside: bool,
    pub black_queenside: bool,
}

/// The corner on which side `c`'s kingside rook starts.
pub open spec fn kingside_corner(c: Color) -> Square {
    Square { rank: c.home_rank() as u8, file: 7 }
}

/// The corner on which side `c`'s queenside rook starts.
pub open spec fn queenside_corner(c: Color) -> Square {
    Square { rank: c.home_rank() as u8, file: 0 }
}

impl CastlingRight {
    pub open spec fn kingside(self, c: Color) -> bool {
        match c {
            Color::White => self.white_kingside,
            Color::Black => self.black_kingside,
        }
    }

    pub open spec fn queenside(self, c: Color) -> bool {
        match c {
            Color::White => self.white_queenside,
            Color::Black => self.black_queenside,
        }
    }

    /// The rights left after side `color` moves from `from` to `to`: moving
    /// from the king's home square loses both of `color`'s rights; a move from
    /// or onto a rook's home corner loses the right of that rook.
    pub open spec fn after_move(self, color: Color, from: Square, to: Square) -> CastlingRight {
        let king_moved = from == Square::king_home(color);
        let touched = |s: Square| from == s || to == s;
        CastlingRight {
            white_kingside: self.white_kingside && !(king_moved && color == Color::White)
                && !touched(kingside_corner(Color::White)),
            white_queenside: self.white_queenside && !(king_moved && color == Color::White)
                && !touched(queenside_corner(Color::White)),
            black_kingside: self.black_kingside && !(king_moved && color == Color::Black)
                && !touched(kingside_corner(Color::Black)),
            black_queenside: self.black_queenside && !(king_moved && color == Color::Black)
                && !touched(queenside_corner(Color::Black)),
        }
    }

    /// Every right of `self` is also a right of `other`.
    pub open spec fn within(self, other: CastlingRight) -> bool {
        &&& self.white_kingside ==> other.white_kingside
        &&& self.white_queenside ==> other.white_queenside
        &&& self.black_kingside ==> other.black_kingside
        &&& self.black_queenside ==> other.black_queenside
    }

    pub fn lose_white_kingside_castling_right(&mut self)
        ensures
            *final(self) == (CastlingRight { white_kingside: false, ..*old(self) }),
    {
        self.white_kingside = false;
    }

    pub fn lose_black_kingside_castling_right(&mut self)
        ensures
            *final(self) == (CastlingRight { black_kingside: false, ..*old(self) }),
    {
        self.black_kingside = false;
    }

    pub fn lose_white_queenside_castling_right(&mut self)
        ensures
            *final(self) == (CastlingRight { white_queenside: false, ..*old(self) }),
    {
        self.white_queenside = false;
    }

    pub fn lose_black_queenside_castling_right(&mut self)
        ensures
            *final(self) == (CastlingRight { black_queenside: false, ..*old(self) }),
    {
        self.black_queenside = false;
    }

    /// Loses both rights of side `color`.
    pub fn lose_all_right(&mut self, color: Color)
        ensures
            !final(self).kingside(color),
            !final(self).queenside(color),
            final(self).kingside(color.opposite()) == old(self).kingside(color.opposite()),
            final(self).queenside(color.opposite()) == old(self).queenside(color.opposite()),
    {
        if color.is_white() {
            self.white_kingside = false;
            self.white_queenside = false;
        } else {
            self.black_kingside = false;
            self.black_queenside = false;
        }
    }

    pub fn has_kingside_right(&self, color: Color) -> (r: bool)
        ensures
            r == self.kingside(color),
    {
        if color.is_white() {
            self.white_kingside
        } else {
            self.black_kingside
        }
    }

    pub fn has_queenside_right(&self, color: Color) -> (r: bool)
        ensures
            r == self.queenside(color),
    {
        if color.is_white() {
            self.white_queenside
        } else {
            self.black_queenside
        }
    }

    /// Side `color` may still castle on at least one side.
    pub fn has_right(&self, color: Color) -> (r: bool)
        ensures
            r == (self.kingside(color) || self.queenside(color)),
    {
        if color.is_white() {
            self.white_kingside || self.white_queenside
        } else {
            self.black_kingside || self.black_queenside
        }
    }

    /// Records the rights lost by side `color`'s move from `from` to `to`.
    pub fn update_castling_right(&mut self, color: Color, from: Square, to: Square)
        ensures
            *final(self) == old(self).after_move(color, from, to),
            final(self).within(*old(self)),
    {
        // king moved
        if from.is_king_square(color) {
            self.lose_all_right(color);
        }
        // rook moved or taken
        if from.is_uppermost_rank_square() || to.is_uppermost_rank_square() {
            if (from.is_uppermost_rank_square() && from.is_leftmost_file_square()) || (
            to.is_uppermost_rank_square() && to.is_leftmost_file_square()) {
                self.lose_black_queenside_castling_right();
            }
            if (from.is_uppermost_rank_square() && from.is_rightmost_file_square()) || (
            to.is_uppermost_rank_square() && to.is_rightmost_file_square()) {
                self.lose_black_kingside_castling_right();
            }
        }
        if from.is_lowermost_rank_square() || to.is_lowermost_rank_square() {
            if (from.is_lowermost_rank_square() && from.is_leftmost_file_square()) || (
            to.is_lowermost_rank_square() && to.is_leftmost_file_square()) {
                self.lose_white_queenside_castling_right();
            }
            if (from.is_lowermost_rank_square() && from.is_rightmost_file_square()) || (
            to.is_lowermost_rank_square() && to.is_rightmost_file_square()) {
                self.lose_white_kingside_castling_right();
            }
        }
    }
}

impl Default for CastlingRight {
    /// Every right, as at the start of a game.
    fn default() -> (r: CastlingRight)
        ensures
            r.white_kingside && r.white_queenside && r.black_kingside && r.black_queenside,
    {
        CastlingRight {
            white_kingside: true,
            white_queenside: true,
            black_kingside: true,
            black_queenside: true,
        }
    }
}

} // verus!
