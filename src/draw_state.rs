use vstd::prelude::*;

use crate::color::Color;

verus! {

/// Where a draw by agreement stands: no offer, an offer by one side, or agreed.
#[derive(Copy, Clone, Debug, PartialEq, Eq, Structural)]
pub enum DrawState {
    Neither,
    White,
    Black,
    Draw,
}

impl DrawState {
    /// The marker of an offer by side `c`.
    pub open spec fn offer_of(c: Color) -> DrawState {
        match c {
            Color::White => DrawState::White,
            Color::Black => DrawState::Black,
        }
    }

    /// The state after side `c` offers a draw: an offer by the other side
    /// makes it agreed; with no offer yet, it becomes `c`'s offer.
    pub open spec fn after_offer(self, c: Color) -> DrawState {
        if self == DrawState::offer_of(c.opposite()) {
            DrawState::Draw
        } else if self == DrawState::Neither {
            DrawState::offer_of(c)
        } else {
            self
        }
    }

    pub fn color_offered(&self, color: Color) -> (r: bool)
        ensures
            r == (*self == DrawState::offer_of(color)),
    {
        if color.is_white() {
            *self == DrawState::White
        } else {
            *self == DrawState::Black
        }
    }

    pub fn set_color(&mut self, color: Color)
        ensures
            *final(self) == DrawState::offer_of(color),
    {
        if color.is_white() {
            *self = DrawState::White;
        } else {
            *self = DrawState::Black;
        }
    }

    pub fn white_offered(&self) -> (r: bool)
        ensures
            r == (*self == DrawState::White),
    {
        *self == DrawState::White
    }

    pub fn black_offered(&self) -> (r: bool)
        ensures
            r == (*self == DrawState::Black),
    {
        *self == DrawState::Black
    }

    /// The other side has offered, so an offer by `color` agrees to a draw.
    pub fn is_draw_with(&self, color: Color) -> (r: bool)
        ensures
            r == (*self == DrawState::offer_of(color.opposite())),
    {
        color.is_white() && self.black_offered() || color.is_black() && self.white_offered()
    }

    pub fn is_draw(&self) -> (r: bool)
        ensures
            r == (*self == DrawState::Draw),
    {
        *self == DrawState::Draw
    }

    pub fn is_neither(&self) -> (r: bool)
        ensures
            r == (*self == DrawState::Neither),
    {
        *self == DrawState::Neither
    }

    pub fn reset(&mut self)
        ensures
            *final(self) == DrawState::Neither,
    {
        *self = DrawState::Neither;
    }

    pub fn set_white(&mut self)
        ensures
            *final(self) == DrawState::White,
    {
        *self = DrawState::White;
    }

    pub fn set_black(&mut self)
        ensures
            *final(self) == DrawState::Black,
    {
        *self = DrawState::Black;
    }

    pub fn set_draw(&mut self)
        ensures
            *final(self) == DrawState::Draw,
    {
        *self = DrawState::Draw;
    }

    /// Records a draw offer by side `color`.
    pub fn update_state(&mut self, color: Color)
        ensures
            *final(self) == old(self).after_offer(color),
    {
        if color.is_white() && self.black_offered() {
            self.set_draw();
        } else if color.is_black() && self.white_offered() {
            self.set_draw();
        } else if self.is_neither() {
            self.set_color(color);
        }
    }
}

} // verus!
