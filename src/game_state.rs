use vstd::prelude::*;

use crate::color::Color;

verus! {

/// Where a match stands: waiting for players, a side to move, or over.
#[derive(Copy, Clone, Debug, PartialEq, Eq, Structural)]
pub enum GameState {
    Waiting,
    White,
    Black,
    WhiteWon,
    BlackWon,
    Draw,
}

impl GameState {
    /// A side is to move.
    pub open spec fn in_play(self) -> bool {
        self == GameState::White || self == GameState::Black
    }

    /// The game is over; no operation leaves these states.
    pub open spec fn over(self) -> bool {
        self == GameState::WhiteWon || self == GameState::BlackWon || self == GameState::Draw
    }

    /// The state in which side `c` is to move.
    pub open spec fn turn_of(c: Color) -> GameState {
        match c {
            Color::White => GameState::White,
            Color::Black => GameState::Black,
        }
    }

    /// The state in which side `c` has won.
    pub open spec fn won_by(c: Color) -> GameState {
        match c {
            Color::White => GameState::WhiteWon,
            Color::Black => GameState::BlackWon,
        }
    }

    /// The side to move; only asked while a side is to move.
    pub open spec fn mover(self) -> Color {
        if self == GameState::White {
            Color::White
        } else {
            Color::Black
        }
    }

    /// The side to move; `None` while waiting for players or once the game
    /// is over.
    pub fn get_current_player_turn(&self) -> (r: Option<Color>)
        ensures
            self.in_play() ==> r == Some(self.mover()),
            !self.in_play() ==> r is None,
    {
        match self {
            GameState::White => Some(Color::White),
            GameState::Black => Some(Color::Black),
            _ => None,
        }
    }

    pub fn is_white_turn(&self) -> (r: bool)
        ensures
            r == (*self == GameState::White),
    {
        *self == GameState::White
    }

    pub fn is_black_turn(&self) -> (r: bool)
        ensures
            r == (*self == GameState::Black),
    {
        *self == GameState::Black
    }

    /// The state with the other side to move; `None` while waiting for
    /// players or once the game is over.
    pub fn next_turn(&self) -> (r: Option<GameState>)
        ensures
            self.in_play() ==> r == Some(GameState::turn_of(self.mover().opposite())),
            !self.in_play() ==> r is None,
    {
        match self {
            GameState::White => Some(GameState::Black),
            GameState::Black => Some(GameState::White),
            _ => None,
        }
    }

    pub fn set_white_winner(&mut self)
        ensures
            *final(self) == GameState::WhiteWon,
    {
        *self = GameState::WhiteWon;
    }

    pub fn set_black_winner(&mut self)
        ensures
            *final(self) == GameState::BlackWon,
    {
        *self = GameState::BlackWon;
    }

    pub fn set_draw(&mut self)
        ensures
            *final(self) == GameState::Draw,
    {
        *self = GameState::Draw;
    }

    pub fn is_still_going(&self) -> (r: bool)
        ensures
            r == self.in_play(),
    {
        *self == GameState::White || *self == GameState::Black
    }

    pub fn is_waiting(&self) -> (r: bool)
        ensures
            r == (*self == GameState::Waiting),
    {
        *self == GameState::Waiting
    }

    pub fn is_finished(&self) -> (r: bool)
        ensures
            r == self.over(),
    {
        *self == GameState::WhiteWon || *self == GameState::BlackWon || *self == GameState::Draw
    }

    /// White moves first.
    pub fn start_game(&mut self)
        ensures
            *final(self) == GameState::White,
    {
        *self = GameState::White;
    }
}

} // verus!
