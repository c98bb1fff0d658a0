use vstd::prelude::*;

use crate::time_control::{TimeControl, NO_MOVE_YET};

verus! {

/// The terms a game is created with.
#[derive(Copy, Clone, Debug, PartialEq, Eq, Structural)]
pub struct GameConfig {
    pub timer: u32,
    pub increment: u32,
    pub is_rated: bool,
    pub wager: Option<u64>,
}

impl GameConfig {
    pub fn get_timer(&self) -> (r: u32)
        ensures
            r == self.timer,
    {
        self.timer
    }

    pub fn get_increment(&self) -> (r: u32)
        ensures
            r == self.increment,
    {
        self.increment
    }

    /// The wager; only asked when there is one.
    pub fn get_wager(&self) -> (r: u64)
        requires
            self.wager is Some,
        ensures
            self.wager == Some(r),
    {
        self.wager.unwrap()
    }

    pub fn has_wager(&self) -> (r: bool)
        ensures
            r == self.wager is Some,
    {
        self.wager.is_some()
    }

    pub fn is_rated(&self) -> (r: bool)
        ensures
            r == self.is_rated,
    {
        self.is_rated
    }

    /// Fresh clocks for these terms.
    pub fn get_time_control(&self) -> (r: TimeControl)
        ensures
            r == (TimeControl {
                last_move: NO_MOVE_YET,
                white_timer: self.timer,
                black_timer: self.timer,
                increment: self.increment,
            }),
    {
        TimeControl::new(self.get_timer(), self.get_increment())
    }
}

} // verus!
