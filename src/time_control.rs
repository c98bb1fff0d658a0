use vstd::prelude::*;

use crate::color::Color;

verus! {

/// `last_move` before the first move has been made.
pub const NO_MOVE_YET: i64 = -1;

/// Each side's remaining seconds, the increment given back after each move,
/// and the time of the last move (`NO_MOVE_YET` until the first one).
#[derive(Copy, Clone, Debug, PartialEq, Eq, Hash, Structural)]
pub struct TimeControl {
    pub last_move: i64,
    pub white_timer: u32,
    pub black_timer: u32,
    pub increment: u32,
}

impl TimeControl {
    /// Side `c`'s remaining time.
    pub open spec fn remaining(self, c: Color) -> int {
        match c {
            Color::White => self.white_timer as int,
            Color::Black => self.black_timer as int,
        }
    }

    /// No move has been made, so no clock runs yet.
    pub open spec fn first_move(self) -> bool {
        self.last_move == NO_MOVE_YET
    }

    /// Side `c` still has time at `now`.
    pub open spec fn time_left(self, c: Color, now: i64) -> bool {
        self.first_move() || now - self.last_move < self.remaining(c)
    }

    /// The seconds charged for a move at `now`: the time since the last
    /// move, or nothing should `now` lie before it.
    pub open spec fn elapsed(self, now: i64) -> int {
        if now < self.last_move {
            0
        } else {
            now - self.last_move
        }
    }

    /// Side `c`'s remaining time after a move at `now`: less the time
    /// charged, plus the increment, kept between 0 and `u32::MAX`.
    pub open spec fn left_after(self, c: Color, now: i64) -> u32 {
        let left = self.remaining(c) - self.elapsed(now) + self.increment;
        if left < 0 {
            0
        } else if left > u32::MAX {
            u32::MAX
        } else {
            left as u32
        }
    }

    /// The clocks after side `c` moves at `now`: no charge on the first
    /// move; the time of the move is recorded.
    pub open spec fn charged(self, c: Color, now: i64) -> TimeControl {
        if self.first_move() {
            TimeControl { last_move: now, ..self }
        } else {
            match c {
                Color::White => TimeControl {
                    last_move: now,
                    white_timer: self.left_after(c, now),
                    ..self
                },
                Color::Black => TimeControl {
                    last_move: now,
                    black_timer: self.left_after(c, now),
                    ..self
                },
            }
        }
    }

    /// Both sides get `timer` seconds; no move has been made.
    pub fn new(timer: u32, increment: u32) -> (r: TimeControl)
        ensures
            r == (TimeControl {
                last_move: NO_MOVE_YET,
                white_timer: timer,
                black_timer: timer,
                increment,
            }),
    {
        TimeControl { white_timer: timer, black_timer: timer, increment, last_move: NO_MOVE_YET }
    }

    pub fn increment_white(&mut self)
        requires
            old(self).white_timer + old(self).increment <= u32::MAX,
        ensures
            *final(self) == (TimeControl {
                white_timer: (old(self).white_timer + old(self).increment) as u32,
                ..*old(self)
            }),
    {
        self.white_timer = self.white_timer + self.increment;
    }

    pub fn increment_black(&mut self)
        requires
            old(self).black_timer + old(self).increment <= u32::MAX,
        ensures
            *final(self) == (TimeControl {
                black_timer: (old(self).black_timer + old(self).increment) as u32,
                ..*old(self)
            }),
    {
        self.black_timer = self.black_timer + self.increment;
    }

    pub fn decrease_white_timer(&mut self, time_spent: u32)
        requires
            time_spent <= old(self).white_timer,
        ensures
            *final(self) == (TimeControl {
                white_timer: (old(self).white_timer - time_spent) as u32,
                ..*old(self)
            }),
    {
        self.white_timer = self.white_timer - time_spent;
    }

    pub fn decrease_black_timer(&mut self, time_spent: u32)
        requires
            time_spent <= old(self).black_timer,
        ensures
            *final(self) == (TimeControl {
                black_timer: (old(self).black_timer - time_spent) as u32,
                ..*old(self)
            }),
    {
        self.black_timer = self.black_timer - time_spent;
    }

    /// Seconds since the last move.
    pub fn get_time_passed(&self, current_timestamp: i64) -> (r: i64)
        requires
            i64::MIN <= current_timestamp - self.last_move <= i64::MAX,
        ensures
            r == current_timestamp - self.last_move,
    {
        current_timestamp - self.last_move
    }

    /// Side `color` still has time at `current_timestamp`.
    pub fn has_time(&self, color: Color, current_timestamp: i64) -> (r: bool)
        ensures
            r == self.time_left(color, current_timestamp),
    {
        if self.is_first_move() {
            return true;
        }
        let passed: i128 = current_timestamp as i128 - self.last_move as i128;
        if color.is_white() {
            passed < self.white_timer as i128
        } else {
            passed < self.black_timer as i128
        }
    }

    pub fn set_white_timer(&mut self, white_timer: u32)
        ensures
            *final(self) == (TimeControl { white_timer, ..*old(self) }),
    {
        self.white_timer = white_timer;
    }

    pub fn set_black_timer(&mut self, black_timer: u32)
        ensures
            *final(self) == (TimeControl { black_timer, ..*old(self) }),
    {
        self.black_timer = black_timer;
    }

    pub fn set_last_move(&mut self, last_move: i64)
        ensures
            *final(self) == (TimeControl { last_move, ..*old(self) }),
    {
        self.last_move = last_move;
    }

    pub fn is_first_move(&self) -> (r: bool)
        ensures
            r == self.first_move(),
    {
        self.last_move == NO_MOVE_YET
    }

    pub fn is_not_first_move(&self) -> (r: bool)
        ensures
            r == !self.first_move(),
    {
        self.last_move != NO_MOVE_YET
    }

    /// Charges side `color` the time since the last move, gives the increment
    /// back, and records `current_timestamp` as the time of the last move.
    pub fn update_time_control(&mut self, color: Color, current_timestamp: i64)
        ensures
            *final(self) == old(self).charged(color, current_timestamp),
    {
        if self.is_not_first_move() {
            let elapsed: i128 = if current_timestamp < self.last_move {
                0
            } else {
                current_timestamp as i128 - self.last_move as i128
            };
            let remaining: i128 = if color.is_white() {
                self.white_timer as i128
            } else {
                self.black_timer as i128
            };
            let left: i128 = remaining - elapsed + self.increment as i128;
            let timer: u32 = if left < 0 {
                0
            } else if left > u32::MAX as i128 {
                u32::MAX
            } else {
                left as u32
            };
            if color.is_white() {
                self.set_white_timer(timer);
            } else {
                self.set_black_timer(timer);
            }
        }
        self.set_last_move(current_timestamp)
    }
}

/// A side that was found to have time left at a time not before the last
/// move, and is then charged for its move,
/// keeps a positive remaining time, which is its time less the seconds it
/// spent plus the increment whenever that fits; the other side's clock is
/// untouched.
pub proof fn lemma_charged_time_stays_positive(tc: TimeControl, c: Color, now: i64)
    requires
        !tc.first_move(),
        tc.last_move <= now,
        tc.time_left(c, now),
    ensures
        tc.charged(c, now).remaining(c) > 0,
        tc.remaining(c) - tc.elapsed(now) + tc.increment <= u32::MAX ==> tc.charged(
            c,
            now,
        ).remaining(c) == tc.remaining(c) - tc.elapsed(now) + tc.increment,
        tc.charged(c, now).remaining(c.opposite()) == tc.remaining(c.opposite()),
{
}

} // verus!
