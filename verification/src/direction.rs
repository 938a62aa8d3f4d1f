//! The direction in which text flows.

use vstd::prelude::*;

verus! {

/// The direction in which the glyphs of a run follow one another.
#[derive(Debug, Copy, Clone, PartialEq, Eq, Structural, Hash)]
pub enum Direction {
    /// No direction was set, or the direction is not a valid one.
    Invalid,
    /// Left to right.
    LTR,
    /// Right to left.
    RTL,
    /// Top to bottom.
    TTB,
    /// Bottom to top.
    BTT,
}

impl Direction {
    /// The numeric code of a direction. `Invalid` has the code zero.
    pub open spec fn code(self) -> u32 {
        match self {
            Direction::Invalid => 0,
            Direction::LTR => 4,
            Direction::RTL => 5,
            Direction::TTB => 6,
            Direction::BTT => 7,
        }
    }

    /// The direction that a number stands for: the one with that code, and
    /// `Invalid` for every number that is no direction's code.
    pub open spec fn of_code(raw: u32) -> Direction {
        if raw == 4 {
            Direction::LTR
        } else if raw == 5 {
            Direction::RTL
        } else if raw == 6 {
            Direction::TTB
        } else if raw == 7 {
            Direction::BTT
        } else {
            Direction::Invalid
        }
    }

    /// The direction with the given code; `Invalid` for any other number.
    pub fn from_raw(raw: u32) -> (direction: Self)
        ensures
            direction == Self::of_code(raw),
    {
        match raw {
            4 => Direction::LTR,
            5 => Direction::RTL,
            6 => Direction::TTB,
            7 => Direction::BTT,
            _ => Direction::Invalid,
        }
    }

    /// The code of this direction.
    pub fn as_raw(&self) -> (raw: u32)
        ensures
            raw == self.code(),
    {
        match self {
            Direction::Invalid => 0,
            Direction::LTR => 4,
            Direction::RTL => 5,
            Direction::TTB => 6,
            Direction::BTT => 7,
        }
    }

    /// Decoding the code of a direction gives the direction back.
    pub proof fn lemma_code_round_trip(self)
        ensures
            Self::of_code(self.code()) == self,
    {
    }
}

} // verus!
