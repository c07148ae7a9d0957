//! The bounded compression-effort parameter passed opaquely to encoders.

use vstd::prelude::*;

verus! {

/// A compression-effort level, from fastest to smallest output.
///
/// Each codec maps the level onto its own numeric scale; every supported
/// codec accepts the full range one to nine.
#[derive(Debug, Clone, Copy, PartialEq, Eq, Structural)]
pub enum Level {
    One,
    Two,
    Three,
    Four,
    Five,
    Six,
    Seven,
    Eight,
    Nine,
}

impl Level {
    /// The numeric value of the level on the common one-to-nine scale.
    pub open spec fn spec_value(self) -> u32 {
        match self {
            Level::One => 1,
            Level::Two => 2,
            Level::Three => 3,
            Level::Four => 4,
            Level::Five => 5,
            Level::Six => 6,
            Level::Seven => 7,
            Level::Eight => 8,
            Level::Nine => 9,
        }
    }

    /// Maps the level to its numeric value, always between one and nine.
    pub fn value(self) -> (v: u32)
        ensures
            v == self.spec_value(),
            1 <= v <= 9,
    {
        match self {
            Level::One => 1,
            Level::Two => 2,
            Level::Three => 3,
            Level::Four => 4,
            Level::Five => 5,
            Level::Six => 6,
            Level::Seven => 7,
            Level::Eight => 8,
            Level::Nine => 9,
        }
    }
}

} // verus!
