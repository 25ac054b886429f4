//! The variants of wool.

use vstd::prelude::*;

verus! {

/// The dye colour of a wool block.
#[derive(Copy, Clone, Debug, PartialEq, Eq, Structural)]
pub enum Wool {
    White,
    LightGray,
    Gray,
    Black,
    Brown,
    Red,
    Orange,
    Yellow,
    Lime,
    Green,
    Cyan,
    LightBlue,
    Blue,
    Purple,
    Magenta,
    Pink,
}

impl Default for Wool {
    fn default() -> (r: Self)
        ensures
            r == Wool::White,
    {
        Wool::White
    }
}

} // verus!
