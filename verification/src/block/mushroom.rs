//! The variants of mushrooms.

use vstd::prelude::*;

verus! {

/// The species of a mushroom.
#[derive(Copy, Clone, Debug, PartialEq, Eq, Structural)]
pub enum Mushroom {
    Brown,
    Red,
}

} // verus!
