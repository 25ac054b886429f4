//! The variants of sponges.

use vstd::prelude::*;

verus! {

/// Whether a sponge has soaked up water.
#[derive(Copy, Clone, Debug, PartialEq, Eq, Structural)]
pub enum Sponge {
    Dry,
    Wet,
}

} // verus!
