//! The variants of cobblestone.

use vstd::prelude::*;

verus! {

/// How weathered a cobblestone block is.
#[derive(Copy, Clone, Debug, PartialEq, Eq, Structural)]
pub enum Cobblestone {
    Normal,
    Mossy,
}

} // verus!
