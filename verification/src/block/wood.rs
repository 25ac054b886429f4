//! The variants of wooden blocks.

use vstd::prelude::*;

verus! {

/// The tree species of a wooden block.
#[derive(Copy, Clone, Debug, PartialEq, Eq, Structural)]
pub enum Wood {
    Oak,
    Birch,
}

} // verus!
