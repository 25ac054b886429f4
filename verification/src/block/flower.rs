//! The variants of flowers.

use vstd::prelude::*;

verus! {

/// The species of a flower.
#[derive(Copy, Clone, Debug, PartialEq, Eq, Structural)]
pub enum Flower {
    Rose,
    Dandelion,
}

} // verus!
