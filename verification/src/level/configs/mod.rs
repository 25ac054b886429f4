//! Settings of a level.

use vstd::prelude::*;

pub mod variable;

verus! {

/// The number from which a world is generated.
pub type Seed = u64;

/// A height of the water surface, in blocks.
pub type WaterHeight = i32;

} // verus!
