//! A setting of a level.

use vstd::prelude::*;

verus! {

/// A setting of a level: a value that is fixed when the level is set up.
pub struct Variable<T: Copy>(T);

impl<T: Copy> Variable<T> {
    /// The value of the setting.
    pub closed spec fn view(&self) -> T {
        self.0
    }

    /// Creates the setting with the given value.
    pub fn new(value: T) -> (r: Self)
        ensures
            r@ == value,
    {
        Self(value)
    }

    /// Returns the value of the setting.
    pub fn value(&self) -> (r: T)
        ensures
            r == self@,
    {
        self.0
    }
}

} // verus!
