//! A guess in the range 1 to 100.

use vstd::prelude::*;

verus! {

/// A number from 1 to 100, both included.
pub struct Guess {
    value: i32,
}

impl Guess {
    /// The number held.
    pub closed spec fn spec_value(&self) -> i32 {
        self.value
    }

    /// Every guess lies in the range.
    pub open spec fn wf(&self) -> bool {
        1 <= self.spec_value() <= 100
    }

    /// The guess `value`; values outside 1 to 100 are not guesses.
    pub fn new(value: i32) -> (r: Guess)
        requires
            1 <= value <= 100,
        ensures
            r.wf(),
            r.spec_value() == value,
    {
        Guess { value }
    }

    /// The number held.
    pub fn value(&self) -> (r: i32)
        ensures
            r == self.spec_value(),
    {
        self.value
    }
}

} // verus!
