//! The generation clock: a monotonically increasing version counter attached
//! to every mutable state record, used for optimistic-concurrency ordering.
//! A caller may only persist a record whose stored generation matches the
//! generation it last read.

use vstd::prelude::*;

verus! {

/// A monotonically increasing version counter. It is incremented on every
/// state mutation and never decreases or repeats.
#[derive(Clone, Copy, Debug, PartialEq, Eq, Structural)]
pub struct Generation {
    pub value: u64,
}

impl Generation {
    /// The generation a freshly registered record starts with.
    pub fn new() -> (r: Generation)
        ensures
            r.value == 0,
    {
        Generation { value: 0 }
    }

    /// The next generation: exactly one more than this one.
    pub fn next(&self) -> (r: Generation)
        requires
            self.value < u64::MAX,
        ensures
            r.value == self.value + 1,
    {
        Generation { value: self.value + 1 }
    }
}

} // verus!
