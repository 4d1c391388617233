//! The mutual-exclusion counter: an integer that concurrent actors may only
//! read or change one at a time.
//!
//! In the running system the exclusion comes from a lock owned by the
//! runtime; every method call here happens inside that lock's critical
//! section. In this sequential model, exclusive access is expressed by
//! `&mut`: a step that holds the counter exclusively takes it by mutable
//! reference, so each method is one atomic read-modify-write.

use vstd::prelude::*;

verus! {

/// An integer counter mutated only inside a critical section.
pub struct ExclusionCounter {
    value: u32,
}

impl ExclusionCounter {
    /// The counter's current value.
    pub closed spec fn value(&self) -> u32 {
        self.value
    }

    /// Creates a counter holding `value`.
    pub fn new(value: u32) -> (counter: ExclusionCounter)
        ensures
            counter.value() == value,
    {
        ExclusionCounter { value }
    }

    /// Reads the counter.
    pub fn get(&self) -> (v: u32)
        ensures
            v == self.value(),
    {
        self.value
    }

    /// Adds one to the counter.
    pub fn increment(&mut self)
        requires
            old(self).value() < u32::MAX,
        ensures
            final(self).value() == old(self).value() + 1,
    {
        self.value = self.value + 1;
    }

    /// Takes one from the counter.
    pub fn decrement(&mut self)
        requires
            old(self).value() > 0,
        ensures
            final(self).value() == old(self).value() - 1,
    {
        self.value = self.value - 1;
    }
}

} // verus!
