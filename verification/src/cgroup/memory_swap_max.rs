//! Swap ceiling in bytes; an absent value is the kernel's unbounded default
//! and serializes to the literal `max` sentinel.

use vstd::prelude::*;

use crate::cgroup::memory_max::{ceiling_content, ceiling_text};

verus! {

/// A hard upper bound on swap use in bytes; `None` is the kernel default.
#[derive(Debug, Clone, Copy)]
pub struct MemorySwapMax(Option<u64>);

impl MemorySwapMax {
    pub closed spec fn spec_value(&self) -> Option<u64> {
        self.0
    }

    pub fn new(max: Option<u64>) -> (r: Self)
        ensures
            r.spec_value() == max,
    {
        Self(max)
    }

    pub fn value(&self) -> (r: Option<u64>)
        ensures
            r == self.spec_value(),
    {
        self.0
    }

    /// The exact text the `memory.swap.max` control file expects.
    pub open spec fn text_spec(&self) -> Seq<char> {
        ceiling_text(self.spec_value())
    }

    /// Serializes the ceiling for the `memory.swap.max` control file.
    pub fn content(&self) -> (r: String)
        ensures
            r@ == self.text_spec(),
    {
        ceiling_content(self.0)
    }
}

impl Default for MemorySwapMax {
    /// No limit by default: the kernel's own behaviour for a new group.
    fn default() -> (r: Self)
        ensures
            r.spec_value() is None,
    {
        Self(None)
    }
}

} // verus!
