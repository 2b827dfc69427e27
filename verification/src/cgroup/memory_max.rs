//! Memory ceiling in bytes; an absent value is the kernel's unbounded
//! default and serializes to the literal `max` sentinel.

use vstd::prelude::*;
use vstd::string::*;

use crate::decimal::{dec_str, u64_to_string};

verus! {

/// The text a ceiling control file expects: the decimal byte count, or the
/// literal `max` sentinel when no ceiling is set. The sentinel is written
/// out, never omitted, so that re-applying a spec resets an earlier limit.
pub open spec fn ceiling_text(v: Option<u64>) -> Seq<char> {
    match v {
        Some(b) => dec_str(b as nat),
        None => seq!['m', 'a', 'x'],
    }
}

/// Serializes an optional byte ceiling as `ceiling_text` describes.
pub fn ceiling_content(v: Option<u64>) -> (r: String)
    ensures
        r@ == ceiling_text(v),
{
    match v {
        Some(b) => u64_to_string(b),
        None => {
            let mut s = String::new();
            s.append("max");
            proof {
                reveal_strlit("max");
                assert(s@ =~= ceiling_text(None::<u64>));
            }
            s
        },
    }
}

/// A hard upper bound on memory use in bytes; `None` is the kernel default.
#[derive(Debug, Clone, Copy)]
pub struct MemoryMax(Option<u64>);

impl MemoryMax {
    pub closed spec fn spec_value(&self) -> Option<u64> {
        self.0
    }

    pub fn new(max: Option<u64>) -> (r: Self)
        ensures
            r.spec_value() == max,
    {
        Self(max)
    }

    pub fn value(&self) -> (r: Option<u64>)
        ensures
            r == self.spec_value(),
    {
        self.0
    }

    /// The exact text the `memory.max` control file expects.
    pub open spec fn text_spec(&self) -> Seq<char> {
        ceiling_text(self.spec_value())
    }

    /// Serializes the ceiling for the `memory.max` control file.
    pub fn content(&self) -> (r: String)
        ensures
            r@ == self.text_spec(),
    {
        ceiling_content(self.0)
    }
}

impl Default for MemoryMax {
    /// No limit by default: the kernel's own behaviour for a new group.
    fn default() -> (r: Self)
        ensures
            r.spec_value() is None,
    {
        Self(None)
    }
}

} // verus!
