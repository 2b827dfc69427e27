//! Relative CPU scheduling weight, validated to the kernel's 1..=10000 range.

use vstd::prelude::*;
use vstd::string::*;

use crate::decimal::{dec_str, u64_to_string};

verus! {

#[derive(Debug, Clone, Copy, PartialEq, Eq, Structural)]
pub enum CPUWeightError {
    OutOfRange,
}

impl CPUWeightError {
    /// The user-facing description of this error.
    pub open spec fn message_text(&self) -> Seq<char> {
        "CPU weight must be between 1 and 10000."@
    }

    pub fn message(&self) -> (r: String)
        ensures
            r@ == self.message_text(),
    {
        String::from_str("CPU weight must be between 1 and 10000.")
    }
}

/// A validated CPU weight: construction through `build` is the only
/// fallible step, and a constructed value always lies in 1..=10000.
#[derive(Debug, Clone, Copy)]
pub struct CPUWeight(u64);

impl CPUWeight {
    pub closed spec fn spec_value(&self) -> u64 {
        self.0
    }

    /// The range the kernel accepts for `cpu.weight`.
    pub open spec fn in_range(w: u64) -> bool {
        1 <= w <= 10000
    }

    /// Accepts exactly the weights in 1..=10000.
    pub fn build(weight: u64) -> (r: Result<Self, CPUWeightError>)
        ensures
            r is Ok <==> Self::in_range(weight),
            r matches Ok(cw) ==> cw.spec_value() == weight,
            r is Err ==> r == Result::<Self, CPUWeightError>::Err(CPUWeightError::OutOfRange),
    {
        if weight < 1 || weight > 10000 {
            Err(CPUWeightError::OutOfRange)
        } else {
            Ok(Self(weight))
        }
    }

    pub fn value(&self) -> (r: u64)
        ensures
            r == self.spec_value(),
    {
        self.0
    }

    /// The exact text the `cpu.weight` control file expects.
    pub open spec fn text_spec(&self) -> Seq<char> {
        dec_str(self.spec_value() as nat)
    }

    /// Serializes the weight for the `cpu.weight` control file.
    pub fn content(&self) -> (r: String)
        ensures
            r@ == self.text_spec(),
    {
        u64_to_string(self.0)
    }
}

impl Default for CPUWeight {
    /// The kernel's default weight.
    fn default() -> (r: Self)
        ensures
            r.spec_value() == 100,
    {
        Self(100)
    }
}

} // verus!
