//! The composite error a group configuration is rejected with.

use vstd::prelude::*;
use vstd::string::*;

use crate::cgroup::cpuweight::CPUWeightError;
use crate::cgroup::io_max::IOMaxError;

verus! {

/// A configuration rejected at build time, before any filesystem side
/// effect: either the CPU weight or an I/O limit entry failed its own
/// validation. The underlying specific error is retained as the cause.
#[derive(Debug, Clone, Copy, PartialEq, Eq, Structural)]
pub enum CgroupError {
    InvalidCPUConfiguration(CPUWeightError),
    InvalidIOConfiguration(IOMaxError),
}

impl CgroupError {
    /// The user-facing description: which sub-limit failed, followed by
    /// the underlying cause's own description.
    pub open spec fn message_text(&self) -> Seq<char> {
        match *self {
            CgroupError::InvalidCPUConfiguration(e) => "Invalid CPU configuration: "@
                + e.message_text(),
            CgroupError::InvalidIOConfiguration(e) => "Invalid I/O configuration: "@
                + e.message_text(),
        }
    }

    pub fn message(&self) -> (r: String)
        ensures
            r@ == self.message_text(),
    {
        match self {
            CgroupError::InvalidCPUConfiguration(e) => {
                let mut s = String::from_str("Invalid CPU configuration: ");
                let m = e.message();
                s.append(m.as_str());
                s
            },
            CgroupError::InvalidIOConfiguration(e) => {
                let mut s = String::from_str("Invalid I/O configuration: ");
                let m = e.message();
                s.append(m.as_str());
                s
            },
        }
    }
}

impl From<CPUWeightError> for CgroupError {
    fn from(error: CPUWeightError) -> (r: Self) {
        CgroupError::InvalidCPUConfiguration(error)
    }
}

impl vstd::std_specs::convert::FromSpecImpl<CPUWeightError> for CgroupError {
    open spec fn obeys_from_spec() -> bool {
        true
    }

    open spec fn from_spec(v: CPUWeightError) -> Self {
        CgroupError::InvalidCPUConfiguration(v)
    }
}

impl From<IOMaxError> for CgroupError {
    fn from(error: IOMaxError) -> (r: Self) {
        CgroupError::InvalidIOConfiguration(error)
    }
}

impl vstd::std_specs::convert::FromSpecImpl<IOMaxError> for CgroupError {
    open spec fn obeys_from_spec() -> bool {
        true
    }

    open spec fn from_spec(v: IOMaxError) -> Self {
        CgroupError::InvalidIOConfiguration(v)
    }
}

} // verus!
