//! CPU time limit: a quota of microseconds granted per period.

use vstd::prelude::*;
use vstd::string::*;

use crate::decimal::{dec_str, i64_to_string, int_dec_str, u64_to_string};
use crate::strutil::push_char;

verus! {

/// A pair of CPU quota and period, both in microseconds. A quota of -1 is
/// the explicit "unlimited" sentinel; no further range is enforced beyond
/// what the kernel interface itself checks.
#[derive(Debug, Clone, Copy)]
pub struct CPUMax {
    quota: i64,
    period: u64,
}

impl CPUMax {
    pub closed spec fn spec_quota(&self) -> i64 {
        self.quota
    }

    pub closed spec fn spec_period(&self) -> u64 {
        self.period
    }

    /// The exact text the `cpu.max` control file expects:
    /// `"<quota> <period>"`.
    pub open spec fn text_spec(&self) -> Seq<char> {
        int_dec_str(self.spec_quota() as int) + seq![' '] + dec_str(self.spec_period() as nat)
    }

    pub fn new(quota: i64, period: u64) -> (r: Self)
        ensures
            r.spec_quota() == quota,
            r.spec_period() == period,
    {
        CPUMax { quota, period }
    }

    pub fn quota(&self) -> (r: i64)
        ensures
            r == self.spec_quota(),
    {
        self.quota
    }

    pub fn period(&self) -> (r: u64)
        ensures
            r == self.spec_period(),
    {
        self.period
    }

    /// Serializes the limit for the `cpu.max` control file.
    pub fn content(&self) -> (r: String)
        ensures
            r@ == self.text_spec(),
    {
        let mut s = i64_to_string(self.quota);
        push_char(&mut s, ' ');
        let p = u64_to_string(self.period);
        s.append(p.as_str());
        proof {
            assert(s@ =~= self.text_spec());
        }
        s
    }
}

impl Default for CPUMax {
    /// Unlimited quota; the period is the kernel's customary default and has
    /// no effect while the quota is unlimited.
    fn default() -> (r: Self)
        ensures
            r.spec_quota() == -1,
            r.spec_period() == 100000,
    {
        CPUMax { quota: -1, period: 100000 }
    }
}

} // verus!
