//! A named isolation group and its validated resource limits.
//!
//! `Cgroup` aggregates every limit into one validated, immutable
//! configuration: each field has passed its own constructor's validation,
//! and the aggregate performs no validation of its own beyond composing
//! them. Applying a configuration is planned here as the exact, ordered
//! set of control-file writes; performing the writes is the caller's I/O.

use vstd::prelude::*;
use vstd::string::*;

pub mod cgroup_error;
pub mod cpu_max;
pub mod cpuweight;
pub mod io_max;
pub mod memory_max;
pub mod memory_swap_max;

use crate::cgroup::cgroup_error::CgroupError;
use crate::cgroup::cpu_max::CPUMax;
use crate::cgroup::cpuweight::{CPUWeight, CPUWeightError};
use crate::cgroup::io_max::{first_pure_error, IOMax, IOMaxError};
use crate::cgroup::memory_max::{ceiling_text, MemoryMax};
use crate::cgroup::memory_swap_max::MemorySwapMax;

verus! {

/// The group's node path under the fixed control-hierarchy mount point.
pub open spec fn group_path_text(name: Seq<char>) -> Seq<char> {
    "/sys/fs/cgroup/"@ + name
}

/// A validated, immutable group configuration, together with the path its
/// node lives at.
#[derive(Debug)]
pub struct Cgroup {
    path: String,
    cpu_max: CPUMax,
    cpu_weight: CPUWeight,
    memory_max: MemoryMax,
    memory_swap_max: MemorySwapMax,
    io_max: IOMax,
}

/// One pending control-file write: the file name under the group's path,
/// and the exact value to write to it.
#[derive(Debug)]
pub struct ControlWrite {
    pub file: String,
    pub value: String,
}

impl Cgroup {
    pub closed spec fn spec_path(&self) -> Seq<char> {
        self.path@
    }

    pub closed spec fn spec_cpu_max(&self) -> CPUMax {
        self.cpu_max
    }

    pub closed spec fn spec_cpu_weight(&self) -> CPUWeight {
        self.cpu_weight
    }

    pub closed spec fn spec_memory_max(&self) -> MemoryMax {
        self.memory_max
    }

    pub closed spec fn spec_memory_swap_max(&self) -> MemorySwapMax {
        self.memory_swap_max
    }

    pub closed spec fn spec_io_max(&self) -> IOMax {
        self.io_max
    }

    /// Builds a validated configuration for the group `name`.
    ///
    /// Every present input goes through its limit type's own constructor;
    /// the first failure rejects the whole build, wrapped so the caller
    /// sees which sub-limit failed, with the specific cause retained.
    /// Every absent input resolves to its documented default. The CPU
    /// weight is checked first, then the I/O entries in their fixed order;
    /// no filesystem write is attempted by building.
    pub fn build(
        name: &str,
        cpu_max_quota: Option<i64>,
        cpu_max_period: Option<u64>,
        cpu_weight: Option<u64>,
        memory_max: Option<u64>,
        memory_swap_max: Option<u64>,
        device_read_bps: Option<String>,
        device_write_bps: Option<String>,
        device_read_iops: Option<String>,
        device_write_iops: Option<String>,
    ) -> (r: Result<Self, CgroupError>)
        ensures
            (cpu_weight matches Some(w) && !CPUWeight::in_range(w)) <==> r == Err::<
                Self,
                CgroupError,
            >(CgroupError::InvalidCPUConfiguration(CPUWeightError::OutOfRange)),
            (cpu_weight matches Some(w) ==> CPUWeight::in_range(w)) && first_pure_error(
                device_read_bps,
                device_write_bps,
                device_read_iops,
                device_write_iops,
            ) is Some ==> r is Err,
            r matches Err(CgroupError::InvalidIOConfiguration(e)) ==> (cpu_weight matches Some(w)
                ==> CPUWeight::in_range(w)) && io_max::build_err_possible(
                device_read_bps,
                device_write_bps,
                device_read_iops,
                device_write_iops,
                e,
            ) && (e != IOMaxError::InvalidDevice ==> first_pure_error(
                device_read_bps,
                device_write_bps,
                device_read_iops,
                device_write_iops,
            ) == Some(e)),
            r matches Ok(cg) ==> {
                &&& cg.spec_path() == group_path_text(name@)
                &&& (match (cpu_max_quota, cpu_max_period) {
                    (Some(q), Some(p)) => cg.spec_cpu_max().spec_quota() == q
                        && cg.spec_cpu_max().spec_period() == p,
                    _ => cg.spec_cpu_max().spec_quota() == -1 && cg.spec_cpu_max().spec_period()
                        == 100000,
                })
                &&& (match cpu_weight {
                    Some(w) => cg.spec_cpu_weight().spec_value() == w,
                    None => cg.spec_cpu_weight().spec_value() == 100,
                })
                &&& cg.spec_memory_max().spec_value() == memory_max
                &&& cg.spec_memory_swap_max().spec_value() == memory_swap_max
                &&& IOMax::field_from(device_read_bps, cg.spec_io_max().spec_read_bps())
                &&& IOMax::field_from(device_write_bps, cg.spec_io_max().spec_write_bps())
                &&& IOMax::field_from(device_read_iops, cg.spec_io_max().spec_read_iops())
                &&& IOMax::field_from(device_write_iops, cg.spec_io_max().spec_write_iops())
            },
    {
        let mut path = String::new();
        path.append("/sys/fs/cgroup/");
        path.append(name);

        let cpu_max = match (cpu_max_quota, cpu_max_period) {
            (Some(q), Some(p)) => CPUMax::new(q, p),
            _ => CPUMax::default(),
        };

        let weight = match cpu_weight {
            Some(w) => match CPUWeight::build(w) {
                Ok(cw) => cw,
                Err(e) => {
                    return Err(CgroupError::from(e));
                },
            },
            None => CPUWeight::default(),
        };

        let mem = match memory_max {
            Some(u) => MemoryMax::new(Some(u)),
            None => MemoryMax::default(),
        };

        let swap = match memory_swap_max {
            Some(u) => MemorySwapMax::new(Some(u)),
            None => MemorySwapMax::default(),
        };

        let io = match IOMax::build(
            device_read_bps,
            device_write_bps,
            device_read_iops,
            device_write_iops,
        ) {
            Ok(m) => m,
            Err(e) => {
                return Err(CgroupError::from(e));
            },
        };

        Ok(Cgroup {
            path,
            cpu_max,
            cpu_weight: weight,
            memory_max: mem,
            memory_swap_max: swap,
            io_max: io,
        })
    }

    /// Builds a configuration with every limit at its default: CPU
    /// unlimited, weight 100, no memory, swap or I/O limit. Never fails.
    pub fn build_default(name: &str) -> (r: Result<Self, CgroupError>)
        ensures
            r is Ok,
            r matches Ok(cg) ==> {
                &&& cg.spec_path() == group_path_text(name@)
                &&& cg.spec_cpu_max().spec_quota() == -1
                &&& cg.spec_cpu_max().spec_period() == 100000
                &&& cg.spec_cpu_weight().spec_value() == 100
                &&& cg.spec_memory_max().spec_value() is None
                &&& cg.spec_memory_swap_max().spec_value() is None
                &&& cg.spec_io_max().spec_read_bps() is None
                &&& cg.spec_io_max().spec_write_bps() is None
                &&& cg.spec_io_max().spec_read_iops() is None
                &&& cg.spec_io_max().spec_write_iops() is None
            },
    {
        Cgroup::build(name, None, None, None, None, None, None, None, None, None)
    }

    /// The node path derived from the group's name.
    pub fn path(&self) -> (r: &String)
        ensures
            r@ == self.spec_path(),
    {
        &self.path
    }

    /// The full, ordered write plan that applies this configuration: the
    /// four scalar limit files first, then one `io.max` line per
    /// configured I/O entry. Ceilings that are unset are written as the
    /// literal `max` sentinel, never omitted.
    pub open spec fn plan_spec(&self) -> Seq<(Seq<char>, Seq<char>)> {
        seq![
            ("cpu.max"@, self.spec_cpu_max().text_spec()),
            ("cpu.weight"@, self.spec_cpu_weight().text_spec()),
            ("memory.max"@, self.spec_memory_max().text_spec()),
            ("memory.swap.max"@, self.spec_memory_swap_max().text_spec()),
        ] + self.spec_io_max().lines_text_spec().map_values(|t: Seq<char>| ("io.max"@, t))
    }

    /// Plans the control-file writes for this configuration, in the exact
    /// order `plan_spec` gives. Writes are independent of one another; the
    /// caller performs them one by one and reports failures per file.
    pub fn apply_plan(&self) -> (r: Vec<ControlWrite>)
        ensures
            r@.len() == self.plan_spec().len(),
            forall|i: int|
                0 <= i < r@.len() ==> (#[trigger] r@[i]).file@ == self.plan_spec()[i].0
                    && r@[i].value@ == self.plan_spec()[i].1,
    {
        let mut v: Vec<ControlWrite> = Vec::new();
        v.push(
            ControlWrite { file: String::from_str("cpu.max"), value: self.cpu_max.content() },
        );
        v.push(
            ControlWrite {
                file: String::from_str("cpu.weight"),
                value: self.cpu_weight.content(),
            },
        );
        v.push(
            ControlWrite {
                file: String::from_str("memory.max"),
                value: self.memory_max.content(),
            },
        );
        v.push(
            ControlWrite {
                file: String::from_str("memory.swap.max"),
                value: self.memory_swap_max.content(),
            },
        );
        let lines = self.io_max.content_lines();
        let mut k: usize = 0;
        while k < lines.len()
            invariant
                k <= lines@.len(),
                lines@.map_values(|t: String| t@) == self.spec_io_max().lines_text_spec(),
                v@.len() == 4 + k,
                forall|i: int|
                    0 <= i < v@.len() ==> (#[trigger] v@[i]).file@ == self.plan_spec()[i].0
                        && v@[i].value@ == self.plan_spec()[i].1,
            decreases lines@.len() - k,
        {
            proof {
                assert(self.spec_io_max().lines_text_spec()[k as int] == (lines@.map_values(
                    |t: String| t@,
                ))[k as int]);
            }
            v.push(ControlWrite { file: String::from_str("io.max"), value: lines[k].clone() });
            k = k + 1;
        }
        v
    }
}

/// The plan always carries the four scalar limit files, in a fixed order
/// with the CPU files before the memory files, and always writes
/// `memory.max`: with the decimal ceiling when one is set, and with the
/// literal `max` sentinel — not by omission — when none is, so that
/// applying a spec with an absent ceiling resets an earlier limit.
pub proof fn lemma_plan_covers_memory(cg: Cgroup)
    ensures
        cg.plan_spec().len() >= 4,
        cg.plan_spec()[0].0 == "cpu.max"@,
        cg.plan_spec()[1].0 == "cpu.weight"@,
        cg.plan_spec()[2].0 == "memory.max"@,
        cg.plan_spec()[3].0 == "memory.swap.max"@,
        cg.plan_spec()[2].1 == ceiling_text(cg.spec_memory_max().spec_value()),
        cg.spec_memory_max().spec_value() is None ==> cg.plan_spec()[2].1 == seq![
            'm',
            'a',
            'x',
        ],
{
}

/// The three externally visible lifecycle stages of a group node, plus the
/// configured-with-error stage a partial apply leaves behind.
#[derive(Debug, Clone, Copy, PartialEq, Eq, Structural)]
pub enum GroupState {
    Unbound,
    Created,
    Configured,
    ConfiguredPartial,
}

/// What a successful creation does to the state: an unbound group becomes
/// created; re-creating an existing node succeeds at the filesystem level
/// and must not regress the in-memory state.
pub open spec fn created_next(s: GroupState) -> GroupState {
    if s == GroupState::Unbound {
        GroupState::Created
    } else {
        s
    }
}

/// What an apply does to the state: fully written means configured, a
/// partial failure leaves the group configured-with-error.
pub open spec fn applied_next(clean: bool) -> GroupState {
    if clean {
        GroupState::Configured
    } else {
        GroupState::ConfiguredPartial
    }
}

/// The in-memory lifecycle of one group node. The node itself is owned by
/// whoever created it and is identified by path alone; this tracker may
/// outlive it, and exists before it does.
#[derive(Debug)]
pub struct GroupLifecycle {
    state: GroupState,
}

impl GroupLifecycle {
    pub closed spec fn spec_state(&self) -> GroupState {
        self.state
    }

    /// A fresh group: it exists in memory only, nothing on the system yet.
    pub fn new() -> (r: Self)
        ensures
            r.spec_state() == GroupState::Unbound,
    {
        GroupLifecycle { state: GroupState::Unbound }
    }

    pub fn state(&self) -> (r: GroupState)
        ensures
            r == self.spec_state(),
    {
        self.state
    }

    /// Notes a successful creation of the group's directory node.
    pub fn note_created(&mut self)
        ensures
            final(self).spec_state() == created_next(old(self).spec_state()),
    {
        if self.state == GroupState::Unbound {
            self.state = GroupState::Created;
        }
    }

    /// Notes the outcome of applying a spec to a created group: `clean`
    /// when every control-file write succeeded.
    pub fn note_applied(&mut self, clean: bool)
        requires
            old(self).spec_state() != GroupState::Unbound,
        ensures
            final(self).spec_state() == applied_next(clean),
    {
        self.state = if clean {
            GroupState::Configured
        } else {
            GroupState::ConfiguredPartial
        };
    }

    /// Notes a successful recursive removal of the node: the group is
    /// unbound again, whatever had been applied.
    pub fn note_deleted(&mut self)
        requires
            old(self).spec_state() != GroupState::Unbound,
        ensures
            final(self).spec_state() == GroupState::Unbound,
    {
        self.state = GroupState::Unbound;
    }
}

} // verus!
