//! Verified core of a minimal process-isolation tool.
//!
//! The crate models a bounded set of resource limits (CPU time, CPU weight,
//! memory and swap ceilings, per-device I/O throughput) for one named
//! isolation group of the kernel's control-file hierarchy, resolves
//! block-device paths to the kernel's major:minor identifiers, and plans the
//! exact control-file writes that enforce a validated configuration.
//! Filesystem writes themselves are performed by the surrounding binary;
//! everything that decides, validates or serializes lives here, verified.

pub mod cgroup;
pub mod decimal;
pub mod launcher;
mod strutil;
mod sysfs;
