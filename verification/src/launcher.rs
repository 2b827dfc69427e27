//! Launching a command inside a fresh process-ID namespace.
//!
//! The namespace request and the spawn have different severities: a refused
//! namespace only degrades the launch (the command still runs, without
//! isolation), while a failed spawn aborts it. The caller performs the
//! spawn and reports both outcomes here.

use vstd::prelude::*;

verus! {

/// How a launch attempt ended: isolated in a fresh PID namespace, degraded
/// to an ordinary spawn because the namespace was refused, or aborted
/// because the spawn itself failed.
#[derive(Debug, Clone, Copy, PartialEq, Eq, Structural)]
pub enum LaunchOutcome {
    Isolated,
    Degraded,
    Aborted,
}

/// Relies on nix::sched::unshare with CLONE_NEWPID: asks the kernel for a
/// fresh PID namespace for the calling process, so that children spawned
/// afterwards get isolated process IDs. One-shot and not reversible.
/// Success depends on the caller's privileges, so nothing is promised of
/// the result.
#[verifier::external_body]
fn unshare_newpid() -> bool {
    nix::sched::unshare(nix::sched::CloneFlags::CLONE_NEWPID).is_ok()
}

/// Requests a fresh PID namespace and reports whether the kernel granted
/// it. The request must precede the spawn, because the namespace applies
/// to children spawned from this point on. A refusal is non-fatal by
/// design: the caller proceeds without isolation rather than losing the
/// command, and `classify_launch` tells the two apart.
pub fn request_pid_namespace() -> bool {
    unshare_newpid()
}

/// A spawn failure is fatal; a namespace failure merely degrades.
pub open spec fn launch_outcome_spec(namespace_ok: bool, spawn_ok: bool) -> LaunchOutcome {
    if !spawn_ok {
        LaunchOutcome::Aborted
    } else if namespace_ok {
        LaunchOutcome::Isolated
    } else {
        LaunchOutcome::Degraded
    }
}

/// Classifies a launch attempt from the two kernel interactions it makes:
/// whether the PID-namespace request succeeded, and whether the child
/// process could be spawned.
pub fn classify_launch(namespace_ok: bool, spawn_ok: bool) -> (r: LaunchOutcome)
    ensures
        r == launch_outcome_spec(namespace_ok, spawn_ok),
{
    if !spawn_ok {
        LaunchOutcome::Aborted
    } else if namespace_ok {
        LaunchOutcome::Isolated
    } else {
        LaunchOutcome::Degraded
    }
}

} // verus!
