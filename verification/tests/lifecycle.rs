use cgroupctl::cgroup::{GroupLifecycle, GroupState};
use cgroupctl::launcher::{classify_launch, request_pid_namespace, LaunchOutcome};

#[test]
fn lifecycle_transitions() {
    let mut lc = GroupLifecycle::new();
    assert_eq!(lc.state(), GroupState::Unbound);

    lc.note_created();
    assert_eq!(lc.state(), GroupState::Created);

    // Re-creating an existing node is idempotent.
    lc.note_created();
    assert_eq!(lc.state(), GroupState::Created);

    lc.note_applied(true);
    assert_eq!(lc.state(), GroupState::Configured);

    // A configured group must not silently regress to merely created.
    lc.note_created();
    assert_eq!(lc.state(), GroupState::Configured);

    lc.note_applied(false);
    assert_eq!(lc.state(), GroupState::ConfiguredPartial);

    lc.note_deleted();
    assert_eq!(lc.state(), GroupState::Unbound);
}

#[test]
fn create_then_delete_returns_to_unbound() {
    let mut lc = GroupLifecycle::new();
    lc.note_created();
    lc.note_deleted();
    assert_eq!(lc.state(), GroupState::Unbound);
}

#[test]
fn launch_severity_split() {
    assert_eq!(classify_launch(true, true), LaunchOutcome::Isolated);
    assert_eq!(classify_launch(false, true), LaunchOutcome::Degraded);
    assert_eq!(classify_launch(true, false), LaunchOutcome::Aborted);
    assert_eq!(classify_launch(false, false), LaunchOutcome::Aborted);
}

#[test]
fn namespace_request_reports_either_way() {
    // Whether the kernel grants the namespace depends on privileges; the
    // launch continues either way, isolated or degraded.
    let granted = request_pid_namespace();
    let outcome = classify_launch(granted, true);
    assert!(matches!(
        outcome,
        LaunchOutcome::Isolated | LaunchOutcome::Degraded
    ));
}
