use cgroupctl::cgroup::cgroup_error::CgroupError;
use cgroupctl::cgroup::cpuweight::CPUWeightError;
use cgroupctl::cgroup::io_max::IOMaxError;
use cgroupctl::cgroup::Cgroup;

#[test]
fn build_rejects_weight_out_of_range_before_any_write() {
    let r = Cgroup::build(
        "demo",
        None,
        None,
        Some(20000),
        None,
        None,
        None,
        None,
        None,
        None,
    );
    assert!(matches!(
        r,
        Err(CgroupError::InvalidCPUConfiguration(CPUWeightError::OutOfRange))
    ));
}

#[test]
fn build_wraps_io_errors_with_cause() {
    let r = Cgroup::build(
        "demo",
        None,
        None,
        None,
        None,
        None,
        Some("nocolon".to_string()),
        None,
        None,
        None,
    );
    assert!(matches!(
        r,
        Err(CgroupError::InvalidIOConfiguration(IOMaxError::InvalidFormat))
    ));
    let r = Cgroup::build(
        "demo",
        None,
        None,
        None,
        None,
        None,
        None,
        Some("/dev/nonexistent:10".to_string()),
        None,
        None,
    );
    assert!(matches!(
        r,
        Err(CgroupError::InvalidIOConfiguration(IOMaxError::InvalidDevice))
    ));
}

#[test]
fn default_group_plan_writes_every_file() {
    let cg = Cgroup::build_default("demo").unwrap();
    assert_eq!(cg.path().as_str(), "/sys/fs/cgroup/demo");

    let plan = cg.apply_plan();
    assert_eq!(plan.len(), 4);
    assert_eq!(plan[0].file, "cpu.max");
    assert_eq!(plan[0].value, "-1 100000");
    assert_eq!(plan[1].file, "cpu.weight");
    assert_eq!(plan[1].value, "100");
    // The unset ceilings are written as the literal sentinel, not omitted.
    assert_eq!(plan[2].file, "memory.max");
    assert_eq!(plan[2].value, "max");
    assert_eq!(plan[3].file, "memory.swap.max");
    assert_eq!(plan[3].value, "max");
}

#[test]
fn configured_group_plan_is_ordered_and_exact() {
    let cg = Cgroup::build(
        "demo2",
        Some(50000),
        Some(100000),
        Some(500),
        Some(1048576),
        Some(2097152),
        None,
        None,
        None,
        None,
    )
    .unwrap();
    assert_eq!(cg.path().as_str(), "/sys/fs/cgroup/demo2");

    let plan = cg.apply_plan();
    assert_eq!(plan.len(), 4);
    assert_eq!(plan[0].value, "50000 100000");
    // The CPU weight write comes before the memory-ceiling write, so a
    // failure on memory.max leaves the already-written weight in place.
    assert_eq!(plan[1].file, "cpu.weight");
    assert_eq!(plan[1].value, "500");
    assert_eq!(plan[2].file, "memory.max");
    assert_eq!(plan[2].value, "1048576");
    assert_eq!(plan[3].value, "2097152");
}

#[test]
fn partial_cpu_pair_falls_back_to_default() {
    let cg = Cgroup::build(
        "demo3",
        Some(50000),
        None,
        None,
        None,
        None,
        None,
        None,
        None,
        None,
    )
    .unwrap();
    let plan = cg.apply_plan();
    assert_eq!(plan[0].value, "-1 100000");
}

#[test]
fn error_messages_name_the_failing_sublimit() {
    let r = Cgroup::build(
        "demo",
        None,
        None,
        Some(0),
        None,
        None,
        None,
        None,
        None,
        None,
    );
    match r {
        Err(e) => assert_eq!(
            e.message(),
            "Invalid CPU configuration: CPU weight must be between 1 and 10000."
        ),
        Ok(_) => panic!("weight 0 must be rejected"),
    }
    let r = Cgroup::build(
        "demo",
        None,
        None,
        None,
        None,
        None,
        Some("nocolon".to_string()),
        None,
        None,
        None,
    );
    match r {
        Err(e) => assert_eq!(
            e.message(),
            "Invalid I/O configuration: Invalid format. Expected '<device>:<limit>'."
        ),
        Ok(_) => panic!("entry without a colon must be rejected"),
    }
}
