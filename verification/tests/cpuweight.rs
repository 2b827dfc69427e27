use cgroupctl::cgroup::cpuweight::{CPUWeight, CPUWeightError};

#[test]
fn test_cpuweight_build() {
    let res = CPUWeight::build(20000);
    assert!(matches!(res, Err(CPUWeightError::OutOfRange)));

    let res = CPUWeight::build(1000);
    assert_eq!(res.unwrap().value(), 1000);

    let default_weight = CPUWeight::default();
    assert_eq!(default_weight.value(), 100);
}

#[test]
fn cpuweight_accepts_exact_bounds() {
    assert_eq!(CPUWeight::build(1).unwrap().value(), 1);
    assert_eq!(CPUWeight::build(10000).unwrap().value(), 10000);
}

#[test]
fn cpuweight_rejects_outside_bounds() {
    assert!(matches!(CPUWeight::build(0), Err(CPUWeightError::OutOfRange)));
    assert!(matches!(CPUWeight::build(10001), Err(CPUWeightError::OutOfRange)));
    assert!(matches!(CPUWeight::build(u64::MAX), Err(CPUWeightError::OutOfRange)));
}

#[test]
fn cpuweight_serializes_decimal() {
    let w = CPUWeight::build(42).unwrap();
    assert_eq!(w.content(), "42");
    assert_eq!(CPUWeight::default().content(), "100");
}
