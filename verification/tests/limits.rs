use cgroupctl::cgroup::cpu_max::CPUMax;
use cgroupctl::cgroup::memory_max::MemoryMax;
use cgroupctl::cgroup::memory_swap_max::MemorySwapMax;

#[test]
fn cpu_max_carries_its_pair() {
    let m = CPUMax::new(250000, 1000000);
    assert_eq!(m.quota(), 250000);
    assert_eq!(m.period(), 1000000);
    assert_eq!(m.content(), "250000 1000000");

    let unlimited = CPUMax::new(-1, 100000);
    assert_eq!(unlimited.content(), "-1 100000");

    let d = CPUMax::default();
    assert_eq!(d.quota(), -1);
    assert_eq!(d.period(), 100000);
}

#[test]
fn memory_max_serializes_value_or_sentinel() {
    let m = MemoryMax::new(Some(1048576));
    assert_eq!(m.value(), Some(1048576));
    assert_eq!(m.content(), "1048576");

    let unset = MemoryMax::new(None);
    assert_eq!(unset.value(), None);
    assert_eq!(unset.content(), "max");

    assert_eq!(MemoryMax::default().value(), None);
}

#[test]
fn memory_swap_max_serializes_value_or_sentinel() {
    let m = MemorySwapMax::new(Some(2048));
    assert_eq!(m.value(), Some(2048));
    assert_eq!(m.content(), "2048");

    let unset = MemorySwapMax::new(None);
    assert_eq!(unset.value(), None);
    assert_eq!(unset.content(), "max");

    assert_eq!(MemorySwapMax::default().value(), None);
}
