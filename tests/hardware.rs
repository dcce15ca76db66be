use cpuid::query::{vendor_id, CpuidSource, HardwareCpu, BASIC_INFORMATION};
use cpuid::master;

#[test]
fn basic_genuine_intel() {
    let mut cpu = HardwareCpu::new();
    let basic = cpu.cpuid(BASIC_INFORMATION);
    let v = vendor_id(basic);

    assert_eq!(b"Genu", &v[0..4]);
    assert_eq!(b"ntel", &basic.ecx.to_le_bytes());
    assert_eq!(b"ineI", &basic.edx.to_le_bytes());
}

#[test]
fn brand_string_contains_intel() {
    assert!(master().brand_string().unwrap().contains("Intel(R)"))
}

#[test]
fn hardware_snapshot_reports_basic_features() {
    let m = master();
    assert!(m.max_basic_leaf() >= 1);
    assert!(m.version_information().is_some());
    assert!(m.fpu());
    assert!(m.sse2());
    assert!(m.family_id().is_some());
}
