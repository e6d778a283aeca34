use vulkmini::device::{
    device_type_rank, first_usable_family, select_physical_device, DeviceCandidate,
    PhysicalDeviceType, QueueFamilySupport,
};

fn fam(graphics: bool, surface: bool) -> QueueFamilySupport {
    QueueFamilySupport { graphics, surface }
}

fn dev(ext: bool, t: PhysicalDeviceType, fams: Vec<QueueFamilySupport>) -> DeviceCandidate {
    DeviceCandidate { supports_extensions: ext, device_type: t, queue_families: fams }
}

#[test]
fn ranks_of_device_types() {
    assert_eq!(device_type_rank(PhysicalDeviceType::DiscreteGpu), 0);
    assert_eq!(device_type_rank(PhysicalDeviceType::IntegratedGpu), 1);
    assert_eq!(device_type_rank(PhysicalDeviceType::VirtualGpu), 2);
    assert_eq!(device_type_rank(PhysicalDeviceType::Cpu), 3);
    assert_eq!(device_type_rank(PhysicalDeviceType::Other), 4);
    assert_eq!(device_type_rank(PhysicalDeviceType::Unrecognized), 5);
}

#[test]
fn first_family_that_draws_and_presents() {
    assert_eq!(first_usable_family(&vec![fam(true, false), fam(false, true), fam(true, true), fam(true, true)]), Some(2));
    assert_eq!(first_usable_family(&vec![fam(true, false), fam(false, true)]), None);
    assert_eq!(first_usable_family(&vec![]), None);
}

#[test]
fn no_devices_no_choice() {
    assert_eq!(select_physical_device(&vec![]), None);
}

#[test]
fn ineligible_devices_are_skipped() {
    let cands = vec![
        dev(false, PhysicalDeviceType::DiscreteGpu, vec![fam(true, true)]),
        dev(true, PhysicalDeviceType::DiscreteGpu, vec![fam(true, false)]),
    ];
    assert_eq!(select_physical_device(&cands), None);
}

#[test]
fn discrete_preferred_over_integrated() {
    let cands = vec![
        dev(true, PhysicalDeviceType::IntegratedGpu, vec![fam(true, true)]),
        dev(true, PhysicalDeviceType::Cpu, vec![fam(true, true)]),
        dev(true, PhysicalDeviceType::DiscreteGpu, vec![fam(false, true), fam(true, true)]),
    ];
    assert_eq!(select_physical_device(&cands), Some((2, 1)));
}

#[test]
fn first_of_equally_preferred_wins() {
    let cands = vec![
        dev(true, PhysicalDeviceType::Other, vec![fam(true, true)]),
        dev(true, PhysicalDeviceType::VirtualGpu, vec![fam(true, false), fam(true, true)]),
        dev(true, PhysicalDeviceType::VirtualGpu, vec![fam(true, true)]),
    ];
    assert_eq!(select_physical_device(&cands), Some((1, 1)));
}

#[test]
fn preferred_kind_without_extensions_loses() {
    let cands = vec![
        dev(false, PhysicalDeviceType::DiscreteGpu, vec![fam(true, true)]),
        dev(true, PhysicalDeviceType::Unrecognized, vec![fam(false, false), fam(false, false), fam(true, true)]),
    ];
    assert_eq!(select_physical_device(&cands), Some((1, 2)));
}
