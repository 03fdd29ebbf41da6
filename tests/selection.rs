use rust_ui::{
    device_score, first_presentable_family, select_device, DeviceSelection, DeviceType,
    NoSuitableDeviceError, PhysicalDeviceInfo, QueueFamilyInfo,
};

fn family(graphics: bool, present: bool) -> QueueFamilyInfo {
    QueueFamilyInfo {
        queues_count: 1,
        supports_compute: true,
        supports_graphics: graphics,
        supports_sparse_binding: false,
        explicitly_supports_transfers: true,
        supports_present: present,
    }
}

fn device(
    name: &str,
    device_type: DeviceType,
    extensions: &[&str],
    families: Vec<QueueFamilyInfo>,
) -> PhysicalDeviceInfo {
    PhysicalDeviceInfo {
        name: name.to_string(),
        device_type,
        supported_extensions: extensions.iter().map(|e| e.to_string()).collect(),
        queue_families: families,
    }
}

fn swapchain_only() -> Vec<String> {
    vec!["VK_KHR_swapchain".to_string()]
}

fn qualifying(name: &str, device_type: DeviceType) -> PhysicalDeviceInfo {
    device(
        name,
        device_type,
        &["VK_KHR_maintenance1", "VK_KHR_swapchain"],
        vec![family(true, true)],
    )
}

#[test]
fn discrete_gpu_preferred_over_integrated() {
    let devices = vec![
        qualifying("discrete", DeviceType::DiscreteGpu),
        qualifying("integrated", DeviceType::IntegratedGpu),
    ];
    let r = select_device(&devices, &swapchain_only());
    assert_eq!(r, Ok(DeviceSelection { device_index: 0, queue_family_index: 0 }));
}

#[test]
fn discrete_gpu_preferred_when_enumerated_second() {
    let devices = vec![
        qualifying("integrated", DeviceType::IntegratedGpu),
        qualifying("discrete", DeviceType::DiscreteGpu),
    ];
    let r = select_device(&devices, &swapchain_only());
    assert_eq!(r, Ok(DeviceSelection { device_index: 1, queue_family_index: 0 }));
}

#[test]
fn cpu_without_swapchain_extension_is_rejected() {
    let devices = vec![device(
        "software",
        DeviceType::Cpu,
        &["VK_KHR_maintenance1"],
        vec![family(true, true)],
    )];
    assert_eq!(select_device(&devices, &swapchain_only()), Err(NoSuitableDeviceError));
}

#[test]
fn empty_enumeration_is_rejected() {
    let devices: Vec<PhysicalDeviceInfo> = Vec::new();
    assert_eq!(select_device(&devices, &swapchain_only()), Err(NoSuitableDeviceError));
}

#[test]
fn better_device_without_extension_is_skipped() {
    let devices = vec![
        device("discrete", DeviceType::DiscreteGpu, &[], vec![family(true, true)]),
        qualifying("virtual", DeviceType::VirtualGpu),
    ];
    let r = select_device(&devices, &swapchain_only()).unwrap();
    assert_eq!(r.device_index, 1);
    assert!(devices[r.device_index].supported_extensions.contains(&"VK_KHR_swapchain".to_string()));
}

#[test]
fn device_without_presentable_family_is_skipped() {
    let devices = vec![
        device(
            "discrete",
            DeviceType::DiscreteGpu,
            &["VK_KHR_swapchain"],
            vec![family(true, false), family(false, true)],
        ),
        qualifying("cpu", DeviceType::Cpu),
    ];
    let r = select_device(&devices, &swapchain_only());
    assert_eq!(r, Ok(DeviceSelection { device_index: 1, queue_family_index: 0 }));
}

#[test]
fn no_presentable_family_anywhere_is_rejected() {
    let devices = vec![device(
        "discrete",
        DeviceType::DiscreteGpu,
        &["VK_KHR_swapchain"],
        vec![family(false, true), family(true, false)],
    )];
    assert_eq!(select_device(&devices, &swapchain_only()), Err(NoSuitableDeviceError));
}

#[test]
fn first_presentable_family_is_chosen() {
    let devices = vec![device(
        "integrated",
        DeviceType::IntegratedGpu,
        &["VK_KHR_swapchain"],
        vec![family(false, false), family(true, false), family(true, true), family(true, true)],
    )];
    let r = select_device(&devices, &swapchain_only());
    assert_eq!(r, Ok(DeviceSelection { device_index: 0, queue_family_index: 2 }));
}

#[test]
fn tie_goes_to_first_enumerated() {
    let devices = vec![
        qualifying("cpu", DeviceType::Cpu),
        qualifying("first", DeviceType::IntegratedGpu),
        qualifying("second", DeviceType::IntegratedGpu),
    ];
    let r = select_device(&devices, &swapchain_only()).unwrap();
    assert_eq!(r.device_index, 1);
    assert_eq!(devices[r.device_index].name, "first");
}

#[test]
fn reordering_keeps_chosen_type() {
    let a = vec![
        qualifying("other", DeviceType::Other),
        qualifying("virtual", DeviceType::VirtualGpu),
        qualifying("cpu", DeviceType::Cpu),
    ];
    let b = vec![
        qualifying("cpu", DeviceType::Cpu),
        qualifying("other", DeviceType::Other),
        qualifying("virtual", DeviceType::VirtualGpu),
    ];
    let ra = select_device(&a, &swapchain_only()).unwrap();
    let rb = select_device(&b, &swapchain_only()).unwrap();
    assert_eq!(a[ra.device_index].device_type, DeviceType::VirtualGpu);
    assert_eq!(b[rb.device_index].device_type, DeviceType::VirtualGpu);
}

#[test]
fn selection_is_repeatable() {
    let devices = vec![
        qualifying("integrated", DeviceType::IntegratedGpu),
        qualifying("virtual", DeviceType::VirtualGpu),
    ];
    let required = swapchain_only();
    let first = select_device(&devices, &required);
    let second = select_device(&devices, &required);
    assert_eq!(first, second);
    assert_eq!(first, Ok(DeviceSelection { device_index: 0, queue_family_index: 0 }));
}

#[test]
fn no_required_extensions_accepts_any_presentable_device() {
    let devices = vec![device("bare", DeviceType::Other, &[], vec![family(true, true)])];
    let r = select_device(&devices, &Vec::new());
    assert_eq!(r, Ok(DeviceSelection { device_index: 0, queue_family_index: 0 }));
}

#[test]
fn scores_follow_type_preference() {
    assert_eq!(device_score(DeviceType::DiscreteGpu), 0);
    assert_eq!(device_score(DeviceType::IntegratedGpu), 1);
    assert_eq!(device_score(DeviceType::VirtualGpu), 2);
    assert_eq!(device_score(DeviceType::Cpu), 3);
    assert_eq!(device_score(DeviceType::Other), 4);
}

#[test]
fn presentable_family_search() {
    assert_eq!(first_presentable_family(&vec![]), None);
    assert_eq!(first_presentable_family(&vec![family(true, false), family(false, true)]), None);
    assert_eq!(
        first_presentable_family(&vec![family(true, false), family(true, true)]),
        Some(1)
    );
}

#[test]
fn no_suitable_device_message() {
    assert_eq!(NoSuitableDeviceError.message(), "No vulkan capable devices found.");
}
