use vk_present::device_select::{
    check_adapter, device_rank, first_suitable_queue_family, names_equal, select_adapter,
    AdapterInfo, DeviceType, NoCompatibleDeviceError, QueueFamilyInfo, Rejection, Selection,
};

fn name(s: &str) -> Vec<u8> {
    s.as_bytes().to_vec()
}

fn family(graphics: bool, present: bool) -> QueueFamilyInfo {
    QueueFamilyInfo { supports_graphics: graphics, supports_present: present }
}

fn adapter(device_type: DeviceType, exts: &[&str], families: Vec<QueueFamilyInfo>) -> AdapterInfo {
    AdapterInfo {
        device_type,
        extensions: exts.iter().map(|e| name(e)).collect(),
        queue_families: families,
    }
}

fn required() -> Vec<Vec<u8>> {
    vec![name("VK_KHR_swapchain")]
}

#[test]
fn ranks_follow_device_class() {
    assert_eq!(device_rank(DeviceType::DiscreteGpu), 0);
    assert_eq!(device_rank(DeviceType::IntegratedGpu), 1);
    assert_eq!(device_rank(DeviceType::VirtualGpu), 2);
    assert_eq!(device_rank(DeviceType::Cpu), 3);
    assert_eq!(device_rank(DeviceType::Other), 4);
}

#[test]
fn selects_least_rank_among_passing() {
    let adapters = vec![
        adapter(DeviceType::Cpu, &["VK_KHR_swapchain"], vec![family(true, true)]),
        adapter(DeviceType::IntegratedGpu, &["VK_KHR_swapchain"], vec![family(true, true)]),
        // discrete but missing the extension: not eligible
        adapter(DeviceType::DiscreteGpu, &["VK_KHR_other"], vec![family(true, true)]),
        adapter(DeviceType::VirtualGpu, &["VK_KHR_swapchain"], vec![family(true, true)]),
    ];
    assert_eq!(
        select_adapter(&adapters, &required()),
        Ok(Selection { adapter_index: 1, queue_family_index: 0 })
    );
}

#[test]
fn ties_go_to_earliest_enumerated() {
    let adapters = vec![
        adapter(DeviceType::Cpu, &["VK_KHR_swapchain"], vec![family(true, true)]),
        adapter(DeviceType::DiscreteGpu, &["VK_KHR_swapchain"], vec![family(false, true), family(true, true)]),
        adapter(DeviceType::DiscreteGpu, &["VK_KHR_swapchain"], vec![family(true, true)]),
    ];
    assert_eq!(
        select_adapter(&adapters, &required()),
        Ok(Selection { adapter_index: 1, queue_family_index: 1 })
    );
}

#[test]
fn fails_when_every_adapter_misses_an_extension() {
    let adapters = vec![
        adapter(DeviceType::DiscreteGpu, &["VK_KHR_maintenance1"], vec![family(true, true)]),
        adapter(DeviceType::IntegratedGpu, &[], vec![family(true, true)]),
    ];
    assert_eq!(select_adapter(&adapters, &required()), Err(NoCompatibleDeviceError));
    assert_eq!(check_adapter(&adapters[0], &required()), Err(Rejection::MissingExtension));
}

#[test]
fn fails_when_no_adapter_has_graphics_present_family() {
    let adapters = vec![
        adapter(DeviceType::DiscreteGpu, &["VK_KHR_swapchain"], vec![family(true, false), family(false, true)]),
        adapter(DeviceType::IntegratedGpu, &["VK_KHR_swapchain"], vec![]),
    ];
    assert_eq!(select_adapter(&adapters, &required()), Err(NoCompatibleDeviceError));
    assert_eq!(check_adapter(&adapters[0], &required()), Err(Rejection::NoSuitableQueueFamily));
}

#[test]
fn fails_on_no_adapters() {
    assert_eq!(select_adapter(&vec![], &required()), Err(NoCompatibleDeviceError));
}

#[test]
fn extension_names_match_case_sensitively() {
    let a = adapter(DeviceType::DiscreteGpu, &["vk_khr_swapchain"], vec![family(true, true)]);
    assert_eq!(check_adapter(&a, &required()), Err(Rejection::MissingExtension));
    assert!(names_equal(&name("VK_KHR_swapchain"), &name("VK_KHR_swapchain")));
    assert!(!names_equal(&name("VK_KHR_swapchain"), &name("VK_KHR_swapchai")));
    assert!(!names_equal(&name("VK_KHR_swapchain"), &name("vk_KHR_swapchain")));
}

#[test]
fn first_suitable_family_is_taken() {
    let fams = vec![family(true, false), family(true, true), family(true, true)];
    assert_eq!(first_suitable_queue_family(&fams), Some(1));
    assert_eq!(first_suitable_queue_family(&vec![family(false, false)]), None);
}

#[test]
fn no_required_extensions_accepts_any_adapter_with_family() {
    let a = adapter(DeviceType::Other, &[], vec![family(false, false), family(false, true), family(true, true)]);
    assert_eq!(check_adapter(&a, &vec![]), Ok(2));
}
