use hello_triangle::surface::{ColorSpace, Extent, Format, PresentModeSupport, SurfaceCaps,
    SurfaceFormat};
use hello_triangle::device::{check_device_extension_support, device_extensions,
    find_queue_families, is_device_suitable, pick_physical_device, present_aliases_graphics,
    rate_device_suitability, unique_queue_families, DeviceInfo, ExtensionSet,
    PhysicalDeviceType, QueueFamilyCaps, QueueFamilyIndices};

fn adequate_caps() -> SurfaceCaps {
    SurfaceCaps {
        min_image_count: 2,
        max_image_count: Some(8),
        current_extent: None,
        min_image_extent: Extent { width: 1, height: 1 },
        max_image_extent: Extent { width: 4096, height: 4096 },
        supported_formats: vec![SurfaceFormat {
            format: Format::B8G8R8A8Unorm,
            color_space: ColorSpace::SrgbNonLinear,
        }],
        present_modes: PresentModeSupport { mailbox: false, immediate: false, fifo: true },
    }
}

fn device(device_type: PhysicalDeviceType, limit: u32) -> DeviceInfo {
    DeviceInfo {
        device_type,
        max_image_dimension_2d: limit,
        queue_families: vec![QueueFamilyCaps { supports_graphics: true, supports_present: true }],
        extensions: ExtensionSet { khr_swapchain: true },
        caps: adequate_caps(),
    }
}

#[test]
fn fresh_indices_are_incomplete() {
    let indices = QueueFamilyIndices::new();
    assert_eq!(indices.graphics_family, -1);
    assert_eq!(indices.present_family, -1);
    assert!(!indices.is_complete());
}

#[test]
fn queue_scan_finds_split_families() {
    let families = vec![
        QueueFamilyCaps { supports_graphics: true, supports_present: false },
        QueueFamilyCaps { supports_graphics: false, supports_present: true },
    ];
    let indices = find_queue_families(&families);
    assert!(indices.is_complete());
    assert_eq!(indices.graphics_family, 0);
    assert_eq!(indices.present_family, 1);
}

#[test]
fn queue_scan_stops_at_first_covering_family() {
    let families = vec![
        QueueFamilyCaps { supports_graphics: true, supports_present: true },
        QueueFamilyCaps { supports_graphics: true, supports_present: false },
    ];
    let indices = find_queue_families(&families);
    assert!(indices.is_complete());
    assert_eq!(indices.graphics_family, 0);
    assert_eq!(indices.present_family, 0);
}

#[test]
fn queue_scan_without_present_support_is_incomplete() {
    let families = vec![
        QueueFamilyCaps { supports_graphics: true, supports_present: false },
        QueueFamilyCaps { supports_graphics: true, supports_present: false },
    ];
    let indices = find_queue_families(&families);
    assert!(!indices.is_complete());
    assert_eq!(indices.present_family, -1);
    assert!(indices.graphics_family >= 0);
}

#[test]
fn queue_scan_of_empty_list_finds_nothing() {
    let families: Vec<QueueFamilyCaps> = vec![];
    let indices = find_queue_families(&families);
    assert_eq!(indices.graphics_family, -1);
    assert_eq!(indices.present_family, -1);
}

#[test]
fn required_extensions_demand_swapchain_support() {
    assert!(device_extensions().khr_swapchain);
    assert!(check_device_extension_support(&ExtensionSet { khr_swapchain: true }));
    assert!(!check_device_extension_support(&ExtensionSet { khr_swapchain: false }));
}

#[test]
fn device_without_swapchain_extension_is_unsuitable() {
    let mut d = device(PhysicalDeviceType::DiscreteGpu, 8192);
    d.extensions = ExtensionSet { khr_swapchain: false };
    assert!(!is_device_suitable(&d));
    assert_eq!(rate_device_suitability(&d), None);
}

#[test]
fn device_without_formats_or_modes_is_unsuitable() {
    let mut without_formats = device(PhysicalDeviceType::DiscreteGpu, 8192);
    without_formats.caps.supported_formats = vec![];
    assert!(!is_device_suitable(&without_formats));

    let mut without_modes = device(PhysicalDeviceType::DiscreteGpu, 8192);
    without_modes.caps.present_modes =
        PresentModeSupport { mailbox: false, immediate: false, fifo: false };
    assert!(!is_device_suitable(&without_modes));
}

#[test]
fn discrete_gpu_scores_a_thousand_over_its_limit() {
    let discrete = device(PhysicalDeviceType::DiscreteGpu, 8192);
    assert_eq!(rate_device_suitability(&discrete), Some(9192));
    let integrated = device(PhysicalDeviceType::IntegratedGpu, 4096);
    assert_eq!(rate_device_suitability(&integrated), Some(4096));
}

#[test]
fn scenario_discrete_device_beats_integrated() {
    let devices = vec![
        device(PhysicalDeviceType::IntegratedGpu, 4096),
        device(PhysicalDeviceType::DiscreteGpu, 8192),
    ];
    assert_eq!(pick_physical_device(&devices), Some(1));

    let reversed = vec![
        device(PhysicalDeviceType::DiscreteGpu, 8192),
        device(PhysicalDeviceType::IntegratedGpu, 4096),
    ];
    assert_eq!(pick_physical_device(&reversed), Some(0));
}

#[test]
fn score_ties_go_to_the_first_device() {
    let devices = vec![
        device(PhysicalDeviceType::IntegratedGpu, 4096),
        device(PhysicalDeviceType::IntegratedGpu, 4096),
    ];
    assert_eq!(pick_physical_device(&devices), Some(0));
}

#[test]
fn unsuitable_devices_are_skipped_entirely() {
    let mut broken = device(PhysicalDeviceType::DiscreteGpu, 8192);
    broken.extensions = ExtensionSet { khr_swapchain: false };
    let devices = vec![broken, device(PhysicalDeviceType::Cpu, 1024)];
    assert_eq!(pick_physical_device(&devices), Some(1));
}

#[test]
fn no_suitable_device_yields_none() {
    let mut broken = device(PhysicalDeviceType::DiscreteGpu, 8192);
    broken.queue_families =
        vec![QueueFamilyCaps { supports_graphics: false, supports_present: true }];
    let devices = vec![broken];
    assert_eq!(pick_physical_device(&devices), None);
    let empty: Vec<DeviceInfo> = vec![];
    assert_eq!(pick_physical_device(&empty), None);
}

#[test]
fn scenario_identical_families_share_one_queue() {
    let indices = QueueFamilyIndices { graphics_family: 2, present_family: 2 };
    let families = unique_queue_families(&indices);
    assert_eq!(families, vec![2]);
    assert!(present_aliases_graphics(&indices));
}

#[test]
fn distinct_families_request_two_queues() {
    let indices = QueueFamilyIndices { graphics_family: 0, present_family: 1 };
    let families = unique_queue_families(&indices);
    assert_eq!(families, vec![0, 1]);
    assert!(!present_aliases_graphics(&indices));
}
