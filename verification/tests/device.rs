use ash::extensions::{ext, khr};
use lve_rs::device::{
    CommandPoolCreateInfo, Device, DeviceError, DeviceObject, FormatCandidate, MemoryType,
    PhysicalDeviceInfo, QueryFamilyIndices, QueueFamily, SingleTimeCommands, TransferStep,
};
use lve_rs::extensions::{contains_name, supports_all};
use lve_rs::surface::SwapChainSupportDetails;
use lve_rs::vulkan::{
    ColorSpace, Extent2D, Format, ImageTiling, PresentMode, SurfaceCapabilities, SurfaceFormat,
};
use std::collections::HashSet;

fn family(queue_count: u32, queue_flags: u32, present_support: bool) -> QueueFamily {
    QueueFamily { queue_count, queue_flags, present_support }
}

fn names(list: &[&str]) -> Vec<String> {
    list.iter().map(|name| name.to_string()).collect()
}

fn support(formats: usize, modes: usize) -> SwapChainSupportDetails {
    SwapChainSupportDetails {
        capabilities: SurfaceCapabilities {
            min_image_count: 2,
            max_image_count: 0,
            current_extent: Extent2D { width: 800, height: 600 },
            min_image_extent: Extent2D { width: 1, height: 1 },
            max_image_extent: Extent2D { width: 4096, height: 4096 },
            current_transform: 1,
        },
        formats: vec![
            SurfaceFormat { format: Format { raw: 50 }, color_space: ColorSpace { raw: 0 } };
            formats
        ],
        present_modes: vec![PresentMode { raw: 2 }; modes],
    }
}

fn adapter(families: Vec<QueueFamily>, extensions: &[&str]) -> PhysicalDeviceInfo {
    PhysicalDeviceInfo {
        queue_families: families,
        extensions: names(extensions),
        support: support(1, 1),
    }
}

#[test]
fn none_has_no_family() {
    let indices = QueryFamilyIndices::none();
    assert_eq!(indices.graphics_family, None);
    assert_eq!(indices.present_family, None);
    assert!(!indices.is_complete());
}

#[test]
fn complete_needs_both_families() {
    assert!(QueryFamilyIndices { graphics_family: Some(0), present_family: Some(0) }.is_complete());
    assert!(!QueryFamilyIndices { graphics_family: Some(0), present_family: None }.is_complete());
    assert!(!QueryFamilyIndices { graphics_family: None, present_family: Some(3) }.is_complete());
}

#[test]
fn unique_families_of_one_family_is_one() {
    let indices = QueryFamilyIndices { graphics_family: Some(2), present_family: Some(2) };
    assert_eq!(indices.unique_queue_families(), Ok(HashSet::from([2])));
}

#[test]
fn unique_families_of_two_families_is_two() {
    let indices = QueryFamilyIndices { graphics_family: Some(0), present_family: Some(1) };
    assert_eq!(indices.unique_queue_families(), Ok(HashSet::from([0, 1])));
}

#[test]
fn unique_families_reports_the_missing_family() {
    let neither = QueryFamilyIndices::none();
    assert_eq!(neither.unique_queue_families(), Err(DeviceError::GraphicsFamilyMissing));
    let no_graphics = QueryFamilyIndices { graphics_family: None, present_family: Some(0) };
    assert_eq!(no_graphics.unique_queue_families(), Err(DeviceError::GraphicsFamilyMissing));
    let no_present = QueryFamilyIndices { graphics_family: Some(0), present_family: None };
    assert_eq!(no_present.unique_queue_families(), Err(DeviceError::PresentFamilyMissing));
}

#[test]
fn observe_takes_capable_families() {
    let mut indices = QueryFamilyIndices::none();
    indices.observe(0, &family(1, 0x2, false));
    assert_eq!((indices.graphics_family, indices.present_family), (None, None));
    indices.observe(1, &family(0, 0x1, true));
    assert_eq!((indices.graphics_family, indices.present_family), (None, None));
    indices.observe(2, &family(4, 0x7, false));
    assert_eq!((indices.graphics_family, indices.present_family), (Some(2), None));
    indices.observe(3, &family(1, 0x1, true));
    assert_eq!((indices.graphics_family, indices.present_family), (Some(3), Some(3)));
}

#[test]
fn scan_stops_once_both_families_are_found() {
    let families = vec![
        family(1, 0x1, false),
        family(1, 0x4, true),
        family(1, 0x1, true),
    ];
    let indices = QueryFamilyIndices::find_queue_families(&families);
    assert_eq!(indices.graphics_family, Some(0));
    assert_eq!(indices.present_family, Some(1));
}

#[test]
fn scan_keeps_the_last_capable_family_before_it_is_complete() {
    let families = vec![
        family(1, 0x1, false),
        family(2, 0x3, false),
        family(1, 0x0, true),
    ];
    let indices = QueryFamilyIndices::find_queue_families(&families);
    assert_eq!(indices.graphics_family, Some(1));
    assert_eq!(indices.present_family, Some(2));
}

#[test]
fn scan_of_incapable_families_finds_nothing() {
    let families = vec![family(0, 0x1, true), family(3, 0x6, false)];
    let indices = QueryFamilyIndices::find_queue_families(&families);
    assert_eq!(indices.graphics_family, None);
    assert_eq!(indices.present_family, None);
    let empty = QueryFamilyIndices::find_queue_families(&Vec::new());
    assert!(!empty.is_complete());
}

#[test]
fn device_extension_name_is_the_swapchain_extension() {
    let extensions = Device::device_extensions();
    assert_eq!(extensions, vec!["VK_KHR_swapchain".to_string()]);
    assert_eq!(extensions[0].as_bytes(), khr::Swapchain::name().to_bytes());
}

#[test]
fn validation_layer_is_the_khronos_layer() {
    assert_eq!(Device::validation_layers(), vec!["VK_LAYER_KHRONOS_validation".to_string()]);
}

#[test]
fn required_extensions_end_with_debug_utils_under_validation() {
    let window = names(&["VK_KHR_surface", "VK_KHR_xcb_surface"]);
    assert_eq!(Device::get_required_extensions(&window, false), window);
    let with_debug = Device::get_required_extensions(&window, true);
    assert_eq!(
        with_debug,
        names(&["VK_KHR_surface", "VK_KHR_xcb_surface", "VK_EXT_debug_utils"])
    );
    assert_eq!(with_debug[2].as_bytes(), ext::DebugUtils::name().to_bytes());
}

#[test]
fn every_required_name_must_be_offered() {
    let required = names(&["a", "b"]);
    assert!(supports_all(&required, &names(&["x", "a", "y", "b", "z"])));
    assert!(supports_all(&required, &names(&["b", "c", "a"])));
    assert!(!supports_all(&required, &names(&["x", "a"])));
    assert!(!supports_all(&required, &names(&["b", "c"])));
    assert!(!supports_all(&required, &names(&[])));
    assert!(supports_all(&names(&[]), &names(&["b"])));
    assert!(supports_all(&names(&[]), &names(&[])));
    assert!(contains_name(&required, &"b".to_string()));
    assert!(!contains_name(&required, &"c".to_string()));
}

#[test]
fn a_name_listed_twice_counts_once() {
    let required = names(&["a", "b"]);
    assert!(!supports_all(&required, &names(&["a", "a"])));
    assert!(supports_all(&required, &names(&["a", "b", "b"])));
    assert!(supports_all(&names(&["a"]), &names(&["a", "a"])));
    assert!(supports_all(&names(&["a", "a"]), &names(&["a"])));
    assert!(Device::check_device_extension_support(&names(&[
        "VK_KHR_swapchain",
        "VK_KHR_swapchain",
    ])));
    assert_eq!(
        Device::has_required_instance_extensions(&names(&["a", "b"]), &names(&["a", "a"])),
        Err(DeviceError::MissingExtension)
    );
    assert_eq!(
        Device::has_required_instance_extensions(&names(&["a"]), &names(&["a", "a"])),
        Ok(())
    );
}

#[test]
fn device_extension_support_needs_the_swapchain_extension() {
    assert!(Device::check_device_extension_support(&names(&[
        "VK_KHR_maintenance1",
        "VK_KHR_swapchain",
    ])));
    assert!(!Device::check_device_extension_support(&names(&["VK_KHR_maintenance1"])));
    assert!(!Device::check_device_extension_support(&names(&[])));
}

#[test]
fn validation_layer_support_needs_the_layer() {
    assert!(Device::check_validation_layer_support(&names(&[
        "VK_LAYER_MESA_overlay",
        "VK_LAYER_KHRONOS_validation",
    ])));
    assert!(!Device::check_validation_layer_support(&names(&["VK_LAYER_MESA_overlay"])));
}

#[test]
fn instance_without_validation_enables_the_window_extensions() {
    let window = names(&["VK_KHR_surface"]);
    let info = Device::create_instance(false, &names(&[]), &window, &names(&["VK_KHR_surface"]))
        .unwrap();
    assert_eq!(info.extensions, window);
    assert!(info.layers.is_empty());
    assert!(!info.debug_messenger);
}

#[test]
fn instance_with_validation_enables_layer_and_debug_utils() {
    let info = Device::create_instance(
        true,
        &names(&["VK_LAYER_KHRONOS_validation"]),
        &names(&["VK_KHR_surface"]),
        &names(&["VK_EXT_debug_utils", "VK_KHR_surface", "VK_KHR_display"]),
    )
    .unwrap();
    assert_eq!(info.extensions, names(&["VK_KHR_surface", "VK_EXT_debug_utils"]));
    assert_eq!(info.layers, names(&["VK_LAYER_KHRONOS_validation"]));
    assert!(info.debug_messenger);
}

#[test]
fn instance_is_refused_without_the_validation_layer() {
    let refused = Device::create_instance(
        true,
        &names(&["VK_LAYER_MESA_overlay"]),
        &names(&["VK_KHR_surface"]),
        &names(&["VK_EXT_debug_utils", "VK_KHR_surface"]),
    );
    assert_eq!(refused.unwrap_err(), DeviceError::ValidationLayersUnavailable);
}

#[test]
fn instance_is_refused_without_a_required_extension() {
    let refused = Device::create_instance(
        false,
        &names(&[]),
        &names(&["VK_KHR_surface", "VK_KHR_wayland_surface"]),
        &names(&["VK_KHR_surface"]),
    );
    assert_eq!(refused.unwrap_err(), DeviceError::MissingExtension);
    assert_eq!(
        Device::has_required_instance_extensions(&names(&["a"]), &names(&["b"])),
        Err(DeviceError::MissingExtension)
    );
    assert_eq!(Device::has_required_instance_extensions(&names(&["a"]), &names(&["a"])), Ok(()));
}

#[test]
fn suitable_adapter_has_everything() {
    let good = adapter(vec![family(1, 0x1, true)], &["VK_KHR_swapchain"]);
    assert!(Device::is_device_suitable(&good));
}

#[test]
fn adapter_is_unsuitable_when_anything_is_missing() {
    let no_present = adapter(vec![family(1, 0x1, false)], &["VK_KHR_swapchain"]);
    assert!(!Device::is_device_suitable(&no_present));
    let no_graphics = adapter(vec![family(1, 0x2, true)], &["VK_KHR_swapchain"]);
    assert!(!Device::is_device_suitable(&no_graphics));
    let no_extension = adapter(vec![family(1, 0x1, true)], &["VK_KHR_other"]);
    assert!(!Device::is_device_suitable(&no_extension));
    let mut no_formats = adapter(vec![family(1, 0x1, true)], &["VK_KHR_swapchain"]);
    no_formats.support = support(0, 1);
    assert!(!Device::is_device_suitable(&no_formats));
    let mut no_modes = adapter(vec![family(1, 0x1, true)], &["VK_KHR_swapchain"]);
    no_modes.support = support(1, 0);
    assert!(!Device::is_device_suitable(&no_modes));
}

#[test]
fn first_suitable_adapter_is_picked() {
    let adapters = vec![
        adapter(vec![family(1, 0x1, false)], &["VK_KHR_swapchain"]),
        adapter(vec![family(1, 0x1, true)], &["VK_KHR_swapchain"]),
        adapter(vec![family(1, 0x1, true)], &["VK_KHR_swapchain"]),
    ];
    assert_eq!(Device::pick_physical_device(&adapters), Ok(1));
}

#[test]
fn no_suitable_adapter_is_device_unavailable() {
    let adapters = vec![adapter(vec![family(1, 0x1, false)], &["VK_KHR_swapchain"])];
    assert_eq!(Device::pick_physical_device(&adapters), Err(DeviceError::DeviceUnavailable));
    assert_eq!(Device::pick_physical_device(&Vec::new()), Err(DeviceError::DeviceUnavailable));
}

#[test]
fn memory_type_is_the_first_allowed_with_all_properties() {
    let indices = QueryFamilyIndices { graphics_family: Some(0), present_family: Some(0) };
    let types = vec![
        MemoryType { property_flags: 0x1, heap_index: 0 },
        MemoryType { property_flags: 0x6, heap_index: 1 },
        MemoryType { property_flags: 0x7, heap_index: 1 },
        MemoryType { property_flags: 0x6, heap_index: 1 },
    ];
    let device = Device::new(&indices, types, false).unwrap();
    assert_eq!(device.find_memory_type(0b1111, 0x6), Ok(1));
    assert_eq!(device.find_memory_type(0b1100, 0x6), Ok(2));
    assert_eq!(device.find_memory_type(0b1000, 0x6), Ok(3));
    assert_eq!(device.find_memory_type(0b1111, 0x1), Ok(0));
    assert_eq!(device.find_memory_type(0b1111, 0x0), Ok(0));
    assert_eq!(device.find_memory_type(0b1010, 0x1), Err(DeviceError::NoSuitableMemory));
    assert_eq!(device.find_memory_type(0b1111, 0x8), Err(DeviceError::NoSuitableMemory));
    assert_eq!(device.find_memory_type(0, 0x1), Err(DeviceError::NoSuitableMemory));
}

#[test]
fn memory_types_beyond_the_filter_are_never_found() {
    let indices = QueryFamilyIndices { graphics_family: Some(0), present_family: Some(0) };
    let mut types = vec![MemoryType { property_flags: 0, heap_index: 0 }; 32];
    types.push(MemoryType { property_flags: 0x1, heap_index: 0 });
    let device = Device::new(&indices, types, false).unwrap();
    assert_eq!(device.find_memory_type(u32::MAX, 0x1), Err(DeviceError::NoSuitableMemory));
    let mut last = vec![MemoryType { property_flags: 0, heap_index: 0 }; 31];
    last.push(MemoryType { property_flags: 0x1, heap_index: 0 });
    let device = Device::new(&indices, last, false).unwrap();
    assert_eq!(device.find_memory_type(0x8000_0000, 0x1), Ok(31));
}

#[test]
fn supported_format_is_the_first_candidate_with_the_features() {
    let candidates = vec![
        FormatCandidate {
            format: Format { raw: 126 },
            linear_tiling_features: 0x200,
            optimal_tiling_features: 0x1,
        },
        FormatCandidate {
            format: Format { raw: 130 },
            linear_tiling_features: 0x0,
            optimal_tiling_features: 0x201,
        },
        FormatCandidate {
            format: Format { raw: 129 },
            linear_tiling_features: 0x200,
            optimal_tiling_features: 0x200,
        },
    ];
    assert_eq!(
        Device::find_supported_format(&candidates, ImageTiling::Optimal, 0x200),
        Ok(Format { raw: 130 })
    );
    assert_eq!(
        Device::find_supported_format(&candidates, ImageTiling::Linear, 0x200),
        Ok(Format { raw: 126 })
    );
    assert_eq!(
        Device::find_supported_format(&candidates, ImageTiling::Optimal, 0x201),
        Ok(Format { raw: 130 })
    );
    assert_eq!(
        Device::find_supported_format(&candidates, ImageTiling::Optimal, 0x400),
        Err(DeviceError::NoSupportedFormat)
    );
    assert_eq!(
        Device::find_supported_format(&candidates, ImageTiling::DrmFormatModifier, 0x0),
        Err(DeviceError::NoSupportedFormat)
    );
    assert_eq!(Device::find_depth_format(&candidates), Ok(Format { raw: 130 }));
    assert_eq!(Device::find_depth_format(&Vec::new()), Err(DeviceError::NoSupportedFormat));
}

#[test]
fn depth_candidates_are_tried_best_first() {
    assert_eq!(
        Device::depth_format_candidates(),
        vec![Format { raw: 126 }, Format { raw: 130 }, Format { raw: 129 }]
    );
}

#[test]
fn device_request_names_each_family_once() {
    let same = QueryFamilyIndices { graphics_family: Some(3), present_family: Some(3) };
    let info = Device::create_device(&same).unwrap();
    assert_eq!(info.queue_families, vec![3]);
    assert_eq!(info.extensions, vec!["VK_KHR_swapchain".to_string()]);
    assert_eq!((info.graphics_family, info.present_family), (3, 3));
    let two = QueryFamilyIndices { graphics_family: Some(0), present_family: Some(2) };
    let info = Device::create_device(&two).unwrap();
    assert_eq!(info.queue_families, vec![0, 2]);
    assert_eq!((info.graphics_family, info.present_family), (0, 2));
}

#[test]
fn device_request_reports_the_missing_family() {
    let none = QueryFamilyIndices::none();
    assert_eq!(Device::create_device(&none).unwrap_err(), DeviceError::GraphicsFamilyMissing);
    let no_present = QueryFamilyIndices { graphics_family: Some(0), present_family: None };
    assert_eq!(Device::create_device(&no_present).unwrap_err(), DeviceError::PresentFamilyMissing);
    assert_eq!(
        Device::new(&none, Vec::new(), false).unwrap_err(),
        DeviceError::GraphicsFamilyMissing
    );
    assert_eq!(
        Device::new(&no_present, Vec::new(), false).unwrap_err(),
        DeviceError::PresentFamilyMissing
    );
}

#[test]
fn command_pool_is_on_the_graphics_family() {
    let indices = QueryFamilyIndices { graphics_family: Some(5), present_family: None };
    assert_eq!(
        Device::create_command_pool(&indices),
        Ok(CommandPoolCreateInfo {
            queue_family_index: 5,
            transient: true,
            reset_command_buffer: true,
        })
    );
    assert_eq!(
        Device::create_command_pool(&QueryFamilyIndices::none()),
        Err(DeviceError::GraphicsFamilyMissing)
    );
}

#[test]
fn device_remembers_its_families() {
    let indices = QueryFamilyIndices { graphics_family: Some(1), present_family: Some(4) };
    let device = Device::new(&indices, Vec::new(), true).unwrap();
    let found = device.find_physical_queue_families();
    assert_eq!(found.graphics_family, Some(1));
    assert_eq!(found.present_family, Some(4));
    assert!(device.validation());
}

#[test]
fn device_is_torn_down_in_order() {
    let indices = QueryFamilyIndices { graphics_family: Some(0), present_family: Some(0) };
    let plain = Device::new(&indices, Vec::new(), false).unwrap();
    assert_eq!(
        plain.destroy(),
        vec![
            DeviceObject::CommandPool,
            DeviceObject::LogicalDevice,
            DeviceObject::Surface,
            DeviceObject::Instance,
        ]
    );
    let validated = Device::new(&indices, Vec::new(), true).unwrap();
    assert_eq!(
        validated.destroy(),
        vec![
            DeviceObject::CommandPool,
            DeviceObject::LogicalDevice,
            DeviceObject::Surface,
            DeviceObject::DebugMessenger,
            DeviceObject::Instance,
        ]
    );
}

#[test]
fn surface_support_is_adequate_with_a_format_and_a_mode() {
    assert!(support(1, 1).is_adequate());
    assert!(!support(0, 1).is_adequate());
    assert!(!support(1, 0).is_adequate());
}

#[test]
fn one_off_transfer_takes_one_primary_buffer() {
    assert_eq!(
        Device::begin_single_time_commands(),
        SingleTimeCommands { primary: true, count: 1, one_time_submit: true }
    );
}

#[test]
fn one_off_transfer_frees_its_buffer_after_the_queue_is_idle() {
    assert_eq!(
        Device::end_single_time_commands(),
        vec![
            TransferStep::EndRecording,
            TransferStep::Submit,
            TransferStep::WaitQueueIdle,
            TransferStep::FreeCommandBuffer,
        ]
    );
}
