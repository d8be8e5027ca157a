use bi_turbo::device::{
    check_device_extension_support, check_validation_layer_support, find_memory_type,
    find_queue_family, get_max_sample_count, pick_physical_device, Device, PhysicalDeviceInfo,
    PhysicalDeviceType, QueueFamilyIndices, QueueFamilyProperties, SampleCount,
    SwapchainSupportDetail,
};
use bi_turbo::shader::{shader_stage_from_tag, Shader, ShaderLoader, ShaderModule, ShaderStage};
use bi_turbo::swapchain::{
    choose_image_count, choose_swapchain_extent, choose_swapchain_format,
    choose_swapchain_present_mode, find_supported_format, get_optimal_depth_format, ColorSpace,
    Extent2D, Format, FormatProperties, FormatSupport, ImageTiling, PresentMode,
    SurfaceCapabilities, SurfaceFormat, SwapChain,
};
use bi_turbo::ConfigurationError;

fn caps() -> SurfaceCapabilities {
    SurfaceCapabilities {
        min_image_count: 2,
        max_image_count: 3,
        current_extent: Extent2D { width: u32::MAX, height: 0 },
        min_image_extent: Extent2D { width: 10, height: 20 },
        max_image_extent: Extent2D { width: 1000, height: 2000 },
    }
}

fn full_queue_family() -> QueueFamilyProperties {
    QueueFamilyProperties { queue_count: 1, supports_graphics: true, supports_present: true }
}

fn good_support() -> SwapchainSupportDetail {
    SwapchainSupportDetail {
        capabilities: caps(),
        formats: vec![SurfaceFormat {
            format: Format::Other(44),
            color_space: ColorSpace::SrgbNonlinear,
        }],
        present_modes: vec![PresentMode::Fifo],
    }
}

fn device_info(kind: PhysicalDeviceType) -> PhysicalDeviceInfo {
    PhysicalDeviceInfo {
        device_type: kind,
        queue_families: vec![full_queue_family()],
        available_extensions: vec![String::from("VK_KHR_swapchain")],
        swapchain_support: good_support(),
        color_sample_mask: 0x2b,
        depth_sample_mask: 0xf,
        memory_type_flags: vec![0x0, 0x6, 0x1],
    }
}

#[test]
fn picks_discrete_gpu_over_integrated() {
    let devices = vec![
        device_info(PhysicalDeviceType::IntegratedGpu),
        device_info(PhysicalDeviceType::DiscreteGpu),
    ];
    assert_eq!(pick_physical_device(&devices), Ok(1));
}

#[test]
fn falls_back_to_first_suitable_device() {
    let devices = vec![
        device_info(PhysicalDeviceType::Cpu),
        device_info(PhysicalDeviceType::IntegratedGpu),
    ];
    assert_eq!(pick_physical_device(&devices), Ok(0));
}

#[test]
fn no_devices_is_no_suitable_adapter() {
    assert_eq!(
        pick_physical_device(&Vec::new()),
        Err(ConfigurationError::NoSuitableAdapter)
    );
}

#[test]
fn missing_queue_family_is_reported() {
    let mut info = device_info(PhysicalDeviceType::DiscreteGpu);
    info.queue_families = vec![QueueFamilyProperties {
        queue_count: 1,
        supports_graphics: false,
        supports_present: true,
    }];
    assert_eq!(
        pick_physical_device(&vec![info]),
        Err(ConfigurationError::MissingQueueFamily)
    );
}

#[test]
fn missing_extension_is_reported() {
    let mut info = device_info(PhysicalDeviceType::DiscreteGpu);
    info.available_extensions = vec![String::from("VK_KHR_maintenance1")];
    assert_eq!(
        pick_physical_device(&vec![info]),
        Err(ConfigurationError::MissingExtension)
    );
}

#[test]
fn empty_surface_formats_is_no_suitable_adapter() {
    let mut info = device_info(PhysicalDeviceType::DiscreteGpu);
    info.swapchain_support.formats = Vec::new();
    assert_eq!(
        pick_physical_device(&vec![info]),
        Err(ConfigurationError::NoSuitableAdapter)
    );
}

#[test]
fn device_records_the_chosen_queue_indices() {
    let dev = Device::new(&vec![device_info(PhysicalDeviceType::DiscreteGpu)]).unwrap();
    assert_eq!(dev.physical_index, 0);
    assert_eq!(dev.queue_indices.graphics_family, Some(0));
    assert_eq!(dev.queue_indices.present_family, Some(0));
    assert_eq!(dev.queue_families_to_create(), vec![0]);
}

#[test]
fn queue_family_scan_stops_at_first_complete() {
    let families = vec![
        QueueFamilyProperties { queue_count: 1, supports_graphics: true, supports_present: false },
        QueueFamilyProperties { queue_count: 1, supports_graphics: false, supports_present: true },
        QueueFamilyProperties { queue_count: 1, supports_graphics: true, supports_present: true },
    ];
    let r = find_queue_family(&families);
    assert_eq!(r.graphics_family, Some(0));
    assert_eq!(r.present_family, Some(1));
    assert!(r.is_complete());
    // An empty family contributes nothing.
    let empty = vec![QueueFamilyProperties {
        queue_count: 0,
        supports_graphics: true,
        supports_present: true,
    }];
    assert_eq!(find_queue_family(&empty), QueueFamilyIndices::new());
}

#[test]
fn extension_and_layer_checks_match_by_name() {
    assert!(check_device_extension_support(&vec![
        String::from("VK_EXT_debug_utils"),
        String::from("VK_KHR_swapchain"),
    ]));
    assert!(!check_device_extension_support(&vec![String::from("VK_KHR_swap")]));
    assert!(check_validation_layer_support(&vec![String::from(
        "VK_LAYER_KHRONOS_validation"
    )]));
    assert!(!check_validation_layer_support(&Vec::new()));
}

#[test]
fn preferred_surface_format_wins() {
    let available = vec![
        SurfaceFormat { format: Format::Other(3), color_space: ColorSpace::Other(9) },
        SurfaceFormat { format: Format::B8G8R8A8Srgb, color_space: ColorSpace::SrgbNonlinear },
    ];
    let chosen = choose_swapchain_format(&available);
    assert_eq!(chosen.format, Format::B8G8R8A8Srgb);
    assert_eq!(chosen.color_space, ColorSpace::SrgbNonlinear);
}

#[test]
fn first_format_is_the_fallback() {
    let available = vec![
        SurfaceFormat { format: Format::Other(3), color_space: ColorSpace::Other(9) },
        SurfaceFormat { format: Format::Other(4), color_space: ColorSpace::SrgbNonlinear },
    ];
    assert_eq!(choose_swapchain_format(&available), available[0]);
}

#[test]
fn mailbox_present_mode_wins_else_fifo() {
    assert_eq!(
        choose_swapchain_present_mode(&vec![PresentMode::Immediate, PresentMode::Mailbox]),
        PresentMode::Mailbox
    );
    assert_eq!(
        choose_swapchain_present_mode(&vec![PresentMode::Immediate, PresentMode::FifoRelaxed]),
        PresentMode::Fifo
    );
}

#[test]
fn extent_follows_surface_or_clamps() {
    // A fixed surface extent is taken as is.
    let mut fixed = caps();
    fixed.current_extent = Extent2D { width: 640, height: 480 };
    assert_eq!(
        choose_swapchain_extent(&fixed, 5, 5),
        Extent2D { width: 640, height: 480 }
    );
    // Otherwise the request is clamped into the surface bounds.
    assert_eq!(
        choose_swapchain_extent(&caps(), 5, 5000),
        Extent2D { width: 10, height: 2000 }
    );
}

#[test]
fn image_count_is_min_plus_one_capped() {
    assert_eq!(choose_image_count(&caps()), 3);
    let mut unbounded = caps();
    unbounded.max_image_count = 0;
    assert_eq!(choose_image_count(&unbounded), 3);
    let mut tight = caps();
    tight.min_image_count = 3;
    assert_eq!(choose_image_count(&tight), 3);
}

#[test]
fn depth_format_prefers_d32() {
    let props = FormatProperties { linear_tiling_features: 0, optimal_tiling_features: 0x200 };
    let supports = vec![
        FormatSupport { format: Format::D24UnormS8Uint, properties: props },
        FormatSupport { format: Format::D32Sfloat, properties: props },
    ];
    assert_eq!(get_optimal_depth_format(&supports), Ok(Format::D32Sfloat));
    // A candidate without depth/stencil support is skipped.
    let weak = FormatProperties { linear_tiling_features: 0x200, optimal_tiling_features: 0 };
    let supports = vec![
        FormatSupport { format: Format::D32Sfloat, properties: weak },
        FormatSupport { format: Format::D24UnormS8Uint, properties: props },
    ];
    assert_eq!(get_optimal_depth_format(&supports), Ok(Format::D24UnormS8Uint));
    assert_eq!(
        get_optimal_depth_format(&Vec::new()),
        Err(ConfigurationError::NoSupportedFormat)
    );
}

#[test]
fn swapchain_creation_fails_without_depth_format() {
    let r = SwapChain::new(
        &caps(),
        &vec![SurfaceFormat { format: Format::B8G8R8A8Srgb, color_space: ColorSpace::SrgbNonlinear }],
        &vec![PresentMode::Fifo],
        &Vec::new(),
        640,
        480,
        2,
    );
    assert!(matches!(r, Err(ConfigurationError::NoSupportedFormat)));
}

#[test]
fn find_supported_format_takes_the_first_match() {
    let supports = vec![
        FormatSupport {
            format: Format::Other(1),
            properties: FormatProperties { linear_tiling_features: 0x1, optimal_tiling_features: 0 },
        },
        FormatSupport {
            format: Format::Other(2),
            properties: FormatProperties { linear_tiling_features: 0x3, optimal_tiling_features: 0 },
        },
    ];
    assert_eq!(
        find_supported_format(&supports, ImageTiling::Linear, 0x3),
        Ok(Format::Other(2))
    );
    assert_eq!(
        find_supported_format(&supports, ImageTiling::Optimal, 0x1),
        Err(ConfigurationError::NoSupportedFormat)
    );
}

#[test]
fn max_sample_count_is_highest_common_bit() {
    assert_eq!(get_max_sample_count(0x7f, 0x7f), SampleCount::Type64);
    assert_eq!(get_max_sample_count(0x2b, 0xf), SampleCount::Type8);
    assert_eq!(get_max_sample_count(0x1, 0x7f), SampleCount::Type1);
}

#[test]
fn memory_type_respects_filter_and_properties() {
    let flags = vec![0x0, 0x6, 0x6];
    // Type 1 matches but is filtered out; type 2 is the answer.
    assert_eq!(find_memory_type(0b100, 0x6, &flags), Some(2));
    assert_eq!(find_memory_type(0b111, 0x6, &flags), Some(1));
    assert_eq!(find_memory_type(0b001, 0x6, &flags), None);
}

#[test]
fn shader_stage_tags_map_exactly() {
    assert_eq!(shader_stage_from_tag("vert"), Ok(ShaderStage::Vertex));
    assert_eq!(shader_stage_from_tag("Vertex"), Ok(ShaderStage::Vertex));
    assert_eq!(shader_stage_from_tag("vs"), Ok(ShaderStage::Vertex));
    assert_eq!(shader_stage_from_tag("frag"), Ok(ShaderStage::Fragment));
    assert_eq!(shader_stage_from_tag("tesc"), Ok(ShaderStage::TessellationControl));
    assert_eq!(shader_stage_from_tag("tese"), Ok(ShaderStage::TessellationEvaluation));
    assert_eq!(shader_stage_from_tag("geom"), Ok(ShaderStage::Geometry));
    assert_eq!(shader_stage_from_tag("comp"), Ok(ShaderStage::Compute));
    assert_eq!(
        shader_stage_from_tag("metal"),
        Err(ConfigurationError::UnknownShaderStage)
    );
}

#[test]
fn shader_loader_accepts_vert_and_frag_only() {
    let s: Shader =
        ShaderLoader::load(String::from("void main(){}"), "vert", vec![1, 2, 3]).unwrap();
    assert_eq!(s.variant, "Vertex");
    assert_eq!(s.raw_code, "void main(){}");
    assert_eq!(s.byte_code, vec![1, 2, 3]);
    let s = ShaderLoader::load(String::from("void main(){}"), "frag", vec![9]).unwrap();
    assert_eq!(s.variant, "Fragment");
    let r = ShaderLoader::load(String::from("void main(){}"), "hlsl", vec![]);
    assert!(matches!(r, Err(ConfigurationError::UnknownShaderStage)));
}

#[test]
fn shader_module_resolves_stage_or_rejects() {
    let m = ShaderModule::new(&vec![0, 1, 2, 3], "Fragment").unwrap();
    assert_eq!(m.get_stage_flags(), ShaderStage::Fragment);
    assert_eq!(m.code_size, 4);
    assert!(ShaderModule::new(&vec![], "wgsl").is_err());
}
