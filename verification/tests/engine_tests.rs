use vulkan_frame::commands::record_commands;
use vulkan_frame::commands::record_image_commands;
use vulkan_frame::commands::DrawCommand;
use vulkan_frame::device::find_memory_type;
use vulkan_frame::handles::as_raw_handles;
use vulkan_frame::handles::to_raw_handles;
use vulkan_frame::physical_device::check_device_extension_support;
use vulkan_frame::physical_device::get_device_type;
use vulkan_frame::physical_device::find_graphics_queue_family;
use vulkan_frame::physical_device::find_presentation_queue_family;
use vulkan_frame::physical_device::rate_device_suitability;
use vulkan_frame::physical_device::select_best_device;
use vulkan_frame::physical_device::DeviceType;
use vulkan_frame::physical_device::VkQueueFamily;
use vulkan_frame::physical_device::QUEUE_GRAPHICS_BIT;
use vulkan_frame::surface::VkExtent2D;
use vulkan_frame::surface::VkSurfaceCapabilities;
use vulkan_frame::surface::VkSurfaceFormat;
use vulkan_frame::swap_chain::VkSwapChain;
use vulkan_frame::sync::VkFence;
use vulkan_frame::sync::VkSemaphore;
use vulkan_frame::version::VkVersion;
use vulkan_frame::VulkanSettings;

#[test]
fn version_parse_unpacks_the_components() {
    let packed: u32 = (1 << 22) | (2 << 12) | 189;
    let version = VkVersion::parse(packed);
    assert_eq!(version.major, 1);
    assert_eq!(version.minor, 2);
    assert_eq!(version.patch, 189);
}

#[test]
fn version_parse_zero() {
    let version = VkVersion::parse(0);
    assert_eq!((version.major, version.minor, version.patch), (0, 0, 0));
}

#[test]
fn settings_keep_the_validation_flag() {
    assert!(VulkanSettings::new(true).validation);
    assert!(!VulkanSettings::new(false).validation);
}

#[test]
fn raw_handles_are_collected_in_order() {
    let a = VkFence::new(11);
    let b = VkFence::new(22);
    assert_eq!(to_raw_handles(&[&a, &b]), vec![11, 22]);
    let s = [VkSemaphore::new(5), VkSemaphore::new(6)];
    assert_eq!(as_raw_handles(&s), vec![5, 6]);
}

#[test]
fn memory_type_search_honors_filter_and_properties() {
    // Type filter names types 1 and 2; only type 1 carries both
    // required property flags.
    let flags = vec![0x1u32, 0x3, 0x7];
    let index = find_memory_type(0b0110, &flags, 0x3);
    assert_eq!(index, 1);
    // The first acceptable type wins.
    let index2 = find_memory_type(0b0111, &flags, 0x1);
    assert_eq!(index2, 0);
}

#[test]
fn device_type_numbers_map_to_kinds() {
    assert_eq!(get_device_type(4), DeviceType::Cpu);
    assert_eq!(get_device_type(1), DeviceType::IntegratedGpu);
    assert_eq!(get_device_type(2), DeviceType::DiscreteGpu);
    assert_eq!(get_device_type(3), DeviceType::VirtualGpu);
    assert_eq!(get_device_type(0), DeviceType::Other);
    assert_eq!(get_device_type(77), DeviceType::Other);
}

#[test]
fn queue_family_search_finds_the_first_usable_family() {
    let families = vec![
        VkQueueFamily::new(0, 0, QUEUE_GRAPHICS_BIT),
        VkQueueFamily::new(1, 2, 0),
        VkQueueFamily::new(2, 1, QUEUE_GRAPHICS_BIT),
    ];
    assert_eq!(find_graphics_queue_family(&families), Some(2));
    let support = vec![false, true, true];
    assert_eq!(find_presentation_queue_family(&families, &support), Some(1));
    let no_support = vec![false, false, false];
    assert_eq!(find_presentation_queue_family(&families, &no_support), None);
}

#[test]
fn suitability_rating_scores_by_device_kind() {
    let families = vec![VkQueueFamily::new(0, 1, QUEUE_GRAPHICS_BIT)];
    let support = vec![true];
    let score = rate_device_suitability(DeviceType::DiscreteGpu, &families, &support, 3, 2, true, true);
    assert_eq!(score, 100);
    let score2 =
        rate_device_suitability(DeviceType::IntegratedGpu, &families, &support, 3, 2, true, true);
    assert_eq!(score2, 50);
    let score3 = rate_device_suitability(DeviceType::Cpu, &families, &support, 3, 2, true, true);
    assert_eq!(score3, 0);
}

#[test]
fn unusable_devices_rate_negative() {
    let no_graphics = vec![VkQueueFamily::new(0, 1, 0)];
    let support = vec![true];
    assert_eq!(
        rate_device_suitability(DeviceType::DiscreteGpu, &no_graphics, &support, 3, 2, true, true),
        -1
    );
    let families = vec![VkQueueFamily::new(0, 1, QUEUE_GRAPHICS_BIT)];
    let no_support = vec![false];
    assert_eq!(
        rate_device_suitability(DeviceType::DiscreteGpu, &families, &no_support, 3, 2, true, true),
        -1
    );
    assert_eq!(
        rate_device_suitability(DeviceType::DiscreteGpu, &families, &support, 0, 2, true, true),
        -1
    );
    assert_eq!(
        rate_device_suitability(DeviceType::DiscreteGpu, &families, &support, 3, 2, false, true),
        -1
    );
    assert_eq!(
        rate_device_suitability(DeviceType::DiscreteGpu, &families, &support, 3, 2, true, false),
        -1
    );
}

#[test]
fn best_device_selection_takes_the_first_maximum() {
    assert_eq!(select_best_device(&vec![-1, 50, 100, 100]), Some(2));
    assert_eq!(select_best_device(&vec![0, 0]), Some(0));
    assert_eq!(select_best_device(&vec![-1, -1]), None);
    assert_eq!(select_best_device(&Vec::new()), None);
}

#[test]
fn extension_support_requires_every_name() {
    let available = vec![10u64, 20, 30];
    assert!(check_device_extension_support(&available, &vec![20, 30]));
    assert!(check_device_extension_support(&available, &Vec::new()));
    assert!(!check_device_extension_support(&available, &vec![20, 40]));
}

#[test]
fn swap_chain_tracks_images_one_to_one() {
    let caps = VkSurfaceCapabilities {
        min_image_count: 2,
        max_image_count: 0,
        current_extent: VkExtent2D { width: 640, height: 480 },
        min_image_extent: VkExtent2D { width: 1, height: 1 },
        max_image_extent: VkExtent2D { width: 4096, height: 4096 },
    };
    let format = VkSurfaceFormat { format: 44, color_space: 0 };
    let mut chain = VkSwapChain::new(&caps, format, 2, 3, &[640, 480]);
    assert_eq!(chain.extent, VkExtent2D { width: 640, height: 480 });
    assert_eq!(chain.image_count(), 0);
    chain.initialize_images(&vec![100, 101, 102], &vec![200, 201, 202], &vec![300, 301, 302]);
    assert_eq!(chain.image_count(), 3);
    for (k, image) in chain.images.iter().enumerate() {
        assert_eq!(image.image, 100 + k as u64);
        assert_eq!(image.view, 200 + k as u64);
        assert_eq!(image.framebuffer, 300 + k as u64);
        assert_eq!(image.command_buffer, k);
    }
    chain.cleanup_images();
    assert_eq!(chain.image_count(), 0);
    assert_eq!(chain.extent, VkExtent2D { width: 640, height: 480 });
}

#[test]
fn recorded_commands_follow_the_fixed_sequence() {
    let extent = VkExtent2D { width: 640, height: 480 };
    let commands = record_image_commands(2, extent, 12);
    assert_eq!(
        commands,
        vec![
            DrawCommand::BeginCommandBuffer,
            DrawCommand::BeginRenderPass { width: 640, height: 480 },
            DrawCommand::BindPipeline,
            DrawCommand::BindVertexBuffer,
            DrawCommand::BindIndexBuffer,
            DrawCommand::BindDescriptorSet { set_index: 2 },
            DrawCommand::DrawIndexed { index_count: 12 },
            DrawCommand::EndRenderPass,
            DrawCommand::EndCommandBuffer,
        ]
    );
}

#[test]
fn one_command_buffer_is_recorded_per_image() {
    let extent = VkExtent2D { width: 640, height: 480 };
    let buffers = record_commands(3, extent, 12);
    assert_eq!(buffers.len(), 3);
    for (k, buffer) in buffers.iter().enumerate() {
        assert_eq!(buffer.len(), 9);
        assert_eq!(buffer[5], DrawCommand::BindDescriptorSet { set_index: k });
    }
}
