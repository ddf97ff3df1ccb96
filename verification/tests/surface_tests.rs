use vulkan_frame::surface::choose_image_count;
use vulkan_frame::surface::choose_swapchain_extent;
use vulkan_frame::surface::choose_swapchain_surface_format;
use vulkan_frame::surface::choose_swapchain_surface_present_mode;
use vulkan_frame::surface::VkExtent2D;
use vulkan_frame::surface::VkSurfaceCapabilities;
use vulkan_frame::surface::VkSurfaceFormat;
use vulkan_frame::surface::COLOR_SPACE_SRGB_NONLINEAR;
use vulkan_frame::surface::FORMAT_B8G8R8A8_UNORM;
use vulkan_frame::surface::PRESENT_MODE_FIFO;
use vulkan_frame::surface::PRESENT_MODE_IMMEDIATE;
use vulkan_frame::surface::PRESENT_MODE_MAILBOX;

fn caps(
    min_image_count: u32,
    max_image_count: u32,
    current: (u32, u32),
    min_extent: (u32, u32),
    max_extent: (u32, u32),
) -> VkSurfaceCapabilities {
    VkSurfaceCapabilities {
        min_image_count,
        max_image_count,
        current_extent: VkExtent2D { width: current.0, height: current.1 },
        min_image_extent: VkExtent2D { width: min_extent.0, height: min_extent.1 },
        max_image_extent: VkExtent2D { width: max_extent.0, height: max_extent.1 },
    }
}

#[test]
fn preferred_format_is_chosen_when_offered() {
    let formats = vec![
        VkSurfaceFormat { format: 2, color_space: 5 },
        VkSurfaceFormat { format: FORMAT_B8G8R8A8_UNORM, color_space: COLOR_SPACE_SRGB_NONLINEAR },
        VkSurfaceFormat { format: 9, color_space: 0 },
    ];
    let chosen = choose_swapchain_surface_format(&formats);
    assert_eq!(chosen.format, FORMAT_B8G8R8A8_UNORM);
    assert_eq!(chosen.color_space, COLOR_SPACE_SRGB_NONLINEAR);
}

#[test]
fn first_format_is_chosen_without_preferred() {
    let formats = vec![
        VkSurfaceFormat { format: 2, color_space: 5 },
        VkSurfaceFormat { format: 9, color_space: 0 },
    ];
    let chosen = choose_swapchain_surface_format(&formats);
    assert_eq!(chosen, formats[0]);
}

#[test]
fn bgra_format_with_wrong_color_space_is_not_preferred() {
    let formats = vec![
        VkSurfaceFormat { format: FORMAT_B8G8R8A8_UNORM, color_space: 7 },
        VkSurfaceFormat { format: FORMAT_B8G8R8A8_UNORM, color_space: COLOR_SPACE_SRGB_NONLINEAR },
    ];
    let chosen = choose_swapchain_surface_format(&formats);
    assert_eq!(chosen.color_space, COLOR_SPACE_SRGB_NONLINEAR);
}

#[test]
fn mailbox_present_mode_is_preferred() {
    let modes = vec![PRESENT_MODE_FIFO, PRESENT_MODE_MAILBOX, PRESENT_MODE_IMMEDIATE];
    assert_eq!(choose_swapchain_surface_present_mode(&modes), PRESENT_MODE_MAILBOX);
}

#[test]
fn fifo_present_mode_is_the_fallback() {
    let modes = vec![PRESENT_MODE_IMMEDIATE, PRESENT_MODE_FIFO];
    assert_eq!(choose_swapchain_surface_present_mode(&modes), PRESENT_MODE_FIFO);
}

#[test]
fn immediate_present_mode_is_the_last_resort() {
    let modes = vec![PRESENT_MODE_IMMEDIATE];
    assert_eq!(choose_swapchain_surface_present_mode(&modes), PRESENT_MODE_IMMEDIATE);
    let none: Vec<u32> = Vec::new();
    assert_eq!(choose_swapchain_surface_present_mode(&none), PRESENT_MODE_IMMEDIATE);
}

#[test]
fn unlimited_max_image_count_gives_min_plus_one() {
    // A surface reporting min 2 and max 0 (unlimited) yields 3 images.
    let c = caps(2, 0, (800, 600), (1, 1), (4096, 4096));
    assert_eq!(choose_image_count(&c), 3);
}

#[test]
fn image_count_is_clamped_to_the_maximum() {
    let c = caps(3, 3, (800, 600), (1, 1), (4096, 4096));
    assert_eq!(choose_image_count(&c), 3);
    let c2 = caps(2, 8, (800, 600), (1, 1), (4096, 4096));
    assert_eq!(choose_image_count(&c2), 3);
}

#[test]
fn defined_current_extent_is_taken_as_is() {
    let c = caps(2, 0, (1024, 768), (1, 1), (4096, 4096));
    let extent = choose_swapchain_extent(&c, &[800, 600]);
    assert_eq!(extent, VkExtent2D { width: 1024, height: 768 });
}

#[test]
fn undefined_extent_clamps_the_window_size() {
    // The platform signals "use the window size" with a current width
    // of u32::MAX; the window size is clamped into the supported range.
    let c = caps(2, 0, (u32::MAX, 600), (100, 100), (500, 500));
    let extent = choose_swapchain_extent(&c, &[800, 50]);
    assert_eq!(extent, VkExtent2D { width: 500, height: 100 });
}

#[test]
fn undefined_extent_keeps_an_in_range_window_size() {
    let c = caps(2, 0, (u32::MAX, 600), (100, 100), (4096, 4096));
    let extent = choose_swapchain_extent(&c, &[800, 600]);
    assert_eq!(extent, VkExtent2D { width: 800, height: 600 });
}
