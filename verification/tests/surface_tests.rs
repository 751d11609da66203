use ash::vk;
use vulkan_training::surface::{
    choose_image_count, choose_min_image_count_at_least_two, choose_pre_transform,
    choose_preferred_index, choose_present_mode, choose_surface_extent, choose_surface_format,
    plan_swapchain, Extent2D, SurfaceCapabilities, SurfaceError, SurfaceFormat,
    FORMAT_B8G8R8A8_UNORM, FORMAT_D16_UNORM, FORMAT_R8G8B8A8_UNORM, PRESENT_MODE_FIFO,
    PRESENT_MODE_IMMEDIATE, PRESENT_MODE_MAILBOX, SURFACE_TRANSFORM_IDENTITY,
};

fn caps(min: u32, max: u32, width: u32, height: u32) -> SurfaceCapabilities {
    SurfaceCapabilities {
        min_image_count: min,
        max_image_count: max,
        current_extent: Extent2D { width, height },
        supported_transforms: 0b1_0001,
        current_transform: 0b1_0000,
    }
}

#[test]
fn surface_constants_match_vulkan() {
    assert_eq!(PRESENT_MODE_IMMEDIATE, vk::PresentModeKHR::IMMEDIATE.as_raw());
    assert_eq!(PRESENT_MODE_MAILBOX, vk::PresentModeKHR::MAILBOX.as_raw());
    assert_eq!(PRESENT_MODE_FIFO, vk::PresentModeKHR::FIFO.as_raw());
    assert_eq!(SURFACE_TRANSFORM_IDENTITY, vk::SurfaceTransformFlagsKHR::IDENTITY.as_raw());
    assert_eq!(FORMAT_R8G8B8A8_UNORM, vk::Format::R8G8B8A8_UNORM.as_raw());
    assert_eq!(FORMAT_B8G8R8A8_UNORM, vk::Format::B8G8R8A8_UNORM.as_raw());
    assert_eq!(FORMAT_D16_UNORM, vk::Format::D16_UNORM.as_raw());
}

#[test]
fn image_count_one_more_than_minimum() {
    assert_eq!(choose_image_count(&caps(2, 8, 1, 1)), 3);
    assert_eq!(choose_image_count(&caps(2, 0, 1, 1)), 3);
}

#[test]
fn image_count_capped_by_maximum() {
    assert_eq!(choose_image_count(&caps(3, 3, 1, 1)), 3);
    assert_eq!(choose_image_count(&caps(2, 2, 1, 1)), 2);
    // The triangle viewer's `min(min + 1, max)` agrees.
    for (min, max) in [(1u32, 2u32), (2, 3), (3, 3), (4, 16)] {
        assert_eq!(choose_image_count(&caps(min, max, 1, 1)), (min + 1).min(max));
    }
}

#[test]
fn circle_needs_at_least_two_images() {
    assert_eq!(choose_min_image_count_at_least_two(1), 2);
    assert_eq!(choose_min_image_count_at_least_two(2), 2);
    assert_eq!(choose_min_image_count_at_least_two(3), 3);
    assert_eq!(choose_min_image_count_at_least_two(0), 2);
}

#[test]
fn extent_from_surface_or_window() {
    let window = Extent2D { width: 1920, height: 1080 };
    let current = Extent2D { width: 800, height: 600 };
    assert_eq!(choose_surface_extent(current, window), current);
    let undefined = Extent2D { width: u32::MAX, height: u32::MAX };
    assert_eq!(choose_surface_extent(undefined, window), window);
}

#[test]
fn identity_transform_preferred() {
    assert_eq!(choose_pre_transform(0b1_0001, 0b1_0000), SURFACE_TRANSFORM_IDENTITY);
    assert_eq!(choose_pre_transform(0b1_0000, 0b1_0000), 0b1_0000);
    assert_eq!(choose_pre_transform(0b0100, 0b0100), 0b0100);
}

#[test]
fn mailbox_else_fifo() {
    assert_eq!(choose_present_mode(&vec![PRESENT_MODE_FIFO, PRESENT_MODE_MAILBOX]), PRESENT_MODE_MAILBOX);
    assert_eq!(choose_present_mode(&vec![PRESENT_MODE_IMMEDIATE, PRESENT_MODE_FIFO]), PRESENT_MODE_FIFO);
    assert_eq!(choose_present_mode(&vec![]), PRESENT_MODE_FIFO);
}

#[test]
fn preferred_index_or_first() {
    assert_eq!(choose_preferred_index(&vec![false, true, true]), 1);
    assert_eq!(choose_preferred_index(&vec![false, false]), 0);
    assert_eq!(choose_preferred_index(&vec![true]), 0);
}

#[test]
fn triangle_prefers_bgra_unorm() {
    let a = SurfaceFormat { format: 50, color_space: 0 };
    let b = SurfaceFormat { format: FORMAT_B8G8R8A8_UNORM, color_space: 0 };
    let c = SurfaceFormat { format: FORMAT_B8G8R8A8_UNORM, color_space: 7 };
    assert_eq!(choose_surface_format(&vec![a, b, c], FORMAT_B8G8R8A8_UNORM), b);
    assert_eq!(choose_surface_format(&vec![a], FORMAT_B8G8R8A8_UNORM), a);
}

#[test]
fn texture_swapchain_plan() {
    let formats = vec![
        SurfaceFormat { format: 44, color_space: 0 },
        SurfaceFormat { format: 50, color_space: 0 },
    ];
    let plan = plan_swapchain(
        &caps(2, 3, u32::MAX, u32::MAX),
        &formats,
        &vec![PRESENT_MODE_FIFO, PRESENT_MODE_MAILBOX],
        Extent2D { width: 1920, height: 1080 },
    )
    .unwrap();
    assert_eq!(plan.surface_format, formats[0]);
    assert_eq!(plan.image_count, 3);
    assert_eq!(plan.extent, Extent2D { width: 1920, height: 1080 });
    assert_eq!(plan.pre_transform, SURFACE_TRANSFORM_IDENTITY);
    assert_eq!(plan.present_mode, PRESENT_MODE_MAILBOX);
}

#[test]
fn no_surface_formats() {
    let r = plan_swapchain(&caps(2, 3, 10, 10), &vec![], &vec![], Extent2D { width: 1, height: 1 });
    assert_eq!(r, Err(SurfaceError::NoSurfaceFormats));
}
