use jester::{
    choose_swapchain, extent_for, image_count_for, present_mode_for, select_device,
    swapchain_plan, transform_for, Extent, QueueFamily, SurfaceCaps, SwapchainStep,
    PRESENT_MODE_FIFO, PRESENT_MODE_MAILBOX, TRANSFORM_IDENTITY, UNDEFINED_EXTENT_WIDTH,
};

fn caps(min: u32, max: u32, extent: Extent, supported: u32, current: u32) -> SurfaceCaps {
    SurfaceCaps {
        min_image_count: min,
        max_image_count: max,
        current_extent: extent,
        supported_transforms: supported,
        current_transform: current,
    }
}

#[test]
fn image_count_is_min_plus_one_within_max() {
    assert_eq!(image_count_for(2, 0), 3);
    assert_eq!(image_count_for(2, 8), 3);
    assert_eq!(image_count_for(2, 2), 2);
    assert_eq!(image_count_for(3, 3), 3);
    assert_eq!(image_count_for(u32::MAX, 0), u32::MAX);
}

#[test]
fn undefined_extent_falls_back_to_window() {
    let window = Extent { width: 800, height: 600 };
    let undefined = Extent { width: UNDEFINED_EXTENT_WIDTH, height: UNDEFINED_EXTENT_WIDTH };
    let c = caps(2, 0, undefined, TRANSFORM_IDENTITY, TRANSFORM_IDENTITY);
    assert_eq!(extent_for(&c, window), window);
    let fixed = Extent { width: 1024, height: 768 };
    let c = caps(2, 0, fixed, TRANSFORM_IDENTITY, TRANSFORM_IDENTITY);
    assert_eq!(extent_for(&c, window), fixed);
}

#[test]
fn mailbox_preferred_over_fifo() {
    assert_eq!(present_mode_for(&vec![0, 2, 1, 3]), PRESENT_MODE_MAILBOX);
    assert_eq!(present_mode_for(&vec![0, 2, 3]), PRESENT_MODE_FIFO);
    assert_eq!(present_mode_for(&vec![]), PRESENT_MODE_FIFO);
}

#[test]
fn identity_transform_preferred() {
    let e = Extent { width: 1, height: 1 };
    assert_eq!(transform_for(&caps(1, 0, e, 0b11, 0b10)), TRANSFORM_IDENTITY);
    assert_eq!(transform_for(&caps(1, 0, e, 0b110, 0b100)), 0b100);
}

#[test]
fn full_config_for_a_rotated_capped_surface() {
    let c = caps(3, 3, Extent { width: 600, height: 800 }, 0b10, 0b10);
    let cfg = choose_swapchain(&c, &vec![2], Extent { width: 800, height: 600 });
    assert_eq!(cfg.image_count, 3);
    assert_eq!(cfg.extent, Extent { width: 600, height: 800 });
    assert_eq!(cfg.present_mode, PRESENT_MODE_FIFO);
    assert_eq!(cfg.pre_transform, 0b10);
}

#[test]
fn rebuild_destroys_old_resources_before_creating() {
    let first = swapchain_plan(false);
    assert_eq!(first[0], SwapchainStep::QueryCapabilities);
    assert_eq!(first[1], SwapchainStep::CreateSwapchain);
    assert_eq!(first.len(), 5);
    let again = swapchain_plan(true);
    assert_eq!(
        again,
        vec![
            SwapchainStep::QueryCapabilities,
            SwapchainStep::DestroyFramebuffers,
            SwapchainStep::DestroyImageViews,
            SwapchainStep::DestroyPresentSignals,
            SwapchainStep::DestroySwapchain,
            SwapchainStep::CreateSwapchain,
            SwapchainStep::CreateImageViews,
            SwapchainStep::CreatePresentSignals,
            SwapchainStep::CreateFramebuffers,
        ]
    );
}

fn qf(graphics: bool, present: bool) -> QueueFamily {
    QueueFamily { graphics, present }
}

#[test]
fn first_device_with_graphics_and_present_family() {
    let devices = vec![
        vec![qf(true, false), qf(false, true)],
        vec![qf(false, false), qf(true, true), qf(true, true)],
        vec![qf(true, true)],
    ];
    assert_eq!(select_device(&devices), Some((1, 1)));
}

#[test]
fn no_suitable_device() {
    let devices = vec![vec![qf(true, false)], vec![], vec![qf(false, true)]];
    assert_eq!(select_device(&devices), None);
    assert_eq!(select_device(&vec![]), None);
}
