use triangle_renderer::swapchain_policy::{
    choose_extent, choose_image_count, choose_sharing, plan_swapchain, Extent2, Sharing,
    SurfaceCapabilities,
};

fn caps(min: u32, max: Option<u32>, current: Option<Extent2>) -> SurfaceCapabilities {
    SurfaceCapabilities {
        min_image_count: min,
        max_image_count: max,
        current_extent: current,
        min_image_extent: Extent2 { width: 1, height: 1 },
        max_image_extent: Extent2 { width: 4096, height: 4096 },
    }
}

#[test]
fn window_sized_surface_gets_double_buffering() {
    let c = caps(1, Some(3), None);
    let window = Extent2 { width: 800, height: 600 };
    assert_eq!(choose_image_count(&c), 2);
    assert_eq!(choose_extent(&c, window), Extent2 { width: 800, height: 600 });
}

#[test]
fn fixed_image_count_is_kept() {
    for n in [1u32, 2, 3, 8] {
        assert_eq!(choose_image_count(&caps(n, Some(n), None)), n);
    }
}

#[test]
fn unbounded_maximum_gives_one_more_than_minimum() {
    assert_eq!(choose_image_count(&caps(2, None, None)), 3);
    assert_eq!(choose_image_count(&caps(0, None, None)), 1);
}

#[test]
fn maximum_caps_the_count() {
    assert_eq!(choose_image_count(&caps(2, Some(2), None)), 2);
    assert_eq!(choose_image_count(&caps(3, Some(8), None)), 4);
    assert_eq!(choose_image_count(&caps(u32::MAX, Some(u32::MAX), None)), u32::MAX);
}

#[test]
fn current_extent_wins_over_window_size() {
    let fixed = Extent2 { width: 1024, height: 768 };
    let c = caps(1, Some(3), Some(fixed));
    assert_eq!(choose_extent(&c, Extent2 { width: 10, height: 20 }), fixed);
}

#[test]
fn window_size_is_clamped_per_component() {
    let c = caps(1, Some(3), None);
    assert_eq!(
        choose_extent(&c, Extent2 { width: 0, height: 5000 }),
        Extent2 { width: 1, height: 4096 }
    );
    assert_eq!(
        choose_extent(&c, Extent2 { width: 9000, height: 0 }),
        Extent2 { width: 4096, height: 1 }
    );
}

#[test]
fn sharing_follows_the_families() {
    assert_eq!(choose_sharing(0, 0), Sharing::Exclusive { family: 0 });
    assert_eq!(
        choose_sharing(0, 2),
        Sharing::Concurrent { graphics_family: 0, present_family: 2 }
    );
}

#[test]
fn plan_gathers_every_choice() {
    let c = caps(2, None, None);
    let plan = plan_swapchain(&c, Extent2 { width: 640, height: 480 }, 1, 1);
    assert_eq!(plan.image_count, 3);
    assert_eq!(plan.extent, Extent2 { width: 640, height: 480 });
    assert_eq!(plan.sharing, Sharing::Exclusive { family: 1 });
}
