use swapchain_negotiator::device::{
    device_score, pick_device, swapchain_extension_name, viable, DeviceCandidate,
    NoSuitableDeviceError,
};
use swapchain_negotiator::queue::{QueueFamily, QueueIndexes};
use swapchain_negotiator::surface::{
    Extent, PresentMode, SurfaceCaps, SurfaceFormat, SwapChainSupport, ADAPTIVE_EXTENT,
    COLOR_SPACE_SRGB_NONLINEAR, FORMAT_B8G8R8A8_SRGB,
};
use swapchain_negotiator::swapchain::{plan_image_views, sharing_plan, ImageViewPlan, SharingPlan};
use swapchain_negotiator::teardown::{teardown_plan, ResourceState, TeardownStep};

fn fam(graphics: bool, present: bool) -> QueueFamily {
    QueueFamily { graphics, present }
}

fn caps(min_count: u32, max_count: u32) -> SurfaceCaps {
    SurfaceCaps {
        min_image_count: min_count,
        max_image_count: max_count,
        current_extent: Extent { width: 640, height: 480 },
        min_image_extent: Extent { width: 1, height: 1 },
        max_image_extent: Extent { width: 4096, height: 4096 },
        current_transform: 1,
    }
}

fn preferred_format() -> SurfaceFormat {
    SurfaceFormat {
        format: FORMAT_B8G8R8A8_SRGB,
        color_space: COLOR_SPACE_SRGB_NONLINEAR,
    }
}

fn basic_support() -> SwapChainSupport {
    SwapChainSupport::new(caps(2, 0), vec![preferred_format()], vec![PresentMode::Fifo])
}

fn viable_candidate(limit: u32, discrete: bool) -> DeviceCandidate {
    DeviceCandidate {
        families: vec![fam(true, true)],
        extensions: vec![swapchain_extension_name()],
        support: basic_support(),
        max_image_dimension_2d: limit,
        discrete,
    }
}

#[test]
fn combined_family_preferred_over_earlier_separate_pair() {
    let fams = vec![fam(true, false), fam(false, true), fam(true, true)];
    let q = QueueIndexes::resolve(&fams).unwrap();
    assert_eq!(q, QueueIndexes { graphics: 2, present: 2 });
}

#[test]
fn combined_family_first_found_wins() {
    let fams = vec![fam(true, true), fam(true, true)];
    let q = QueueIndexes::resolve(&fams).unwrap();
    assert_eq!(q, QueueIndexes { graphics: 0, present: 0 });
}

#[test]
fn disjoint_families_take_last_seen_of_each_kind() {
    let fams = vec![fam(false, true), fam(true, false), fam(true, false)];
    let q = QueueIndexes::resolve(&fams).unwrap();
    assert_eq!(q.graphics, 2);
    assert_eq!(q.present, 0);
}

#[test]
fn resolve_rejects_without_graphics_or_without_present() {
    assert!(QueueIndexes::resolve(&vec![fam(false, true)]).is_none());
    assert!(QueueIndexes::resolve(&vec![fam(true, false)]).is_none());
    assert!(QueueIndexes::resolve(&Vec::new()).is_none());
}

#[test]
fn as_array_lists_graphics_then_present() {
    let q = QueueIndexes { graphics: 4, present: 9 };
    assert_eq!(q.as_array(), [4, 9]);
}

#[test]
fn unique_indices_deduplicates_shared_family() {
    let shared = QueueIndexes { graphics: 3, present: 3 };
    assert_eq!(shared.unique_indices(), vec![3]);
    let split = QueueIndexes { graphics: 1, present: 2 };
    assert_eq!(split.unique_indices(), vec![1, 2]);
}

#[test]
fn missing_swapchain_extension_never_selected_despite_score() {
    let mut strong = viable_candidate(1_000_000, true);
    strong.extensions = vec![b"VK_other_extension".to_vec()];
    let weak = viable_candidate(4, false);
    let r = pick_device(&vec![strong, weak]).unwrap();
    assert_eq!(r.0, 1);
}

#[test]
fn no_viable_candidate_is_an_error() {
    let mut c = viable_candidate(10, false);
    c.extensions = Vec::new();
    assert_eq!(pick_device(&vec![c]), Err(NoSuitableDeviceError));
    assert_eq!(pick_device(&Vec::new()), Err(NoSuitableDeviceError));
}

#[test]
fn empty_format_or_mode_list_disqualifies() {
    let mut no_formats = viable_candidate(10, false);
    no_formats.support = SwapChainSupport::new(caps(2, 0), Vec::new(), vec![PresentMode::Fifo]);
    assert!(!viable(&no_formats));

    let mut no_modes = viable_candidate(10, false);
    no_modes.support = SwapChainSupport::new(caps(2, 0), vec![preferred_format()], Vec::new());
    assert!(!viable(&no_modes));

    let ok = viable_candidate(10, false);
    assert!(viable(&ok));
}

#[test]
fn highest_score_wins_and_ties_go_to_enumeration_order() {
    let low = viable_candidate(10, false);
    let high = viable_candidate(100, false);
    let r = pick_device(&vec![low, high]).unwrap();
    assert_eq!(r.0, 1);
    assert_eq!(r.1, QueueIndexes { graphics: 0, present: 0 });

    let first = viable_candidate(50, false);
    let second = viable_candidate(50, false);
    let r = pick_device(&vec![first, second]).unwrap();
    assert_eq!(r.0, 0);
}

#[test]
fn discrete_bonus_is_one_thousand() {
    assert_eq!(device_score(&viable_candidate(7, false)), 7);
    assert_eq!(device_score(&viable_candidate(7, true)), 1007);
    let integrated = viable_candidate(1000, false);
    let discrete = viable_candidate(100, true);
    let r = pick_device(&vec![integrated, discrete]).unwrap();
    assert_eq!(r.0, 1);
}

#[test]
fn present_mode_prefers_immediate_over_fifo() {
    let s = SwapChainSupport::new(
        caps(2, 0),
        vec![preferred_format()],
        vec![PresentMode::Fifo, PresentMode::Immediate],
    );
    assert_eq!(s.choose_swap_present_mode(), PresentMode::Immediate);
}

#[test]
fn present_mode_falls_back_to_fifo_alone() {
    let s = basic_support();
    assert_eq!(s.choose_swap_present_mode(), PresentMode::Fifo);
}

#[test]
fn present_mode_full_preference_order() {
    let all = vec![
        PresentMode::Fifo,
        PresentMode::FifoRelaxed,
        PresentMode::Immediate,
        PresentMode::Mailbox,
    ];
    let s = SwapChainSupport::new(caps(2, 0), vec![preferred_format()], all);
    assert_eq!(s.choose_swap_present_mode(), PresentMode::Mailbox);

    let s = SwapChainSupport::new(
        caps(2, 0),
        vec![preferred_format()],
        vec![PresentMode::Fifo, PresentMode::FifoRelaxed, PresentMode::Other],
    );
    assert_eq!(s.choose_swap_present_mode(), PresentMode::FifoRelaxed);
}

#[test]
fn format_choice_takes_lowest_score() {
    let s = SwapChainSupport::new(
        caps(2, 0),
        vec![
            preferred_format(),
            SurfaceFormat { format: 10, color_space: 5 },
        ],
        vec![PresentMode::Fifo],
    );
    assert_eq!(
        s.choose_swap_surface_format(),
        SurfaceFormat { format: 10, color_space: 5 }
    );
}

#[test]
fn format_choice_breaks_ties_by_advertised_order() {
    let s = SwapChainSupport::new(
        caps(2, 0),
        vec![
            SurfaceFormat { format: 10, color_space: 5 },
            SurfaceFormat { format: 11, color_space: 6 },
        ],
        vec![PresentMode::Fifo],
    );
    assert_eq!(
        s.choose_swap_surface_format(),
        SurfaceFormat { format: 10, color_space: 5 }
    );
}

#[test]
fn adaptive_extent_clamps_each_axis_independently() {
    let mut c = caps(2, 0);
    c.current_extent = Extent { width: ADAPTIVE_EXTENT, height: 77 };
    c.min_image_extent = Extent { width: 100, height: 100 };
    c.max_image_extent = Extent { width: 2000, height: 2000 };
    let s = SwapChainSupport::new(c, vec![preferred_format()], vec![PresentMode::Fifo]);
    let e = s.get_swap_extent(Extent { width: 1000, height: 10 });
    assert_eq!(e, Extent { width: 1000, height: 100 });
}

#[test]
fn fixed_current_extent_is_used_verbatim() {
    let s = basic_support();
    let e = s.get_swap_extent(Extent { width: 1, height: 1 });
    assert_eq!(e, Extent { width: 640, height: 480 });
}

#[test]
fn image_count_clamps_to_nonzero_maximum() {
    let s = SwapChainSupport::new(caps(2, 2), vec![preferred_format()], vec![PresentMode::Fifo]);
    assert_eq!(s.image_count(), 2);
}

#[test]
fn image_count_unbounded_when_maximum_is_zero() {
    let s = basic_support();
    assert_eq!(s.image_count(), 3);
}

#[test]
fn shared_family_gets_exclusive_sharing() {
    let q = QueueIndexes { graphics: 2, present: 2 };
    assert_eq!(sharing_plan(&q), SharingPlan::Exclusive);
}

#[test]
fn split_families_get_concurrent_sharing_with_both_indices() {
    let q = QueueIndexes { graphics: 1, present: 3 };
    assert_eq!(
        sharing_plan(&q),
        SharingPlan::Concurrent { graphics: 1, present: 3 }
    );
}

#[test]
fn negotiate_assembles_all_parameters() {
    let s = SwapChainSupport::new(
        caps(2, 0),
        vec![preferred_format()],
        vec![PresentMode::Fifo, PresentMode::Mailbox],
    );
    let q = QueueIndexes { graphics: 0, present: 1 };
    let p = s.negotiate(Extent { width: 800, height: 600 }, &q);
    assert_eq!(p.format, preferred_format());
    assert_eq!(p.present_mode, PresentMode::Mailbox);
    assert_eq!(p.extent, Extent { width: 640, height: 480 });
    assert_eq!(p.image_count, 3);
    assert_eq!(p.sharing, SharingPlan::Concurrent { graphics: 0, present: 1 });
    assert_eq!(p.pre_transform, 1);
}

#[test]
fn image_view_plans_mirror_image_order_and_format() {
    let images: Vec<u64> = vec![11, 22, 33];
    let plans = plan_image_views(&images, FORMAT_B8G8R8A8_SRGB);
    assert_eq!(
        plans,
        vec![
            ImageViewPlan { image: 11, format: FORMAT_B8G8R8A8_SRGB },
            ImageViewPlan { image: 22, format: FORMAT_B8G8R8A8_SRGB },
            ImageViewPlan { image: 33, format: FORMAT_B8G8R8A8_SRGB },
        ]
    );
    assert!(plan_image_views(&Vec::new(), 1).is_empty());
}

#[test]
fn full_teardown_runs_in_reverse_dependency_order() {
    let s = ResourceState {
        image_views: vec![7, 8],
        swapchain: Some(6),
        device: Some(5),
        surface: Some(4),
        instance: Some(3),
    };
    assert_eq!(
        teardown_plan(&s),
        vec![
            TeardownStep::DestroyImageView(7),
            TeardownStep::DestroyImageView(8),
            TeardownStep::DestroySwapchain(6),
            TeardownStep::DestroyDevice(5),
            TeardownStep::DestroySurface(4),
            TeardownStep::DestroyInstance(3),
        ]
    );
}

#[test]
fn partial_teardown_skips_absent_swapchain_but_destroys_the_rest() {
    let s = ResourceState {
        image_views: Vec::new(),
        swapchain: None,
        device: Some(5),
        surface: Some(4),
        instance: Some(3),
    };
    assert_eq!(
        teardown_plan(&s),
        vec![
            TeardownStep::DestroyDevice(5),
            TeardownStep::DestroySurface(4),
            TeardownStep::DestroyInstance(3),
        ]
    );
}

#[test]
fn swapchain_extension_name_is_the_khr_string() {
    assert_eq!(swapchain_extension_name(), b"VK_KHR_swapchain".to_vec());
}
