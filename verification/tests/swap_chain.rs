use lve_rs::device::QueryFamilyIndices;
use lve_rs::surface::SwapChainSupportDetails;
use lve_rs::swap_chain::{
    AcquireOutcome, AcquireRequest, PreviousSwapChain, Release, SubmitOutcome, SubmitRequest,
    SwapChain, SwapChainError, SwapChainImage, SyncTriple,
};
use lve_rs::vulkan::{
    ColorSpace, Extent2D, Format, Handle, PipelineStage, PresentMode, SharingMode,
    SurfaceCapabilities, SurfaceFormat,
};

fn h(raw: u64) -> Handle {
    Handle { raw }
}

fn format(raw: i32, color_space: i32) -> SurfaceFormat {
    SurfaceFormat { format: Format { raw }, color_space: ColorSpace { raw: color_space } }
}

fn capabilities(min: u32, max: u32, current: (u32, u32)) -> SurfaceCapabilities {
    SurfaceCapabilities {
        min_image_count: min,
        max_image_count: max,
        current_extent: Extent2D { width: current.0, height: current.1 },
        min_image_extent: Extent2D { width: 100, height: 50 },
        max_image_extent: Extent2D { width: 2000, height: 1000 },
        current_transform: 0x1,
    }
}

fn support() -> SwapChainSupportDetails {
    SwapChainSupportDetails {
        capabilities: capabilities(2, 0, (u32::MAX, u32::MAX)),
        formats: vec![format(44, 0), format(50, 0)],
        present_modes: vec![PresentMode { raw: 2 }, PresentMode { raw: 1 }],
    }
}

fn image(base: u64) -> SwapChainImage {
    SwapChainImage {
        image: h(base),
        image_view: h(base + 1),
        depth_image: h(base + 2),
        depth_image_memory: h(base + 3),
        depth_image_view: h(base + 4),
        storage_image: h(base + 5),
        storage_image_memory: h(base + 6),
        storage_image_view: h(base + 7),
        storage_sampler: h(base + 8),
        framebuffer: h(base + 9),
    }
}

fn triple(base: u64) -> SyncTriple {
    SyncTriple { image_available: h(base), render_finished: h(base + 1), in_flight: h(base + 2) }
}

fn chain_with(images: usize, color: i32, depth: i32) -> SwapChain {
    let both = QueryFamilyIndices { graphics_family: Some(0), present_family: Some(0) };
    let mut surface = support();
    surface.formats = vec![format(color, 0)];
    let info = SwapChain::create_swap_chain(
        &surface,
        &Extent2D { width: 800, height: 600 },
        &both,
        PreviousSwapChain::Fresh,
    )
    .unwrap();
    SwapChain::new(
        &info,
        Extent2D { width: 800, height: 600 },
        h(1),
        (0..images).map(|i| image(100 * (i as u64 + 1))).collect(),
        h(2),
        Format { raw: depth },
        vec![triple(10), triple(20)],
    )
    .unwrap()
}

fn chain(images: usize) -> SwapChain {
    chain_with(images, 50, 126)
}

const SHOWN: SubmitOutcome = SubmitOutcome::Presented { suboptimal: false };

#[test]
fn frames_in_flight_are_two() {
    assert_eq!(SwapChain::MAX_FRAMES_IN_FLIGHT, 2);
}

#[test]
fn preferred_format_is_chosen_where_offered() {
    let formats = vec![format(44, 0), format(50, 1), format(50, 0), format(37, 0)];
    assert_eq!(SwapChain::choose_swap_surface_format(&formats), Ok(format(50, 0)));
}

#[test]
fn rgba_srgb_is_preferred_as_well() {
    let formats = vec![format(97, 0), format(43, 0)];
    assert_eq!(SwapChain::choose_swap_surface_format(&formats), Ok(format(43, 0)));
    let formats = vec![format(97, 0), format(43, 1), format(37, 0), format(43, 0), format(44, 0)];
    assert_eq!(SwapChain::choose_swap_surface_format(&formats), Ok(format(43, 0)));
}

#[test]
fn first_preferred_format_wins() {
    let formats = vec![format(44, 0), format(43, 0), format(50, 0)];
    assert_eq!(SwapChain::choose_swap_surface_format(&formats), Ok(format(43, 0)));
    let formats = vec![format(44, 0), format(50, 0), format(43, 0)];
    assert_eq!(SwapChain::choose_swap_surface_format(&formats), Ok(format(50, 0)));
}

#[test]
fn first_format_is_chosen_otherwise() {
    let formats = vec![format(44, 0), format(50, 1), format(43, 1), format(37, 0)];
    assert_eq!(SwapChain::choose_swap_surface_format(&formats), Ok(format(44, 0)));
    let formats = vec![format(97, 0)];
    assert_eq!(SwapChain::choose_swap_surface_format(&formats), Ok(format(97, 0)));
}

#[test]
fn no_format_is_an_error() {
    assert_eq!(
        SwapChain::choose_swap_surface_format(&Vec::new()),
        Err(SwapChainError::NoFormatAvailable)
    );
}

#[test]
fn mailbox_is_chosen_where_offered() {
    let modes = vec![PresentMode { raw: 0 }, PresentMode { raw: 2 }, PresentMode { raw: 1 }];
    assert_eq!(SwapChain::choose_swap_present_mode(&modes), PresentMode { raw: 1 });
}

#[test]
fn fifo_is_chosen_otherwise() {
    let modes = vec![PresentMode { raw: 0 }, PresentMode { raw: 3 }];
    assert_eq!(SwapChain::choose_swap_present_mode(&modes), PresentMode { raw: 2 });
    assert_eq!(SwapChain::choose_swap_present_mode(&Vec::new()), PresentMode { raw: 2 });
}

#[test]
fn fixed_extent_of_the_surface_is_taken() {
    let caps = capabilities(2, 0, (640, 480));
    let chosen = SwapChain::choose_swap_extent(&Extent2D { width: 800, height: 600 }, &caps);
    assert_eq!(chosen, Extent2D { width: 640, height: 480 });
    let odd = capabilities(2, 0, (5, u32::MAX));
    let chosen = SwapChain::choose_swap_extent(&Extent2D { width: 800, height: 600 }, &odd);
    assert_eq!(chosen, Extent2D { width: 5, height: u32::MAX });
}

#[test]
fn open_extent_is_the_windows_within_the_limits() {
    let caps = capabilities(2, 0, (u32::MAX, u32::MAX));
    let within = SwapChain::choose_swap_extent(&Extent2D { width: 800, height: 600 }, &caps);
    assert_eq!(within, Extent2D { width: 800, height: 600 });
    let at_limits = SwapChain::choose_swap_extent(&Extent2D { width: 100, height: 1000 }, &caps);
    assert_eq!(at_limits, Extent2D { width: 100, height: 1000 });
    let small = SwapChain::choose_swap_extent(&Extent2D { width: 10, height: 0 }, &caps);
    assert_eq!(small, Extent2D { width: 100, height: 50 });
    let large = SwapChain::choose_swap_extent(&Extent2D { width: 5000, height: 1001 }, &caps);
    assert_eq!(large, Extent2D { width: 2000, height: 1000 });
    let mixed = SwapChain::choose_swap_extent(&Extent2D { width: 99, height: 4000 }, &caps);
    assert_eq!(mixed, Extent2D { width: 100, height: 1000 });
}

#[test]
fn open_extent_with_open_height_only_is_clamped() {
    let caps = capabilities(2, 0, (u32::MAX, 7));
    let chosen = SwapChain::choose_swap_extent(&Extent2D { width: 800, height: 600 }, &caps);
    assert_eq!(chosen, Extent2D { width: 800, height: 600 });
}

#[test]
fn crossed_limits_give_the_lower_limit() {
    let mut caps = capabilities(2, 0, (u32::MAX, u32::MAX));
    caps.min_image_extent = Extent2D { width: 500, height: 500 };
    caps.max_image_extent = Extent2D { width: 400, height: 400 };
    let chosen = SwapChain::choose_swap_extent(&Extent2D { width: 450, height: 100 }, &caps);
    assert_eq!(chosen, Extent2D { width: 500, height: 500 });
}

#[test]
fn image_count_is_one_more_than_the_least() {
    assert_eq!(SwapChain::choose_image_count(&capabilities(2, 0, (1, 1))), 3);
    assert_eq!(SwapChain::choose_image_count(&capabilities(2, 8, (1, 1))), 3);
    assert_eq!(SwapChain::choose_image_count(&capabilities(2, 3, (1, 1))), 3);
    assert_eq!(SwapChain::choose_image_count(&capabilities(0, 0, (1, 1))), 1);
}

#[test]
fn image_count_is_capped_by_the_most() {
    assert_eq!(SwapChain::choose_image_count(&capabilities(2, 2, (1, 1))), 2);
    assert_eq!(SwapChain::choose_image_count(&capabilities(5, 3, (1, 1))), 3);
    assert_eq!(SwapChain::choose_image_count(&capabilities(u32::MAX, 4, (1, 1))), 4);
    assert_eq!(SwapChain::choose_image_count(&capabilities(u32::MAX - 1, 0, (1, 1))), u32::MAX);
}

#[test]
fn request_for_one_family_is_exclusive() {
    let both = QueryFamilyIndices { graphics_family: Some(1), present_family: Some(1) };
    let info = SwapChain::create_swap_chain(
        &support(),
        &Extent2D { width: 800, height: 600 },
        &both,
        PreviousSwapChain::Fresh,
    )
    .unwrap();
    assert_eq!(info.min_image_count, 3);
    assert_eq!(info.image_format, Format { raw: 50 });
    assert_eq!(info.image_color_space, ColorSpace { raw: 0 });
    assert_eq!(info.image_extent, Extent2D { width: 800, height: 600 });
    assert_eq!(info.image_array_layers, 1);
    assert_eq!(info.image_usage, 0x10);
    assert_eq!(info.image_sharing_mode, SharingMode::Exclusive);
    assert!(info.queue_family_indices.is_empty());
    assert_eq!(info.pre_transform, 0x1);
    assert_eq!(info.composite_alpha, 0x1);
    assert_eq!(info.present_mode, PresentMode { raw: 1 });
    assert!(info.clipped);
    assert_eq!(info.old_swapchain, Handle { raw: 0 });
}

#[test]
fn request_for_two_families_is_concurrent() {
    let two = QueryFamilyIndices { graphics_family: Some(0), present_family: Some(2) };
    let info = SwapChain::create_swap_chain(
        &support(),
        &Extent2D { width: 800, height: 600 },
        &two,
        PreviousSwapChain::FromPrevious(h(77)),
    )
    .unwrap();
    assert_eq!(info.image_sharing_mode, SharingMode::Concurrent);
    assert_eq!(info.queue_family_indices, vec![0, 2]);
    assert_eq!(info.old_swapchain, h(77));
}

#[test]
fn request_reports_what_is_missing() {
    let extent = Extent2D { width: 800, height: 600 };
    let none = QueryFamilyIndices::none();
    let no_present = QueryFamilyIndices { graphics_family: Some(0), present_family: None };
    let mut empty = support();
    empty.formats.clear();
    assert_eq!(
        SwapChain::create_swap_chain(&empty, &extent, &none, PreviousSwapChain::Fresh).unwrap_err(),
        SwapChainError::NoFormatAvailable
    );
    assert_eq!(
        SwapChain::create_swap_chain(&support(), &extent, &none, PreviousSwapChain::Fresh)
            .unwrap_err(),
        SwapChainError::GraphicsFamilyMissing
    );
    assert_eq!(
        SwapChain::create_swap_chain(&support(), &extent, &no_present, PreviousSwapChain::Fresh)
            .unwrap_err(),
        SwapChainError::PresentFamilyMissing
    );
}

#[test]
fn new_swapchain_starts_at_the_first_frame() {
    let chain = chain(3);
    assert_eq!(chain.image_count(), 3);
    assert_eq!(chain.current_frame(), 0);
    assert_eq!(chain.swap_chain(), h(1));
    assert_eq!(chain.render_pass(), h(2));
    assert_eq!(chain.swap_chain_image_format(), Format { raw: 50 });
    assert_eq!(chain.swap_chain_depth_format(), Format { raw: 126 });
    assert_eq!(chain.swap_chain_extent(), Extent2D { width: 800, height: 600 });
    assert_eq!(chain.width(), 800);
    assert_eq!(chain.height(), 600);
    assert_eq!(chain.framebuffer(1), h(209));
    assert_eq!(chain.image_view(2), h(301));
    assert_eq!(chain.image(0), image(100));
    assert_eq!(chain.sync_set(), vec![triple(10), triple(20)]);
    for index in 0..3 {
        assert_eq!(chain.submit_request(h(5), index).wait_image_fence, None);
    }
}

#[test]
fn swapchain_needs_one_sync_triple_per_frame() {
    let both = QueryFamilyIndices { graphics_family: Some(0), present_family: Some(0) };
    let extent = Extent2D { width: 800, height: 600 };
    let info =
        SwapChain::create_swap_chain(&support(), &extent, &both, PreviousSwapChain::Fresh).unwrap();
    for sync in [vec![], vec![triple(10)], vec![triple(10), triple(20), triple(30)]] {
        let built =
            SwapChain::new(&info, extent, h(1), vec![image(100)], h(2), Format { raw: 126 }, sync);
        assert_eq!(built.unwrap_err(), SwapChainError::InconsistentResources);
    }
}

#[test]
fn successor_takes_over_the_sync_set() {
    let mut old = chain(3);
    old.submit_command_buffers(1, SHOWN).unwrap();
    assert_eq!(old.current_frame(), 1);
    let both = QueryFamilyIndices { graphics_family: Some(0), present_family: Some(0) };
    let extent = Extent2D { width: 1024, height: 768 };
    let info = SwapChain::create_swap_chain(
        &support(),
        &extent,
        &both,
        PreviousSwapChain::FromPrevious(old.swap_chain()),
    )
    .unwrap();
    assert_eq!(info.old_swapchain, h(1));
    let new = SwapChain::with_previous_swap_chain(
        &info,
        extent,
        h(3),
        vec![image(500), image(600), image(700), image(800)],
        h(4),
        Format { raw: 126 },
        &old,
    )
    .unwrap();
    assert_eq!(new.sync_set(), old.sync_set());
    assert!(new.shares_sync_set(&old));
    assert!(old.shares_sync_set(&new));
    assert_eq!(new.image_count(), 4);
    assert_eq!(new.current_frame(), 0);
    assert_eq!(new.swap_chain_extent(), extent);
    for index in 0..4 {
        assert_eq!(new.submit_request(h(5), index).wait_image_fence, None);
    }
}

#[test]
fn swapchains_with_sync_sets_of_their_own_do_not_share() {
    let both = QueryFamilyIndices { graphics_family: Some(0), present_family: Some(0) };
    let extent = Extent2D { width: 800, height: 600 };
    let info =
        SwapChain::create_swap_chain(&support(), &extent, &both, PreviousSwapChain::Fresh).unwrap();
    let other = SwapChain::new(
        &info,
        extent,
        h(1),
        vec![image(100)],
        h(2),
        Format { raw: 126 },
        vec![triple(10), triple(30)],
    )
    .unwrap();
    assert!(!chain(1).shares_sync_set(&other));
    assert!(chain(1).shares_sync_set(&chain(3)));
}

#[test]
fn acquire_waits_for_the_current_frames_fence() {
    let mut chain = chain(3);
    assert_eq!(
        chain.acquire_request(),
        Ok(AcquireRequest {
            wait_fence: h(12),
            swap_chain: h(1),
            timeout: u64::MAX,
            signal_semaphore: h(10),
            signal_fence: Handle { raw: 0 },
        })
    );
    chain.submit_command_buffers(0, SHOWN).unwrap();
    assert_eq!(
        chain.acquire_request(),
        Ok(AcquireRequest {
            wait_fence: h(22),
            swap_chain: h(1),
            timeout: u64::MAX,
            signal_semaphore: h(20),
            signal_fence: Handle { raw: 0 },
        })
    );
}

#[test]
fn acquire_is_refused_on_a_null_fence() {
    let both = QueryFamilyIndices { graphics_family: Some(0), present_family: Some(0) };
    let extent = Extent2D { width: 800, height: 600 };
    let info =
        SwapChain::create_swap_chain(&support(), &extent, &both, PreviousSwapChain::Fresh).unwrap();
    let mut broken = triple(10);
    broken.in_flight = Handle { raw: 0 };
    let chain = SwapChain::new(
        &info,
        extent,
        h(1),
        vec![image(100)],
        h(2),
        Format { raw: 126 },
        vec![broken, triple(20)],
    )
    .unwrap();
    assert_eq!(chain.acquire_request(), Err(SwapChainError::InvalidFence));
}

#[test]
fn acquired_image_is_handed_on() {
    let chain = chain(3);
    for index in 0..3u32 {
        let outcome = AcquireOutcome::Acquired { image_index: index, suboptimal: false };
        assert_eq!(chain.acquire_next_image(outcome), Ok((index as usize, false)));
    }
}

#[test]
fn suboptimal_acquire_still_hands_out_the_image() {
    let chain = chain(3);
    let outcome = AcquireOutcome::Acquired { image_index: 1, suboptimal: true };
    assert_eq!(chain.acquire_next_image(outcome), Ok((1, false)));
}

#[test]
fn acquired_image_is_never_out_of_range() {
    let chain = chain(3);
    for index in [3u32, 4, 100, u32::MAX] {
        let outcome = AcquireOutcome::Acquired { image_index: index, suboptimal: false };
        assert_eq!(chain.acquire_next_image(outcome), Err(SwapChainError::ImageOutOfRange(index)));
    }
}

#[test]
fn out_of_date_acquire_asks_for_recreation() {
    let chain = chain(3);
    assert_eq!(chain.acquire_next_image(AcquireOutcome::Failed(-1_000_001_004)), Ok((0, true)));
}

#[test]
fn other_acquire_errors_are_fatal() {
    let chain = chain(3);
    assert_eq!(
        chain.acquire_next_image(AcquireOutcome::Failed(-4)),
        Err(SwapChainError::AcquireFailed(-4))
    );
    assert_eq!(
        chain.acquire_next_image(AcquireOutcome::Failed(1_000_001_003)),
        Err(SwapChainError::AcquireFailed(1_000_001_003))
    );
    assert_eq!(
        chain.acquire_next_image(AcquireOutcome::WaitFailed(-4)),
        Err(SwapChainError::WaitFailed(-4))
    );
}

#[test]
fn submit_request_uses_the_current_frames_sync_objects() {
    let chain = chain(3);
    assert_eq!(
        chain.submit_request(h(5), 2),
        SubmitRequest {
            wait_image_fence: None,
            frame_fence: h(12),
            wait_semaphore: h(10),
            wait_stage: PipelineStage::ColorAttachmentOutput,
            command_buffer: h(5),
            signal_semaphore: h(11),
            swap_chain: h(1),
            image_index: 2,
        }
    );
}

#[test]
fn shown_frame_claims_the_image_and_advances_the_cursor() {
    let mut chain = chain(3);
    assert_eq!(chain.submit_command_buffers(2, SHOWN), Ok(false));
    assert_eq!(chain.current_frame(), 1);
    assert_eq!(chain.submit_request(h(5), 2).wait_image_fence, Some(h(12)));
    assert_eq!(chain.submit_request(h(5), 0).wait_image_fence, None);
    assert_eq!(chain.submit_request(h(5), 2).frame_fence, h(22));
    assert_eq!(chain.submit_command_buffers(2, SHOWN), Ok(false));
    assert_eq!(chain.current_frame(), 0);
    assert_eq!(chain.submit_request(h(5), 2).wait_image_fence, Some(h(22)));
}

#[test]
fn cursor_counts_shown_frames_modulo_two() {
    for frames in 0..9usize {
        let mut chain = chain(3);
        for frame in 0..frames {
            assert_eq!(chain.submit_command_buffers(frame % 3, SHOWN), Ok(false));
        }
        assert_eq!(chain.current_frame(), frames % 2);
    }
}

#[test]
fn stale_presentation_asks_for_recreation_and_keeps_the_cursor() {
    for outcome in [
        SubmitOutcome::Presented { suboptimal: true },
        SubmitOutcome::PresentFailed(-1_000_001_004),
        SubmitOutcome::PresentFailed(1_000_001_003),
    ] {
        let mut chain = chain(3);
        assert_eq!(chain.submit_command_buffers(1, outcome), Ok(true));
        assert_eq!(chain.current_frame(), 0);
        assert_eq!(chain.submit_request(h(5), 1).wait_image_fence, Some(h(12)));
    }
}

#[test]
fn failed_wait_claims_nothing() {
    let mut chain = chain(3);
    assert_eq!(
        chain.submit_command_buffers(1, SubmitOutcome::WaitFailed(-4)),
        Err(SwapChainError::WaitFailed(-4))
    );
    assert_eq!(chain.current_frame(), 0);
    assert_eq!(chain.submit_request(h(5), 1).wait_image_fence, None);
}

#[test]
fn later_failures_leave_the_image_claimed() {
    let cases = [
        (SubmitOutcome::ResetFailed(-1), SwapChainError::ResetFailed(-1)),
        (SubmitOutcome::SubmitFailed(-2), SwapChainError::SubmitFailed(-2)),
        (SubmitOutcome::PresentFailed(-4), SwapChainError::PresentFailed(-4)),
    ];
    for (outcome, error) in cases {
        let mut chain = chain(3);
        assert_eq!(chain.submit_command_buffers(1, outcome), Err(error));
        assert_eq!(chain.current_frame(), 0);
        assert_eq!(chain.submit_request(h(5), 1).wait_image_fence, Some(h(12)));
    }
}

#[test]
fn formats_are_compared_both_ways() {
    let a = chain_with(2, 50, 126);
    let same = chain_with(3, 50, 126);
    let other_color = chain_with(2, 44, 126);
    let other_depth = chain_with(2, 50, 129);
    let other_both = chain_with(2, 44, 129);
    assert!(a.compare_swap_formats(&a));
    assert!(a.compare_swap_formats(&same));
    assert!(same.compare_swap_formats(&a));
    assert!(!a.compare_swap_formats(&other_color));
    assert!(!other_color.compare_swap_formats(&a));
    assert!(!a.compare_swap_formats(&other_depth));
    assert!(!a.compare_swap_formats(&other_both));
}

#[test]
fn teardown_on_recreation_leaves_the_sync_objects() {
    let releases = chain(2).destroy(false);
    assert_eq!(
        releases,
        vec![
            Release::ImageView(h(101)),
            Release::ImageView(h(201)),
            Release::SwapChain(h(1)),
            Release::Sampler(h(108)),
            Release::ImageView(h(107)),
            Release::Image(h(105)),
            Release::Memory(h(106)),
            Release::Sampler(h(208)),
            Release::ImageView(h(207)),
            Release::Image(h(205)),
            Release::Memory(h(206)),
            Release::ImageView(h(104)),
            Release::Image(h(102)),
            Release::Memory(h(103)),
            Release::ImageView(h(204)),
            Release::Image(h(202)),
            Release::Memory(h(203)),
            Release::Framebuffer(h(109)),
            Release::Framebuffer(h(209)),
            Release::RenderPass(h(2)),
        ]
    );
}

#[test]
fn final_teardown_ends_with_the_sync_objects() {
    let releases = chain(1).destroy(true);
    assert_eq!(releases.len(), 1 + 1 + 4 + 3 + 1 + 1 + 6);
    assert_eq!(
        releases[11..].to_vec(),
        vec![
            Release::Semaphore(h(11)),
            Release::Semaphore(h(10)),
            Release::Fence(h(12)),
            Release::Semaphore(h(21)),
            Release::Semaphore(h(20)),
            Release::Fence(h(22)),
        ]
    );
    assert_eq!(releases[..11].to_vec(), chain(1).destroy(false));
}

#[test]
fn null_swapchain_handle_is_not_released() {
    let both = QueryFamilyIndices { graphics_family: Some(0), present_family: Some(0) };
    let extent = Extent2D { width: 800, height: 600 };
    let info =
        SwapChain::create_swap_chain(&support(), &extent, &both, PreviousSwapChain::Fresh).unwrap();
    let chain = SwapChain::new(
        &info,
        extent,
        Handle::null(),
        Vec::new(),
        h(2),
        Format { raw: 126 },
        vec![triple(10), triple(20)],
    )
    .unwrap();
    assert_eq!(chain.destroy(false), vec![Release::RenderPass(h(2))]);
}
