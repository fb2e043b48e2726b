//! The swapchain: what is asked of the surface when one is built, the
//! acquire / submit / present protocol, and the order of its teardown.

use crate::device::QueryFamilyIndices;
use crate::surface::SwapChainSupportDetails;
use crate::vulkan::{
    ColorSpace, Extent2D, Format, Handle, PipelineStage, PresentMode, SharingMode,
    SurfaceCapabilities, SurfaceFormat, COLOR_SPACE_SRGB_NONLINEAR, COMPOSITE_ALPHA_OPAQUE,
    EXTENT_UNDECIDED, FORMAT_B8G8R8A8_SRGB, FORMAT_R8G8B8A8_SRGB, IMAGE_USAGE_COLOR_ATTACHMENT, PRESENT_MODE_FIFO,
    PRESENT_MODE_MAILBOX, STATUS_ERROR_OUT_OF_DATE, STATUS_SUBOPTIMAL, TIMEOUT_UNBOUNDED,
};
use vstd::prelude::*;

verus! {

/// Why a swapchain could not be built or a frame could not be shown.
#[derive(Clone, Copy, PartialEq, Eq, Debug, Structural)]
pub enum SwapChainError {
    /// The surface names no format.
    NoFormatAvailable,
    /// The adapter has no queue family that can draw.
    GraphicsFamilyMissing,
    /// The adapter has no queue family that can present to the surface.
    PresentFamilyMissing,
    /// The resources handed over do not make a swapchain: the sync set does
    /// not have one triple per frame in flight, or there are more images than
    /// an image index can name.
    InconsistentResources,
    /// The fence of the frame about to be reused is the null handle.
    InvalidFence,
    /// Waiting for a fence failed, with the driver's status.
    WaitFailed(i32),
    /// The driver could not hand out an image, with its status.
    AcquireFailed(i32),
    /// The driver handed out an image that the swapchain does not have.
    ImageOutOfRange(u32),
    /// Resetting the frame's fence failed, with the driver's status.
    ResetFailed(i32),
    /// The queue refused the command buffer, with the driver's status.
    SubmitFailed(i32),
    /// The image could not be presented, with the driver's status.
    PresentFailed(i32),
}

/// Whether a swapchain is built from nothing or takes over from one that is
/// still alive, which lets the driver reuse its resources.
#[derive(Clone, Copy, PartialEq, Eq, Debug, Structural)]
pub enum PreviousSwapChain {
    Fresh,
    FromPrevious(Handle),
}

impl PreviousSwapChain {
    /// The handle the driver is given as the old swapchain.
    pub open spec fn handle(self) -> Handle {
        match self {
            PreviousSwapChain::Fresh => Handle { raw: 0 },
            PreviousSwapChain::FromPrevious(handle) => handle,
        }
    }
}

/// What the driver is asked for when a swapchain is created.
#[derive(Debug)]
pub struct SwapChainCreateInfo {
    pub min_image_count: u32,
    pub image_format: Format,
    pub image_color_space: ColorSpace,
    pub image_extent: Extent2D,
    pub image_array_layers: u32,
    pub image_usage: u32,
    pub image_sharing_mode: SharingMode,
    pub queue_family_indices: Vec<u32>,
    pub pre_transform: u32,
    pub composite_alpha: u32,
    pub present_mode: PresentMode,
    pub clipped: bool,
    pub old_swapchain: Handle,
}

/// A surface format the engine likes: 8 bits per channel in BGRA or RGBA
/// order, sRGB-encoded, in the non-linear sRGB colour space.
pub open spec fn preferred_surface_format(format: SurfaceFormat) -> bool {
    &&& format.format.raw == FORMAT_B8G8R8A8_SRGB || format.format.raw == FORMAT_R8G8B8A8_SRGB
    &&& format.color_space.raw == COLOR_SPACE_SRGB_NONLINEAR
}

/// The place of the first format the engine likes among the first `n`, or
/// `n` where there is none.
pub open spec fn first_preferred(formats: Seq<SurfaceFormat>, n: int) -> int
    decreases n,
{
    if n <= 0 {
        0
    } else if first_preferred(formats, n - 1) < n - 1 {
        first_preferred(formats, n - 1)
    } else if preferred_surface_format(formats[n - 1]) {
        n - 1
    } else {
        n
    }
}

/// The format chosen from a non-empty list: the first that the engine likes
/// where the surface offers one, else the first of all.
pub open spec fn chosen_surface_format(formats: Seq<SurfaceFormat>) -> SurfaceFormat {
    if first_preferred(formats, formats.len() as int) < formats.len() {
        formats[first_preferred(formats, formats.len() as int)]
    } else {
        formats[0]
    }
}

/// The first liked format is liked and nothing before it is; where there is
/// none, nothing in the list is liked.
pub proof fn lemma_first_preferred(formats: Seq<SurfaceFormat>, n: int)
    requires
        0 <= n <= formats.len(),
    ensures
        0 <= first_preferred(formats, n) <= n,
        first_preferred(formats, n) < n ==> preferred_surface_format(
            formats[first_preferred(formats, n)],
        ),
        forall|i: int|
            0 <= i < first_preferred(formats, n) ==> !preferred_surface_format(
                #[trigger] formats[i],
            ),
    decreases n,
{
    if n > 0 {
        lemma_first_preferred(formats, n - 1);
    }
}

/// Once a liked format has been found, the rest of the list changes nothing.
pub proof fn lemma_first_preferred_settles(formats: Seq<SurfaceFormat>, n: int, m: int)
    requires
        0 < n <= m,
        first_preferred(formats, n) < n,
    ensures
        first_preferred(formats, m) == first_preferred(formats, n),
    decreases m - n,
{
    if n < m {
        lemma_first_preferred_settles(formats, n, m - 1);
    }
}

/// The chosen format is one of the list; it is liked wherever the list
/// holds a liked format, and no liked format stands before it.
pub proof fn lemma_chosen_surface_format(formats: Seq<SurfaceFormat>)
    requires
        formats.len() > 0,
    ensures
        formats.contains(chosen_surface_format(formats)),
        (exists|i: int| 0 <= i < formats.len() && preferred_surface_format(#[trigger] formats[i]))
            ==> preferred_surface_format(chosen_surface_format(formats)),
        (forall|i: int| 0 <= i < formats.len() ==> !preferred_surface_format(#[trigger] formats[i]))
            ==> chosen_surface_format(formats) == formats[0],
{
    lemma_first_preferred(formats, formats.len() as int);
    let first = first_preferred(formats, formats.len() as int);
    if first < formats.len() {
        assert(formats[first] == chosen_surface_format(formats));
    } else {
        assert(formats[0] == chosen_surface_format(formats));
    }
}

/// The present mode chosen: mailbox where offered, else FIFO, which every
/// surface supports.
pub open spec fn chosen_present_mode(modes: Seq<PresentMode>) -> PresentMode {
    if modes.contains(PresentMode { raw: PRESENT_MODE_MAILBOX }) {
        PresentMode { raw: PRESENT_MODE_MAILBOX }
    } else {
        PresentMode { raw: PRESENT_MODE_FIFO }
    }
}

/// `value` held between `low` and `high`; `low` wins where the two cross.
pub open spec fn clamped(low: u32, high: u32, value: u32) -> u32 {
    let capped = if value < high {
        value
    } else {
        high
    };
    if capped < low {
        low
    } else {
        capped
    }
}

/// The extent chosen: the surface's own where it has decided one, else the
/// window's, each side held within what the surface allows.
pub open spec fn chosen_extent(window: Extent2D, capabilities: SurfaceCapabilities) -> Extent2D {
    if capabilities.current_extent.width != EXTENT_UNDECIDED {
        capabilities.current_extent
    } else {
        Extent2D {
            width: clamped(
                capabilities.min_image_extent.width,
                capabilities.max_image_extent.width,
                window.width,
            ),
            height: clamped(
                capabilities.min_image_extent.height,
                capabilities.max_image_extent.height,
                window.height,
            ),
        }
    }
}

/// The number of images asked for: one more than the least the surface
/// needs, capped at the most it allows when it names a limit.
pub open spec fn chosen_image_count(capabilities: SurfaceCapabilities) -> int {
    if capabilities.max_image_count > 0 && capabilities.min_image_count + 1
        > capabilities.max_image_count {
        capabilities.max_image_count as int
    } else {
        capabilities.min_image_count + 1
    }
}

/// The families that share the images: none when one family both draws and
/// presents, else the two.
pub open spec fn sharing_families(graphics: u32, present: u32) -> Seq<u32> {
    if graphics == present {
        seq![]
    } else {
        seq![graphics, present]
    }
}

/// Where the surface leaves the extent open and its limits do not cross,
/// the chosen extent lies within them on both sides, is the window's own
/// side wherever that lies within them, and is the nearer limit otherwise.
/// Where the surface has decided an extent, that one is chosen.
pub proof fn lemma_chosen_extent_is_clamped(window: Extent2D, capabilities: SurfaceCapabilities)
    requires
        capabilities.min_image_extent.width <= capabilities.max_image_extent.width,
        capabilities.min_image_extent.height <= capabilities.max_image_extent.height,
    ensures
        capabilities.current_extent.width != EXTENT_UNDECIDED ==> chosen_extent(
            window,
            capabilities,
        ) == capabilities.current_extent,
        capabilities.current_extent.width == EXTENT_UNDECIDED ==> {
            let chosen = chosen_extent(window, capabilities);
            let low = capabilities.min_image_extent;
            let high = capabilities.max_image_extent;
            &&& low.width <= chosen.width <= high.width
            &&& low.height <= chosen.height <= high.height
            &&& low.width <= window.width <= high.width ==> chosen.width == window.width
            &&& low.height <= window.height <= high.height ==> chosen.height == window.height
            &&& window.width < low.width ==> chosen.width == low.width
            &&& window.width > high.width ==> chosen.width == high.width
            &&& window.height < low.height ==> chosen.height == low.height
            &&& window.height > high.height ==> chosen.height == high.height
        },
{
}

/// One presentable image with everything that is sized and formatted like
/// it: its colour view, its depth attachment, its storage attachment and
/// the framebuffer that binds them to the render pass.
#[derive(Clone, Copy, PartialEq, Eq, Debug, Structural)]
pub struct SwapChainImage {
    pub image: Handle,
    pub image_view: Handle,
    pub depth_image: Handle,
    pub depth_image_memory: Handle,
    pub depth_image_view: Handle,
    pub storage_image: Handle,
    pub storage_image_memory: Handle,
    pub storage_image_view: Handle,
    pub storage_sampler: Handle,
    pub framebuffer: Handle,
}

/// The sync objects of one frame in flight.
#[derive(Clone, Copy, PartialEq, Eq, Debug, Structural)]
pub struct SyncTriple {
    /// Signalled by the driver when the acquired image may be drawn to.
    pub image_available: Handle,
    /// Signalled by the queue when the frame's commands have run.
    pub render_finished: Handle,
    /// Signalled by the queue when the frame's submission has completed.
    pub in_flight: Handle,
}

/// What the driver is asked to do to get the next image: first wait for
/// `wait_fence`, then acquire from `swap_chain` with `signal_semaphore`.
#[derive(Clone, Copy, PartialEq, Eq, Debug, Structural)]
pub struct AcquireRequest {
    pub wait_fence: Handle,
    pub swap_chain: Handle,
    pub timeout: u64,
    pub signal_semaphore: Handle,
    pub signal_fence: Handle,
}

/// How the steps of an `AcquireRequest` went.
#[derive(Clone, Copy, PartialEq, Eq, Debug, Structural)]
pub enum AcquireOutcome {
    /// The wait for the frame's fence failed.
    WaitFailed(i32),
    /// The driver handed out an image.
    Acquired { image_index: u32, suboptimal: bool },
    /// The driver refused, with its status.
    Failed(i32),
}

/// What the driver is asked to do to show a frame, in this order: wait for
/// `wait_image_fence` where there is one, reset `frame_fence`, submit
/// `command_buffer`, present image `image_index`.
#[derive(Clone, Copy, PartialEq, Eq, Debug, Structural)]
pub struct SubmitRequest {
    /// The fence of the frame that last drew to the image and may still be
    /// in flight.
    pub wait_image_fence: Option<Handle>,
    /// The fence that is reset and then handed to the submission.
    pub frame_fence: Handle,
    /// The submission waits for this semaphore at `wait_stage`.
    pub wait_semaphore: Handle,
    pub wait_stage: PipelineStage,
    pub command_buffer: Handle,
    /// Signalled by the submission, awaited by the presentation.
    pub signal_semaphore: Handle,
    pub swap_chain: Handle,
    pub image_index: u32,
}

/// How far the steps of a `SubmitRequest` got, and how the last one ended.
#[derive(Clone, Copy, PartialEq, Eq, Debug, Structural)]
pub enum SubmitOutcome {
    /// The wait for the image's earlier fence failed.
    WaitFailed(i32),
    /// The frame's fence could not be reset.
    ResetFailed(i32),
    /// The queue refused the command buffer.
    SubmitFailed(i32),
    /// The driver took the image for presentation.
    Presented { suboptimal: bool },
    /// The driver refused to present, with its status.
    PresentFailed(i32),
}

impl SubmitOutcome {
    /// The image's slot is claimed before anything else is asked of the
    /// driver, but only once the slot's earlier fence has been waited for.
    pub open spec fn claims_image(self) -> bool {
        !(self is WaitFailed)
    }

    /// The frame was shown and the swapchain still fits the surface.
    pub open spec fn shown(self) -> bool {
        self == (SubmitOutcome::Presented { suboptimal: false })
    }

    /// The swapchain no longer fits the surface and has to be rebuilt.
    pub open spec fn stale(self) -> bool {
        match self {
            SubmitOutcome::Presented { suboptimal } => suboptimal,
            SubmitOutcome::PresentFailed(status) => status == STATUS_ERROR_OUT_OF_DATE || status
                == STATUS_SUBOPTIMAL,
            _ => false,
        }
    }

    /// What `submit_command_buffers` answers.
    pub open spec fn answer(self) -> Result<bool, SwapChainError> {
        match self {
            SubmitOutcome::WaitFailed(status) => Err(SwapChainError::WaitFailed(status)),
            SubmitOutcome::ResetFailed(status) => Err(SwapChainError::ResetFailed(status)),
            SubmitOutcome::SubmitFailed(status) => Err(SwapChainError::SubmitFailed(status)),
            SubmitOutcome::Presented { suboptimal } => Ok(suboptimal),
            SubmitOutcome::PresentFailed(status) => if self.stale() {
                Ok(true)
            } else {
                Err(SwapChainError::PresentFailed(status))
            },
        }
    }
}

/// One object to hand back to the driver.
#[derive(Clone, Copy, PartialEq, Eq, Debug, Structural)]
pub enum Release {
    ImageView(Handle),
    SwapChain(Handle),
    Sampler(Handle),
    Image(Handle),
    Memory(Handle),
    Framebuffer(Handle),
    RenderPass(Handle),
    Semaphore(Handle),
    Fence(Handle),
}

/// A swapchain with its images, its attachments, the sync objects of the
/// frames in flight and the frame cursor.
#[derive(Debug)]
pub struct SwapChain {
    image_format: Format,
    depth_format: Format,
    extent: Extent2D,
    window_extent: Extent2D,
    swap_chain: Handle,
    render_pass: Handle,
    images: Vec<SwapChainImage>,
    sync: Vec<SyncTriple>,
    images_in_flight: Vec<Handle>,
    current_frame: usize,
}

/// The state of a `SwapChain`.
pub struct SwapChainView {
    pub image_format: Format,
    pub depth_format: Format,
    pub extent: Extent2D,
    pub window_extent: Extent2D,
    pub swap_chain: Handle,
    pub render_pass: Handle,
    /// The presentable images, in the driver's order.
    pub images: Seq<SwapChainImage>,
    /// One triple per frame in flight.
    pub sync: Seq<SyncTriple>,
    /// For each image, the fence of the frame that last claimed it, or null.
    pub images_in_flight: Seq<Handle>,
    /// The frame whose sync triple the next acquire and submit use.
    pub current_frame: nat,
}

impl SwapChainView {
    /// The state of a swapchain just put together from what the driver
    /// created for the request `info`: no image is claimed and the cursor is
    /// at the first frame.
    pub open spec fn fresh(
        info: SwapChainCreateInfo,
        window_extent: Extent2D,
        swap_chain: Handle,
        images: Seq<SwapChainImage>,
        render_pass: Handle,
        depth_format: Format,
        sync: Seq<SyncTriple>,
    ) -> SwapChainView {
        SwapChainView {
            image_format: info.image_format,
            depth_format,
            extent: info.image_extent,
            window_extent,
            swap_chain,
            render_pass,
            images,
            sync,
            images_in_flight: Seq::new(images.len(), |i: int| Handle { raw: 0 }),
            current_frame: 0,
        }
    }

    /// `fence` is the in-flight fence of one of the frames.
    pub open spec fn is_frame_fence(sync: Seq<SyncTriple>, fence: Handle) -> bool {
        exists|frame: int| 0 <= frame < sync.len() && (#[trigger] sync[frame]).in_flight == fence
    }

    /// There is one sync triple per frame in flight and one fence slot per
    /// image, the cursor names a frame, an image index can name every image,
    /// and every claimed slot holds the fence of a frame.
    pub open spec fn well_formed(self) -> bool {
        &&& self.sync.len() == SwapChain::MAX_FRAMES_IN_FLIGHT
        &&& self.current_frame < SwapChain::MAX_FRAMES_IN_FLIGHT
        &&& self.images.len() <= u32::MAX
        &&& self.images_in_flight.len() == self.images.len()
        &&& forall|image: int|
            0 <= image < self.images_in_flight.len() ==> (#[trigger] self.images_in_flight[image]).raw
                == 0 || Self::is_frame_fence(self.sync, self.images_in_flight[image])
    }

    /// What the driver is asked to do to get the next image: an unbounded
    /// wait for the current frame's fence, then the acquire with the current
    /// frame's image-available semaphore and no fence.
    pub open spec fn acquire_request(self) -> AcquireRequest {
        AcquireRequest {
            wait_fence: self.current_sync().in_flight,
            swap_chain: self.swap_chain,
            timeout: TIMEOUT_UNBOUNDED,
            signal_semaphore: self.current_sync().image_available,
            signal_fence: Handle { raw: 0 },
        }
    }

    /// What the driver is asked to do to show the frame recorded in `buffer`
    /// on image `image`: a wait for the fence that claimed the image, where
    /// one did; the reset of the current frame's fence; the submission, which
    /// waits for the image at the colour output stage and signals the frame's
    /// fence and its render-finished semaphore; and the presentation, which
    /// waits for that semaphore.
    pub open spec fn submit_request(self, buffer: Handle, image: int) -> SubmitRequest {
        SubmitRequest {
            wait_image_fence: if self.images_in_flight[image].raw != 0 {
                Some(self.images_in_flight[image])
            } else {
                None
            },
            frame_fence: self.current_sync().in_flight,
            wait_semaphore: self.current_sync().image_available,
            wait_stage: PipelineStage::ColorAttachmentOutput,
            command_buffer: buffer,
            signal_semaphore: self.current_sync().render_finished,
            swap_chain: self.swap_chain,
            image_index: image as u32,
        }
    }

    /// Two swapchains agree in colour format and in depth format.
    pub open spec fn formats_match(self, other: SwapChainView) -> bool {
        self.image_format == other.image_format && self.depth_format == other.depth_format
    }

    /// The sync triple of the current frame.
    pub open spec fn current_sync(self) -> SyncTriple {
        self.sync[self.current_frame as int]
    }

    /// The state after the steps of a submit request for `image` ended with
    /// `outcome`: the image's slot holds the current frame's fence unless the
    /// first wait failed, and the cursor has moved on if the frame was shown.
    pub open spec fn after_submit(self, image: int, outcome: SubmitOutcome) -> SwapChainView {
        SwapChainView {
            images_in_flight: if outcome.claims_image() {
                self.images_in_flight.update(image, self.current_sync().in_flight)
            } else {
                self.images_in_flight
            },
            current_frame: if outcome.shown() {
                (self.current_frame + 1) % (SwapChain::MAX_FRAMES_IN_FLIGHT as nat)
            } else {
                self.current_frame
            },
            ..self
        }
    }

    /// The state after one frame was shown on each of `shown` in turn.
    pub open spec fn after_frames(self, shown: Seq<int>) -> SwapChainView
        decreases shown.len(),
    {
        if shown.len() == 0 {
            self
        } else {
            self.after_frames(shown.drop_last()).after_submit(
                shown.last(),
                SubmitOutcome::Presented { suboptimal: false },
            )
        }
    }
}

/// The colour views of the images, in image order.
pub open spec fn image_view_releases(images: Seq<SwapChainImage>) -> Seq<Release> {
    Seq::new(images.len(), |i: int| Release::ImageView(images[i].image_view))
}

/// The swapchain itself, unless its handle is null.
pub open spec fn swap_chain_releases(swap_chain: Handle) -> Seq<Release> {
    if swap_chain.raw != 0 {
        seq![Release::SwapChain(swap_chain)]
    } else {
        seq![]
    }
}

/// The storage attachments, image by image: sampler, view, image, memory.
pub open spec fn storage_releases(images: Seq<SwapChainImage>) -> Seq<Release>
    decreases images.len(),
{
    if images.len() == 0 {
        seq![]
    } else {
        storage_releases(images.drop_last()) + seq![
            Release::Sampler(images.last().storage_sampler),
            Release::ImageView(images.last().storage_image_view),
            Release::Image(images.last().storage_image),
            Release::Memory(images.last().storage_image_memory),
        ]
    }
}

/// The depth attachments, image by image: view, image, memory.
pub open spec fn depth_releases(images: Seq<SwapChainImage>) -> Seq<Release>
    decreases images.len(),
{
    if images.len() == 0 {
        seq![]
    } else {
        depth_releases(images.drop_last()) + seq![
            Release::ImageView(images.last().depth_image_view),
            Release::Image(images.last().depth_image),
            Release::Memory(images.last().depth_image_memory),
        ]
    }
}

/// The framebuffers, in image order.
pub open spec fn framebuffer_releases(images: Seq<SwapChainImage>) -> Seq<Release> {
    Seq::new(images.len(), |i: int| Release::Framebuffer(images[i].framebuffer))
}

/// The sync objects, frame by frame: render-finished semaphore,
/// image-available semaphore, in-flight fence.
pub open spec fn sync_releases(sync: Seq<SyncTriple>) -> Seq<Release>
    decreases sync.len(),
{
    if sync.len() == 0 {
        seq![]
    } else {
        sync_releases(sync.drop_last()) + seq![
            Release::Semaphore(sync.last().render_finished),
            Release::Semaphore(sync.last().image_available),
            Release::Fence(sync.last().in_flight),
        ]
    }
}

impl SwapChainView {
    /// Everything the swapchain owns, in the order of its release: colour
    /// views, the swapchain, storage attachments, depth attachments,
    /// framebuffers, the render pass and, where asked for, the sync objects.
    pub open spec fn teardown(self, release_sync: bool) -> Seq<Release> {
        image_view_releases(self.images) + swap_chain_releases(self.swap_chain) + storage_releases(
            self.images,
        ) + depth_releases(self.images) + framebuffer_releases(self.images) + seq![
            Release::RenderPass(self.render_pass),
        ] + if release_sync {
            sync_releases(self.sync)
        } else {
            seq![]
        }
    }
}

impl View for SwapChain {
    type V = SwapChainView;

    closed spec fn view(&self) -> SwapChainView {
        SwapChainView {
            image_format: self.image_format,
            depth_format: self.depth_format,
            extent: self.extent,
            window_extent: self.window_extent,
            swap_chain: self.swap_chain,
            render_pass: self.render_pass,
            images: self.images@,
            sync: self.sync@,
            images_in_flight: self.images_in_flight@,
            current_frame: self.current_frame as nat,
        }
    }
}

/// Every swapchain agrees with itself in its formats.
pub proof fn lemma_formats_match_reflexive(chain: SwapChainView)
    ensures
        chain.formats_match(chain),
{
}

/// The comparison of formats goes both ways alike.
pub proof fn lemma_formats_match_symmetric(chain: SwapChainView, other: SwapChainView)
    ensures
        chain.formats_match(other) == other.formats_match(chain),
{
}

/// A change of the colour format is noticed, and so is a change of the depth
/// format, whatever else the two swapchains share.
pub proof fn lemma_formats_match_detects_change(chain: SwapChainView, other: SwapChainView)
    ensures
        chain.image_format != other.image_format ==> !chain.formats_match(other),
        chain.depth_format != other.depth_format ==> !chain.formats_match(other),
{
}

/// The fence that holds the CPU back before an image is acquired is the fence
/// that the frame's submission then resets and hands to the queue: no frame
/// is submitted on a sync triple before the frame that used the triple last
/// has finished, so that no more frames are in flight than there are
/// triples.
pub proof fn lemma_acquire_guards_submit(state: SwapChainView, buffer: Handle, image: int)
    ensures
        state.acquire_request().wait_fence == state.submit_request(buffer, image).frame_fence,
        state.acquire_request().signal_semaphore == state.submit_request(
            buffer,
            image,
        ).wait_semaphore,
{
}

/// Once a frame has claimed an image, the next frame that wants the image
/// waits for the fence of the frame that claimed it, whichever frame that
/// next one is and however the claiming frame fared after its claim.
pub proof fn lemma_claimed_image_is_waited_for(
    state: SwapChainView,
    buffer: Handle,
    image: int,
    outcome: SubmitOutcome,
)
    requires
        state.well_formed(),
        0 <= image < state.images.len(),
        outcome.claims_image(),
        state.current_sync().in_flight.raw != 0,
    ensures
        state.after_submit(image, outcome).submit_request(buffer, image).wait_image_fence == Some(
            state.current_sync().in_flight,
        ),
{
}

/// A submit step keeps a well-formed swapchain well-formed.
pub proof fn lemma_after_submit_well_formed(state: SwapChainView, image: int, outcome: SubmitOutcome)
    requires
        state.well_formed(),
        0 <= image < state.images.len(),
    ensures
        state.after_submit(image, outcome).well_formed(),
{
    let after = state.after_submit(image, outcome);
    assert(state.sync[state.current_frame as int].in_flight == state.current_sync().in_flight);
    assert(SwapChainView::is_frame_fence(state.sync, state.current_sync().in_flight));
    assert forall|slot: int| 0 <= slot < after.images_in_flight.len() implies (
    #[trigger] after.images_in_flight[slot]).raw == 0 || SwapChainView::is_frame_fence(
        after.sync,
        after.images_in_flight[slot],
    ) by {
        if slot != image || !outcome.claims_image() {
            assert(after.images_in_flight[slot] == state.images_in_flight[slot]);
        }
    }
}

/// After any number of frames shown in a row on a swapchain that was not
/// rebuilt in between, the cursor has advanced by that number, modulo the
/// number of frames in flight. The images may be any the swapchain has.
pub proof fn lemma_cursor_counts_frames(state: SwapChainView, shown: Seq<int>)
    requires
        state.well_formed(),
        forall|k: int| 0 <= k < shown.len() ==> 0 <= #[trigger] shown[k] < state.images.len(),
    ensures
        state.after_frames(shown).well_formed(),
        state.after_frames(shown).current_frame == (state.current_frame + shown.len()) % (
        SwapChain::MAX_FRAMES_IN_FLIGHT as nat),
        state.after_frames(shown).images == state.images,
        state.after_frames(shown).sync == state.sync,
    decreases shown.len(),
{
    if shown.len() > 0 {
        let before = state.after_frames(shown.drop_last());
        lemma_cursor_counts_frames(state, shown.drop_last());
        lemma_after_submit_well_formed(
            before,
            shown.last(),
            SubmitOutcome::Presented { suboptimal: false },
        );
    }
}

/// On a swapchain fresh from its construction, the cursor after `n` frames
/// shown in a row is `n` modulo the number of frames in flight.
pub proof fn lemma_fresh_cursor_counts_frames(state: SwapChainView, shown: Seq<int>)
    requires
        state.well_formed(),
        state.current_frame == 0,
        forall|k: int| 0 <= k < shown.len() ==> 0 <= #[trigger] shown[k] < state.images.len(),
    ensures
        state.after_frames(shown).current_frame == shown.len() % (
        SwapChain::MAX_FRAMES_IN_FLIGHT as nat),
{
    lemma_cursor_counts_frames(state, shown);
}

impl SwapChain {
    /// How many frames the CPU may have handed to the GPU without knowing
    /// them finished.
    pub const MAX_FRAMES_IN_FLIGHT: usize = 2;

    /// Puts together a swapchain from what the driver created for the
    /// request `info`. Every fence slot starts out null and the cursor at the
    /// first frame.
    fn init(
        info: &SwapChainCreateInfo,
        window_extent: Extent2D,
        swap_chain: Handle,
        images: Vec<SwapChainImage>,
        render_pass: Handle,
        depth_format: Format,
        sync: Vec<SyncTriple>,
    ) -> (built: Result<SwapChain, SwapChainError>)
        ensures
            match built {
                Ok(chain) => {
                    &&& sync.len() == Self::MAX_FRAMES_IN_FLIGHT
                    &&& images.len() <= u32::MAX
                    &&& chain@.well_formed()
                    &&& chain@ == SwapChainView::fresh(
                        *info,
                        window_extent,
                        swap_chain,
                        images@,
                        render_pass,
                        depth_format,
                        sync@,
                    )
                },
                Err(error) => {
                    &&& error == SwapChainError::InconsistentResources
                    &&& sync.len() != Self::MAX_FRAMES_IN_FLIGHT || images.len() > u32::MAX
                },
            },
    {
        if sync.len() != Self::MAX_FRAMES_IN_FLIGHT || images.len() > 0xFFFF_FFFF {
            return Err(SwapChainError::InconsistentResources);
        }
        let mut images_in_flight: Vec<Handle> = Vec::new();
        let mut index: usize = 0;
        while index < images.len()
            invariant
                index <= images.len(),
                images_in_flight.len() == index,
                forall|i: int| 0 <= i < index ==> (#[trigger] images_in_flight[i]).raw == 0,
            decreases images.len() - index,
        {
            images_in_flight.push(Handle::null());
            index += 1;
        }
        assert(images_in_flight@ =~= Seq::new(images.len() as nat, |i: int| Handle { raw: 0 }));
        Ok(
            SwapChain {
                image_format: info.image_format,
                depth_format,
                extent: info.image_extent,
                window_extent,
                swap_chain,
                render_pass,
                images,
                sync,
                images_in_flight,
                current_frame: 0,
            },
        )
    }

    /// A swapchain built from nothing, with the sync set made for it.
    pub fn new(
        info: &SwapChainCreateInfo,
        window_extent: Extent2D,
        swap_chain: Handle,
        images: Vec<SwapChainImage>,
        render_pass: Handle,
        depth_format: Format,
        sync: Vec<SyncTriple>,
    ) -> (built: Result<SwapChain, SwapChainError>)
        ensures
            match built {
                Ok(chain) => {
                    &&& sync.len() == Self::MAX_FRAMES_IN_FLIGHT
                    &&& images.len() <= u32::MAX
                    &&& chain@.well_formed()
                    &&& chain@ == SwapChainView::fresh(
                        *info,
                        window_extent,
                        swap_chain,
                        images@,
                        render_pass,
                        depth_format,
                        sync@,
                    )
                },
                Err(error) => {
                    &&& error == SwapChainError::InconsistentResources
                    &&& sync.len() != Self::MAX_FRAMES_IN_FLIGHT || images.len() > u32::MAX
                },
            },
    {
        Self::init(info, window_extent, swap_chain, images, render_pass, depth_format, sync)
    }

    /// A swapchain that takes over from `previous`, which is the one that
    /// the request named to the driver as the old swapchain. The sync set
    /// lives as long as the device does, so the new swapchain carries on with
    /// the previous one's; the fence slots and the cursor start afresh.
    pub fn with_previous_swap_chain(
        info: &SwapChainCreateInfo,
        window_extent: Extent2D,
        swap_chain: Handle,
        images: Vec<SwapChainImage>,
        render_pass: Handle,
        depth_format: Format,
        previous: &SwapChain,
    ) -> (built: Result<SwapChain, SwapChainError>)
        requires
            previous@.well_formed(),
            info.old_swapchain == previous@.swap_chain,
        ensures
            match built {
                Ok(chain) => {
                    &&& images.len() <= u32::MAX
                    &&& chain@.well_formed()
                    &&& chain@ == SwapChainView::fresh(
                        *info,
                        window_extent,
                        swap_chain,
                        images@,
                        render_pass,
                        depth_format,
                        previous@.sync,
                    )
                },
                Err(error) => {
                    &&& error == SwapChainError::InconsistentResources
                    &&& images.len() > u32::MAX
                },
            },
    {
        let sync = previous.sync_set();
        Self::init(info, window_extent, swap_chain, images, render_pass, depth_format, sync)
    }

    /// The sync triples, one per frame in flight.
    pub fn sync_set(&self) -> (sync: Vec<SyncTriple>)
        ensures
            sync@ == self@.sync,
    {
        let mut sync: Vec<SyncTriple> = Vec::new();
        let mut frame: usize = 0;
        while frame < self.sync.len()
            invariant
                frame <= self.sync.len(),
                sync@ == self.sync@.take(frame as int),
            decreases self.sync.len() - frame,
        {
            sync.push(self.sync[frame]);
            assert(self.sync@.take(frame + 1) =~= self.sync@.take(frame as int).push(
                self.sync@[frame as int],
            ));
            frame += 1;
        }
        assert(self.sync@.take(frame as int) =~= self.sync@);
        sync
    }

    /// Whether two swapchains work with one and the same sync set.
    pub fn shares_sync_set(&self, other: &SwapChain) -> (shared: bool)
        ensures
            shared == (self@.sync == other@.sync),
    {
        if self.sync.len() != other.sync.len() {
            return false;
        }
        let mut frame: usize = 0;
        while frame < self.sync.len()
            invariant
                frame <= self.sync.len() == other.sync.len(),
                forall|k: int| 0 <= k < frame ==> self.sync@[k] == other.sync@[k],
            decreases self.sync.len() - frame,
        {
            let ours = self.sync[frame];
            let theirs = other.sync[frame];
            if ours.image_available.raw != theirs.image_available.raw || ours.render_finished.raw
                != theirs.render_finished.raw || ours.in_flight.raw != theirs.in_flight.raw {
                assert(self.sync@[frame as int] != other.sync@[frame as int]);
                return false;
            }
            frame += 1;
        }
        assert(self.sync@ =~= other.sync@);
        true
    }

    /// The driver's handle of the swapchain.
    pub fn swap_chain(&self) -> (handle: Handle)
        ensures
            handle == self@.swap_chain,
    {
        self.swap_chain
    }

    /// The framebuffer of image `index`.
    pub fn framebuffer(&self, index: usize) -> (handle: Handle)
        requires
            index < self@.images.len(),
        ensures
            handle == self@.images[index as int].framebuffer,
    {
        self.images[index].framebuffer
    }

    /// The render pass that the framebuffers were made for.
    pub fn render_pass(&self) -> (handle: Handle)
        ensures
            handle == self@.render_pass,
    {
        self.render_pass
    }

    /// The colour view of image `index`.
    pub fn image_view(&self, index: usize) -> (handle: Handle)
        requires
            index < self@.images.len(),
        ensures
            handle == self@.images[index as int].image_view,
    {
        self.images[index].image_view
    }

    /// Everything that belongs to image `index`.
    pub fn image(&self, index: usize) -> (image: SwapChainImage)
        requires
            index < self@.images.len(),
        ensures
            image == self@.images[index as int],
    {
        self.images[index]
    }

    /// How many images the driver made.
    pub fn image_count(&self) -> (count: usize)
        ensures
            count == self@.images.len(),
    {
        self.images.len()
    }

    /// The colour format of the images.
    pub fn swap_chain_image_format(&self) -> (format: Format)
        ensures
            format == self@.image_format,
    {
        self.image_format
    }

    /// The format of the depth attachments.
    pub fn swap_chain_depth_format(&self) -> (format: Format)
        ensures
            format == self@.depth_format,
    {
        self.depth_format
    }

    /// The extent of the images.
    pub fn swap_chain_extent(&self) -> (extent: Extent2D)
        ensures
            extent == self@.extent,
    {
        self.extent
    }

    /// The width of the images.
    pub fn width(&self) -> (width: u32)
        ensures
            width == self@.extent.width,
    {
        self.extent.width
    }

    /// The height of the images.
    pub fn height(&self) -> (height: u32)
        ensures
            height == self@.extent.height,
    {
        self.extent.height
    }

    /// The frame whose sync triple the next acquire and submit use.
    pub fn current_frame(&self) -> (frame: usize)
        ensures
            frame == self@.current_frame,
    {
        self.current_frame
    }

    /// What to ask of the driver to get the next image: an unbounded wait for
    /// the current frame's fence, which holds the CPU back until the GPU has
    /// finished the frame that used this sync triple before, then the
    /// acquire itself. Refused where that fence is the null handle.
    pub fn acquire_request(&self) -> (request: Result<AcquireRequest, SwapChainError>)
        requires
            self@.well_formed(),
        ensures
            self@.current_sync().in_flight.raw == 0 ==> request == Err::<AcquireRequest, _>(
                SwapChainError::InvalidFence,
            ),
            self@.current_sync().in_flight.raw != 0 ==> request == Ok::<_, SwapChainError>(
                self@.acquire_request(),
            ),
    {
        let triple = self.sync[self.current_frame];
        if triple.in_flight.is_null() {
            return Err(SwapChainError::InvalidFence);
        }
        Ok(
            AcquireRequest {
                wait_fence: triple.in_flight,
                swap_chain: self.swap_chain,
                timeout: TIMEOUT_UNBOUNDED,
                signal_semaphore: triple.image_available,
                signal_fence: Handle::null(),
            },
        )
    }

    /// What `acquire_next_image` answers to an outcome on a swapchain of
    /// `image_count` images.
    pub open spec fn acquired(image_count: nat, outcome: AcquireOutcome) -> Result<
        (usize, bool),
        SwapChainError,
    > {
        match outcome {
            AcquireOutcome::WaitFailed(status) => Err(SwapChainError::WaitFailed(status)),
            AcquireOutcome::Acquired { image_index, suboptimal } => if image_index < image_count {
                Ok((image_index as usize, false))
            } else {
                Err(SwapChainError::ImageOutOfRange(image_index))
            },
            AcquireOutcome::Failed(status) => if status == STATUS_ERROR_OUT_OF_DATE {
                Ok((0, true))
            } else {
                Err(SwapChainError::AcquireFailed(status))
            },
        }
    }

    /// Reads the outcome of an acquire request. The answer is the index of
    /// the image to draw to, which is always one of the swapchain's images,
    /// or the flag that the swapchain is out of date and has to be rebuilt,
    /// in which case the index is 0 and names no image.
    pub fn acquire_next_image(&self, outcome: AcquireOutcome) -> (answer: Result<
        (usize, bool),
        SwapChainError,
    >)
        ensures
            answer == Self::acquired(self@.images.len(), outcome),
            answer matches Ok((image_index, needs_recreate)) ==> needs_recreate || image_index
                < self@.images.len(),
    {
        match outcome {
            AcquireOutcome::WaitFailed(status) => Err(SwapChainError::WaitFailed(status)),
            AcquireOutcome::Acquired { image_index, suboptimal: _ } => {
                if (image_index as usize) < self.images.len() {
                    Ok((image_index as usize, false))
                } else {
                    Err(SwapChainError::ImageOutOfRange(image_index))
                }
            },
            AcquireOutcome::Failed(status) => {
                if status == STATUS_ERROR_OUT_OF_DATE {
                    Ok((0, true))
                } else {
                    Err(SwapChainError::AcquireFailed(status))
                }
            },
        }
    }

    /// What to ask of the driver to show the frame recorded in `buffer` on
    /// image `image_index`. Where an earlier frame claimed the image, its
    /// fence is waited for first, so that no two frames in flight touch one
    /// image.
    pub fn submit_request(&self, buffer: Handle, image_index: usize) -> (request: SubmitRequest)
        requires
            self@.well_formed(),
            image_index < self@.images.len(),
        ensures
            request == self@.submit_request(buffer, image_index as int),
    {
        let triple = self.sync[self.current_frame];
        let claimed = self.images_in_flight[image_index];
        SubmitRequest {
            wait_image_fence: if !claimed.is_null() {
                Some(claimed)
            } else {
                None
            },
            frame_fence: triple.in_flight,
            wait_semaphore: triple.image_available,
            wait_stage: PipelineStage::ColorAttachmentOutput,
            command_buffer: buffer,
            signal_semaphore: triple.render_finished,
            swap_chain: self.swap_chain,
            image_index: image_index as u32,
        }
    }

    /// Takes in how the steps of the submit request for `image_index` went.
    /// The answer is whether the swapchain has to be rebuilt. The cursor
    /// moves to the next frame only when the frame was shown on a swapchain
    /// that still fits.
    pub fn submit_command_buffers(&mut self, image_index: usize, outcome: SubmitOutcome) -> (answer:
        Result<bool, SwapChainError>)
        requires
            old(self)@.well_formed(),
            image_index < old(self)@.images.len(),
        ensures
            final(self)@.well_formed(),
            final(self)@ == old(self)@.after_submit(image_index as int, outcome),
            answer == outcome.answer(),
    {
        proof {
            lemma_after_submit_well_formed(self@, image_index as int, outcome);
        }
        let claimed = match outcome {
            SubmitOutcome::WaitFailed(_) => false,
            _ => true,
        };
        if claimed {
            let fence = self.sync[self.current_frame].in_flight;
            self.images_in_flight.set(image_index, fence);
        }
        match outcome {
            SubmitOutcome::WaitFailed(status) => Err(SwapChainError::WaitFailed(status)),
            SubmitOutcome::ResetFailed(status) => Err(SwapChainError::ResetFailed(status)),
            SubmitOutcome::SubmitFailed(status) => Err(SwapChainError::SubmitFailed(status)),
            SubmitOutcome::Presented { suboptimal } => {
                if !suboptimal {
                    self.current_frame = (self.current_frame + 1) % Self::MAX_FRAMES_IN_FLIGHT;
                }
                Ok(suboptimal)
            },
            SubmitOutcome::PresentFailed(status) => {
                if status == STATUS_ERROR_OUT_OF_DATE || status == STATUS_SUBOPTIMAL {
                    Ok(true)
                } else {
                    Err(SwapChainError::PresentFailed(status))
                }
            },
        }
    }

    /// Whether two swapchains agree in colour and depth format. A render
    /// pass and the pipelines compiled against it stay usable only then.
    pub fn compare_swap_formats(&self, swap_chain: &Self) -> (same: bool)
        ensures
            same == self@.formats_match(swap_chain@),
    {
        self.image_format.raw == swap_chain.image_format.raw && self.depth_format.raw
            == swap_chain.depth_format.raw
    }

    /// Picks the surface format: the first in the list that has 8 bits per
    /// channel in BGRA or RGBA order, sRGB-encoded, in the non-linear sRGB
    /// colour space; the first of all where the list holds none such. An
    /// empty list is refused.
    pub fn choose_swap_surface_format(formats: &Vec<SurfaceFormat>) -> (chosen: Result<
        SurfaceFormat,
        SwapChainError,
    >)
        ensures
            formats.len() == 0 ==> chosen == Err::<SurfaceFormat, _>(SwapChainError::NoFormatAvailable),
            formats.len() > 0 ==> chosen == Ok::<_, SwapChainError>(chosen_surface_format(formats@)),
            chosen matches Ok(format) ==> exists|place: int|
                {
                    &&& 0 <= place < formats.len()
                    &&& format == #[trigger] formats[place]
                    &&& forall|earlier: int|
                        0 <= earlier < place ==> !preferred_surface_format(
                            #[trigger] formats[earlier],
                        )
                    &&& preferred_surface_format(format) || (place == 0 && forall|any: int|
                        0 <= any < formats.len() ==> !preferred_surface_format(
                            #[trigger] formats[any],
                        ))
                },
    {
        proof {
            lemma_first_preferred(formats@, formats.len() as int);
            let first = first_preferred(formats@, formats.len() as int);
            if formats.len() > 0 {
                if first < formats.len() {
                    assert(formats[first] == chosen_surface_format(formats@));
                } else {
                    assert(formats[0] == chosen_surface_format(formats@));
                }
            }
        }
        let mut index: usize = 0;
        while index < formats.len()
            invariant
                index <= formats.len(),
                first_preferred(formats@, index as int) == index,
            decreases formats.len() - index,
        {
            let format = formats[index];
            if (format.format.raw == FORMAT_B8G8R8A8_SRGB || format.format.raw
                == FORMAT_R8G8B8A8_SRGB) && format.color_space.raw == COLOR_SPACE_SRGB_NONLINEAR {
                proof {
                    lemma_first_preferred(formats@, index as int);
                    lemma_first_preferred_settles(
                        formats@,
                        index as int + 1,
                        formats.len() as int,
                    );
                    assert(formats@[index as int] == format);
                }
                return Ok(format);
            }
            index += 1;
        }
        if formats.len() == 0 {
            Err(SwapChainError::NoFormatAvailable)
        } else {
            Ok(formats[0])
        }
    }

    /// Picks the present mode.
    pub fn choose_swap_present_mode(modes: &Vec<PresentMode>) -> (chosen: PresentMode)
        ensures
            chosen == chosen_present_mode(modes@),
    {
        let mut index: usize = 0;
        while index < modes.len()
            invariant
                index <= modes.len(),
                forall|i: int| 0 <= i < index ==> modes[i].raw != PRESENT_MODE_MAILBOX,
            decreases modes.len() - index,
        {
            let mode = modes[index];
            if mode.raw == PRESENT_MODE_MAILBOX {
                assert(modes@[index as int] == PresentMode { raw: PRESENT_MODE_MAILBOX });
                return mode;
            }
            index += 1;
        }
        PresentMode { raw: PRESENT_MODE_FIFO }
    }

    /// Holds one side of the window's extent within the surface's limits.
    fn clamp_side(low: u32, high: u32, value: u32) -> (side: u32)
        ensures
            side == clamped(low, high, value),
    {
        let capped = if value < high {
            value
        } else {
            high
        };
        if capped < low {
            low
        } else {
            capped
        }
    }

    /// Picks the extent of the swapchain's images.
    pub fn choose_swap_extent(window_extent: &Extent2D, capabilities: &SurfaceCapabilities) -> (chosen:
        Extent2D)
        ensures
            chosen == chosen_extent(*window_extent, *capabilities),
    {
        if capabilities.current_extent.width != EXTENT_UNDECIDED {
            capabilities.current_extent
        } else {
            Extent2D {
                width: Self::clamp_side(
                    capabilities.min_image_extent.width,
                    capabilities.max_image_extent.width,
                    window_extent.width,
                ),
                height: Self::clamp_side(
                    capabilities.min_image_extent.height,
                    capabilities.max_image_extent.height,
                    window_extent.height,
                ),
            }
        }
    }

    /// Picks the number of images to ask for.
    pub fn choose_image_count(capabilities: &SurfaceCapabilities) -> (count: u32)
        requires
            capabilities.max_image_count == 0 ==> capabilities.min_image_count < u32::MAX,
        ensures
            count == chosen_image_count(*capabilities),
    {
        if capabilities.max_image_count > 0 && capabilities.min_image_count
            >= capabilities.max_image_count {
            capabilities.max_image_count
        } else {
            capabilities.min_image_count + 1
        }
    }

    /// Works out what to ask of the driver for a swapchain on a surface with the
    /// given support, for a window of the given extent.
    pub fn create_swap_chain(
        support: &SwapChainSupportDetails,
        window_extent: &Extent2D,
        indices: &QueryFamilyIndices,
        previous: PreviousSwapChain,
    ) -> (request: Result<SwapChainCreateInfo, SwapChainError>)
        requires
            support.capabilities.max_image_count == 0 ==> support.capabilities.min_image_count
                < u32::MAX,
        ensures
            match request {
                Ok(info) => {
                    &&& support.formats.len() > 0
                    &&& indices.graphics_family matches Some(graphics)
                    &&& indices.present_family matches Some(present)
                    &&& info.min_image_count == chosen_image_count(support.capabilities)
                    &&& info.image_format == chosen_surface_format(support.formats@).format
                    &&& info.image_color_space == chosen_surface_format(support.formats@).color_space
                    &&& info.image_extent == chosen_extent(*window_extent, support.capabilities)
                    &&& info.image_array_layers == 1
                    &&& info.image_usage == IMAGE_USAGE_COLOR_ATTACHMENT
                    &&& info.image_sharing_mode == if graphics == present {
                        SharingMode::Exclusive
                    } else {
                        SharingMode::Concurrent
                    }
                    &&& info.queue_family_indices@ == sharing_families(graphics, present)
                    &&& info.pre_transform == support.capabilities.current_transform
                    &&& info.composite_alpha == COMPOSITE_ALPHA_OPAQUE
                    &&& info.present_mode == chosen_present_mode(support.present_modes@)
                    &&& info.clipped
                    &&& info.old_swapchain == previous.handle()
                },
                Err(error) => {
                    if support.formats.len() == 0 {
                        error == SwapChainError::NoFormatAvailable
                    } else if indices.graphics_family is None {
                        error == SwapChainError::GraphicsFamilyMissing
                    } else {
                        indices.present_family is None && error == SwapChainError::PresentFamilyMissing
                    }
                },
            },
    {
        let surface_format = match Self::choose_swap_surface_format(&support.formats) {
            Ok(format) => format,
            Err(error) => {
                return Err(error);
            },
        };
        let present_mode = Self::choose_swap_present_mode(&support.present_modes);
        let extent = Self::choose_swap_extent(window_extent, &support.capabilities);
        let image_count = Self::choose_image_count(&support.capabilities);
        let graphics = match indices.graphics_family {
            Some(graphics) => graphics,
            None => {
                return Err(SwapChainError::GraphicsFamilyMissing);
            },
        };
        let present = match indices.present_family {
            Some(present) => present,
            None => {
                return Err(SwapChainError::PresentFamilyMissing);
            },
        };
        let queue_family_matches = graphics == present;
        let mut queue_family_indices: Vec<u32> = Vec::new();
        if !queue_family_matches {
            queue_family_indices.push(graphics);
            queue_family_indices.push(present);
        }
        assert(queue_family_indices@ =~= sharing_families(graphics, present));
        Ok(
            SwapChainCreateInfo {
                min_image_count: image_count,
                image_format: surface_format.format,
                image_color_space: surface_format.color_space,
                image_extent: extent,
                image_array_layers: 1,
                image_usage: IMAGE_USAGE_COLOR_ATTACHMENT,
                image_sharing_mode: if queue_family_matches {
                    SharingMode::Exclusive
                } else {
                    SharingMode::Concurrent
                },
                queue_family_indices,
                pre_transform: support.capabilities.current_transform,
                composite_alpha: COMPOSITE_ALPHA_OPAQUE,
                present_mode,
                clipped: true,
                old_swapchain: match previous {
                    PreviousSwapChain::Fresh => Handle::null(),
                    PreviousSwapChain::FromPrevious(handle) => handle,
                },
            },
        )
    }

    /// Gives up the swapchain and lists what has to be handed back to the
    /// driver, in the order in which it has to happen. The sync objects are
    /// on the list only when `release_sync` says that the device itself is
    /// going away; a swapchain that is merely replaced leaves them to its
    /// successor.
    pub fn destroy(self, release_sync: bool) -> (releases: Vec<Release>)
        ensures
            releases@ == self@.teardown(release_sync),
    {
        let mut releases: Vec<Release> = Vec::new();
        let count = self.images.len();
        let mut index: usize = 0;
        while index < count
            invariant
                index <= count == self.images.len(),
                releases@ == image_view_releases(self.images@.take(index as int)),
            decreases count - index,
        {
            releases.push(Release::ImageView(self.images[index].image_view));
            assert(releases@ =~= image_view_releases(self.images@.take(index + 1)));
            index += 1;
        }
        assert(self.images@.take(count as int) =~= self.images@);
        if !self.swap_chain.is_null() {
            releases.push(Release::SwapChain(self.swap_chain));
        }
        let ghost head = releases@;
        assert(head =~= image_view_releases(self.images@) + swap_chain_releases(self.swap_chain));
        index = 0;
        while index < count
            invariant
                index <= count == self.images.len(),
                releases@ == head + storage_releases(self.images@.take(index as int)),
            decreases count - index,
        {
            let image = self.images[index];
            releases.push(Release::Sampler(image.storage_sampler));
            releases.push(Release::ImageView(image.storage_image_view));
            releases.push(Release::Image(image.storage_image));
            releases.push(Release::Memory(image.storage_image_memory));
            proof {
                let next = self.images@.take(index + 1);
                assert(next.drop_last() =~= self.images@.take(index as int));
                assert(next.last() == image);
                assert(releases@ =~= head + storage_releases(next));
            }
            index += 1;
        }
        assert(self.images@.take(count as int) =~= self.images@);
        let ghost head = releases@;
        index = 0;
        while index < count
            invariant
                index <= count == self.images.len(),
                releases@ == head + depth_releases(self.images@.take(index as int)),
            decreases count - index,
        {
            let image = self.images[index];
            releases.push(Release::ImageView(image.depth_image_view));
            releases.push(Release::Image(image.depth_image));
            releases.push(Release::Memory(image.depth_image_memory));
            proof {
                let next = self.images@.take(index + 1);
                assert(next.drop_last() =~= self.images@.take(index as int));
                assert(next.last() == image);
                assert(releases@ =~= head + depth_releases(next));
            }
            index += 1;
        }
        assert(self.images@.take(count as int) =~= self.images@);
        let ghost head = releases@;
        index = 0;
        while index < count
            invariant
                index <= count == self.images.len(),
                releases@ == head + framebuffer_releases(self.images@.take(index as int)),
            decreases count - index,
        {
            releases.push(Release::Framebuffer(self.images[index].framebuffer));
            assert(releases@ =~= head + framebuffer_releases(self.images@.take(index + 1)));
            index += 1;
        }
        assert(self.images@.take(count as int) =~= self.images@);
        releases.push(Release::RenderPass(self.render_pass));
        let ghost head = releases@;
        if release_sync {
            let frames = self.sync.len();
            let mut frame: usize = 0;
            while frame < frames
                invariant
                    frame <= frames == self.sync.len(),
                    releases@ == head + sync_releases(self.sync@.take(frame as int)),
                decreases frames - frame,
            {
                let triple = self.sync[frame];
                releases.push(Release::Semaphore(triple.render_finished));
                releases.push(Release::Semaphore(triple.image_available));
                releases.push(Release::Fence(triple.in_flight));
                proof {
                    let next = self.sync@.take(frame + 1);
                    assert(next.drop_last() =~= self.sync@.take(frame as int));
                    assert(next.last() == triple);
                    assert(releases@ =~= head + sync_releases(next));
                }
                frame += 1;
            }
            assert(self.sync@.take(frames as int) =~= self.sync@);
        }
        assert(releases@ =~= self@.teardown(release_sync));
        releases
    }
}

} // verus!
