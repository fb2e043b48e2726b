//! The frame scheduler: a renderer is idle or has a frame in progress, and
//! moves between the two as frames begin and end.

use crate::swap_chain::{
    AcquireOutcome, AcquireRequest, Release, SubmitOutcome, SubmitRequest, SwapChain,
    SwapChainView,
};
use crate::vulkan::{Extent2D, Handle};
use crate::window::Window;
use vstd::prelude::*;

verus! {

/// Why a frame could not begin or end.
#[derive(Clone, Copy, PartialEq, Eq, Debug, Structural)]
pub enum FrameError {
    /// A frame was begun while another was in progress.
    DoubleBeginFrame,
    /// A frame was ended while none was in progress.
    EndFrameWithoutBegin,
    /// There is not one command buffer per frame in flight.
    InconsistentCommandBuffers,
    /// No image could be acquired from the swapchain.
    AcquireFailed,
    /// The recording of the frame's commands could not be closed, with the
    /// driver's status.
    RecordFailed(i32),
    /// The frame could not be presented.
    PresentFailed,
    /// The rebuilt swapchain has another colour or depth format than the one
    /// it replaces.
    FormatChanged,
}

/// How a frame begins.
#[derive(Clone, Copy, PartialEq, Eq, Debug, Structural)]
pub enum FrameStart {
    /// The frame is in progress: record into this command buffer.
    Record(Handle),
    /// The swapchain is out of date. No frame this tick: rebuild the
    /// swapchain and begin again on the next.
    Recreate,
}

/// How the steps asked for at the end of a frame went.
#[derive(Clone, Copy, PartialEq, Eq, Debug, Structural)]
pub enum EndOutcome {
    /// The recording could not be closed; nothing was submitted.
    RecordFailed(i32),
    /// The recording was closed and the submit request was carried out this
    /// far.
    Submitted(SubmitOutcome),
}

/// How a frame ends.
#[derive(Clone, Copy, PartialEq, Eq, Debug, Structural)]
pub enum FrameEnd {
    /// The frame was shown.
    Presented,
    /// The swapchain no longer fits the window: rebuild it.
    Recreate,
}

/// One step of replacing a swapchain.
#[derive(Clone, Copy, PartialEq, Eq, Debug, Structural)]
pub enum RecreateStep {
    /// Block until the GPU has finished everything handed to it. Nothing of
    /// the old swapchain may be released before.
    WaitDeviceIdle,
    /// Hand an object of the old swapchain back to the driver.
    Release(Release),
    /// The new swapchain has another number of images: free the per-frame
    /// command buffers and allocate them anew.
    ReallocateCommandBuffers,
}

/// Where the render pass of a frame draws.
#[derive(Clone, Copy, PartialEq, Eq, Debug, Structural)]
pub struct RenderPassBegin {
    pub render_pass: Handle,
    pub framebuffer: Handle,
    /// The extent of the render area, the viewport and the scissor, all of
    /// which start at the origin.
    pub extent: Extent2D,
}

/// The frame scheduler.
#[derive(Debug)]
pub struct Renderer {
    swap_chain: SwapChain,
    command_buffers: Vec<Handle>,
    current_image_index: usize,
    current_frame_index: usize,
    frame_started: bool,
}

/// The state of a `Renderer`.
pub struct RendererView {
    pub swap_chain: SwapChainView,
    /// One command buffer per frame in flight.
    pub command_buffers: Seq<Handle>,
    /// The image acquired for the frame in progress.
    pub current_image_index: nat,
    /// The frame whose command buffer and per-frame resources are in use.
    pub current_frame_index: nat,
    /// Whether a frame is in progress.
    pub frame_started: bool,
}

impl RendererView {
    /// The swapchain is well-formed, there is one command buffer per frame
    /// in flight, the frame index names one of them, and the image of a
    /// frame in progress is one of the swapchain's.
    pub open spec fn well_formed(self) -> bool {
        &&& self.swap_chain.well_formed()
        &&& self.command_buffers.len() == SwapChain::MAX_FRAMES_IN_FLIGHT
        &&& self.current_frame_index < SwapChain::MAX_FRAMES_IN_FLIGHT
        &&& self.frame_started ==> self.current_image_index < self.swap_chain.images.len()
    }

    /// The command buffer of the current frame.
    pub open spec fn current_command_buffer(self) -> Handle {
        self.command_buffers[self.current_frame_index as int]
    }

    /// The frame index after this one.
    pub open spec fn next_frame_index(self) -> nat {
        (self.current_frame_index + 1) % (SwapChain::MAX_FRAMES_IN_FLIGHT as nat)
    }

    /// What `begin_frame` answers to the outcome of the acquire request.
    pub open spec fn begun(self, outcome: AcquireOutcome) -> Result<FrameStart, FrameError> {
        if self.frame_started {
            Err(FrameError::DoubleBeginFrame)
        } else {
            match SwapChain::acquired(self.swap_chain.images.len(), outcome) {
                Ok((image_index, needs_recreate)) => if needs_recreate {
                    Ok(FrameStart::Recreate)
                } else {
                    Ok(FrameStart::Record(self.current_command_buffer()))
                },
                Err(_) => Err(FrameError::AcquireFailed),
            }
        }
    }

    /// The state after `begin_frame`: a frame is in progress on the acquired
    /// image exactly when recording was asked for.
    pub open spec fn after_begin(self, outcome: AcquireOutcome) -> RendererView {
        match (self.begun(outcome), outcome) {
            (Ok(FrameStart::Record(_)), AcquireOutcome::Acquired { image_index, suboptimal }) => {
                RendererView {
                    current_image_index: image_index as nat,
                    frame_started: true,
                    ..self
                }
            },
            _ => self,
        }
    }

    /// What `end_frame` answers, given whether the window was resized.
    pub open spec fn ended(self, resized: bool, outcome: EndOutcome) -> Result<
        FrameEnd,
        FrameError,
    > {
        if !self.frame_started {
            Err(FrameError::EndFrameWithoutBegin)
        } else {
            match outcome {
                EndOutcome::RecordFailed(status) => Err(FrameError::RecordFailed(status)),
                EndOutcome::Submitted(submitted) => match submitted.answer() {
                    Ok(needs_recreate) => if needs_recreate || resized {
                        Ok(FrameEnd::Recreate)
                    } else {
                        Ok(FrameEnd::Presented)
                    },
                    Err(_) => Err(FrameError::PresentFailed),
                },
            }
        }
    }

    /// The state after `end_frame`. Unless no frame was in progress, none is
    /// afterwards, whatever happened; the swapchain has taken in the outcome
    /// of the submit request; and the frame index has moved on if the frame
    /// ended without error.
    pub open spec fn after_end(self, resized: bool, outcome: EndOutcome) -> RendererView {
        if !self.frame_started {
            self
        } else {
            RendererView {
                swap_chain: match outcome {
                    EndOutcome::RecordFailed(_) => self.swap_chain,
                    EndOutcome::Submitted(submitted) => self.swap_chain.after_submit(
                        self.current_image_index as int,
                        submitted,
                    ),
                },
                current_frame_index: if self.ended(resized, outcome) is Ok {
                    self.next_frame_index()
                } else {
                    self.current_frame_index
                },
                frame_started: false,
                ..self
            }
        }
    }

    /// The steps that retire the swapchain in place of which one with
    /// `image_count` images is installed.
    pub open spec fn retirement(self, image_count: nat) -> Seq<RecreateStep> {
        seq![RecreateStep::WaitDeviceIdle] + self.swap_chain.teardown(false).map_values(
            |release: Release| RecreateStep::Release(release),
        ) + if image_count != self.swap_chain.images.len() {
            seq![RecreateStep::ReallocateCommandBuffers]
        } else {
            seq![]
        }
    }
}

/// A frame that begins on an idle renderer with an image of the swapchain and
/// ends shown, with the window as it was, leaves the renderer idle again,
/// with the frame index and the swapchain's cursor each moved on by one,
/// modulo the number of frames in flight.
pub proof fn lemma_shown_frame_advances(state: RendererView, image_index: u32)
    requires
        state.well_formed(),
        !state.frame_started,
        image_index < state.swap_chain.images.len(),
    ensures
        ({
            let outcome = AcquireOutcome::Acquired { image_index, suboptimal: false };
            let shown = EndOutcome::Submitted(SubmitOutcome::Presented { suboptimal: false });
            let begun = state.after_begin(outcome);
            let ended = begun.after_end(false, shown);
            &&& state.begun(outcome) == Ok::<_, FrameError>(
                FrameStart::Record(state.current_command_buffer()),
            )
            &&& begun.frame_started
            &&& begun.ended(false, shown) == Ok::<_, FrameError>(FrameEnd::Presented)
            &&& !ended.frame_started
            &&& ended.current_frame_index == state.next_frame_index()
            &&& ended.swap_chain.current_frame == (state.swap_chain.current_frame + 1) % (
            SwapChain::MAX_FRAMES_IN_FLIGHT as nat)
            &&& ended.swap_chain.images_in_flight[image_index as int]
                == state.swap_chain.current_sync().in_flight
        }),
{
}

/// Whatever the outcome of its steps, the end of a frame leaves no frame in
/// progress; and a frame cannot begin while one is in progress, nor end while
/// none is.
pub proof fn lemma_frames_do_not_nest(
    state: RendererView,
    acquire: AcquireOutcome,
    resized: bool,
    end: EndOutcome,
)
    ensures
        !state.after_end(resized, end).frame_started,
        state.frame_started ==> state.begun(acquire) == Err::<FrameStart, _>(
            FrameError::DoubleBeginFrame,
        ) && state.after_begin(acquire) == state,
        !state.frame_started ==> state.ended(resized, end) == Err::<FrameEnd, _>(
            FrameError::EndFrameWithoutBegin,
        ) && state.after_end(resized, end) == state,
{
}

impl View for Renderer {
    type V = RendererView;

    closed spec fn view(&self) -> RendererView {
        RendererView {
            swap_chain: self.swap_chain@,
            command_buffers: self.command_buffers@,
            current_image_index: self.current_image_index as nat,
            current_frame_index: self.current_frame_index as nat,
            frame_started: self.frame_started,
        }
    }
}

impl Renderer {
    /// An idle renderer on a swapchain, with the command buffers allocated
    /// for it, of which there must be one per frame in flight.
    pub fn new(swap_chain: SwapChain, command_buffers: Vec<Handle>) -> (renderer: Result<
        Renderer,
        FrameError,
    >)
        requires
            swap_chain@.well_formed(),
        ensures
            match renderer {
                Ok(renderer) => {
                    &&& command_buffers.len() == SwapChain::MAX_FRAMES_IN_FLIGHT
                    &&& renderer@.well_formed()
                    &&& renderer@ == (RendererView {
                        swap_chain: swap_chain@,
                        command_buffers: command_buffers@,
                        current_image_index: 0,
                        current_frame_index: 0,
                        frame_started: false,
                    })
                },
                Err(error) => {
                    &&& command_buffers.len() != SwapChain::MAX_FRAMES_IN_FLIGHT
                    &&& error == FrameError::InconsistentCommandBuffers
                },
            },
    {
        if command_buffers.len() != SwapChain::MAX_FRAMES_IN_FLIGHT {
            return Err(FrameError::InconsistentCommandBuffers);
        }
        Ok(
            Renderer {
                swap_chain,
                command_buffers,
                current_image_index: 0,
                current_frame_index: 0,
                frame_started: false,
            },
        )
    }

    /// The swapchain in use.
    pub fn swap_chain(&self) -> (swap_chain: &SwapChain)
        ensures
            swap_chain@ == self@.swap_chain,
    {
        &self.swap_chain
    }

    /// The render pass of the swapchain in use.
    pub fn swap_chain_render_pass(&self) -> (render_pass: Handle)
        ensures
            render_pass == self@.swap_chain.render_pass,
    {
        self.swap_chain.render_pass()
    }

    /// Whether a frame is in progress.
    pub fn frame_started(&self) -> (started: bool)
        ensures
            started == self@.frame_started,
    {
        self.frame_started
    }

    /// The command buffer of the frame in progress.
    pub fn current_command_buffer(&self) -> (command_buffer: Handle)
        requires
            self@.well_formed(),
            self@.frame_started,
        ensures
            command_buffer == self@.current_command_buffer(),
    {
        self.command_buffers[self.current_frame_index]
    }

    /// The index of the frame in progress, by which per-frame resources are
    /// found.
    pub fn frame_index(&self) -> (index: usize)
        requires
            self@.well_formed(),
            self@.frame_started,
        ensures
            index == self@.current_frame_index,
            index < SwapChain::MAX_FRAMES_IN_FLIGHT,
    {
        self.current_frame_index
    }

    /// What to ask of the driver before a frame can begin. Refused while a
    /// frame is in progress, and where the swapchain refuses.
    pub fn begin_frame_request(&self) -> (request: Result<AcquireRequest, FrameError>)
        requires
            self@.well_formed(),
        ensures
            match request {
                Ok(request) => {
                    &&& !self@.frame_started
                    &&& request.wait_fence.raw != 0
                    &&& request == self@.swap_chain.acquire_request()
                },
                Err(error) => if self@.frame_started {
                    error == FrameError::DoubleBeginFrame
                } else {
                    self@.swap_chain.current_sync().in_flight.raw == 0 && error
                        == FrameError::AcquireFailed
                },
            },
    {
        if self.frame_started {
            return Err(FrameError::DoubleBeginFrame);
        }
        match self.swap_chain.acquire_request() {
            Ok(request) => Ok(request),
            Err(_) => Err(FrameError::AcquireFailed),
        }
    }

    /// Begins a frame, given the outcome of the acquire request. Where the
    /// swapchain is out of date the renderer stays idle and asks for the
    /// swapchain to be rebuilt; otherwise the frame is in progress and its
    /// command buffer is handed out for recording.
    pub fn begin_frame(&mut self, outcome: AcquireOutcome) -> (start: Result<FrameStart, FrameError>)
        requires
            old(self)@.well_formed(),
        ensures
            final(self)@.well_formed(),
            start == old(self)@.begun(outcome),
            final(self)@ == old(self)@.after_begin(outcome),
            final(self)@.frame_started == (old(self)@.frame_started || start matches Ok(
                FrameStart::Record(_),
            )),
    {
        if self.frame_started {
            return Err(FrameError::DoubleBeginFrame);
        }
        match self.swap_chain.acquire_next_image(outcome) {
            Ok((image_index, needs_recreate)) => {
                if needs_recreate {
                    return Ok(FrameStart::Recreate);
                }
                self.current_image_index = image_index;
                self.frame_started = true;
                Ok(FrameStart::Record(self.command_buffers[self.current_frame_index]))
            },
            Err(_) => Err(FrameError::AcquireFailed),
        }
    }

    /// What to ask of the driver at the end of the frame in progress, once
    /// its recording is closed.
    pub fn end_frame_request(&self) -> (request: Result<SubmitRequest, FrameError>)
        requires
            self@.well_formed(),
        ensures
            match request {
                Ok(request) => {
                    &&& self@.frame_started
                    &&& request == self@.swap_chain.submit_request(
                        self@.current_command_buffer(),
                        self@.current_image_index as int,
                    )
                },
                Err(error) => !self@.frame_started && error == FrameError::EndFrameWithoutBegin,
            },
    {
        if !self.frame_started {
            return Err(FrameError::EndFrameWithoutBegin);
        }
        Ok(
            self.swap_chain.submit_request(
                self.command_buffers[self.current_frame_index],
                self.current_image_index,
            ),
        )
    }

    /// Ends the frame in progress, given how the steps of the end-of-frame
    /// request went. The renderer is idle afterwards in every case. The
    /// swapchain is to be rebuilt where the driver found it stale or the
    /// window was resized, and the window's resize flag is reset then. Any
    /// failure of a step is final, whatever the window did.
    pub fn end_frame(&mut self, window: &mut Window, outcome: EndOutcome) -> (end: Result<
        FrameEnd,
        FrameError,
    >)
        requires
            old(self)@.well_formed(),
        ensures
            final(self)@.well_formed(),
            end == old(self)@.ended(old(window).framebuffer_resized, outcome),
            final(self)@ == old(self)@.after_end(old(window).framebuffer_resized, outcome),
            !final(self)@.frame_started,
            *final(window) == if end == Ok::<_, FrameError>(FrameEnd::Recreate) {
                Window { framebuffer_resized: false, ..*old(window) }
            } else {
                *old(window)
            },
    {
        if !self.frame_started {
            return Err(FrameError::EndFrameWithoutBegin);
        }
        self.frame_started = false;
        let submitted = match outcome {
            EndOutcome::RecordFailed(status) => {
                return Err(FrameError::RecordFailed(status));
            },
            EndOutcome::Submitted(submitted) => submitted,
        };
        let recreate = match self.swap_chain.submit_command_buffers(
            self.current_image_index,
            submitted,
        ) {
            Ok(needs_recreate) => needs_recreate || window.was_window_resized(),
            Err(_) => {
                return Err(FrameError::PresentFailed);
            },
        };
        self.current_frame_index = (self.current_frame_index + 1) % SwapChain::MAX_FRAMES_IN_FLIGHT;
        if recreate {
            window.reset_window_resized_flag();
            Ok(FrameEnd::Recreate)
        } else {
            Ok(FrameEnd::Presented)
        }
    }

    /// Where the render pass of the frame in progress draws: into the
    /// framebuffer of the acquired image, over the whole extent.
    pub fn begin_swap_chain_render_pass(&self, command_buffer: Handle) -> (begin: RenderPassBegin)
        requires
            self@.well_formed(),
            self@.frame_started,
            command_buffer == self@.current_command_buffer(),
        ensures
            begin == (RenderPassBegin {
                render_pass: self@.swap_chain.render_pass,
                framebuffer: self@.swap_chain.images[self@.current_image_index as int].framebuffer,
                extent: self@.swap_chain.extent,
            }),
    {
        RenderPassBegin {
            render_pass: self.swap_chain.render_pass(),
            framebuffer: self.swap_chain.framebuffer(self.current_image_index),
            extent: self.swap_chain.swap_chain_extent(),
        }
    }

    /// Installs a rebuilt swapchain in place of the one in use, provided
    /// the two agree in colour and depth format, and lists the steps that
    /// retire the old one: the GPU must fall idle before anything of it is
    /// released, and its sync objects stay, for the new one uses them. The
    /// replacement is one that took over the sync set of the swapchain in
    /// use; the sync set is the same after a recreation as before.
    pub fn recreate_swap_chain(&mut self, replacement: SwapChain) -> (steps: Result<
        Vec<RecreateStep>,
        FrameError,
    >)
        requires
            old(self)@.well_formed(),
            !old(self)@.frame_started,
            replacement@.well_formed(),
            replacement@.sync == old(self)@.swap_chain.sync,
        ensures
            final(self)@.well_formed(),
            final(self)@.swap_chain.sync == old(self)@.swap_chain.sync,
            match steps {
                Ok(steps) => {
                    &&& old(self)@.swap_chain.image_format == replacement@.image_format
                    &&& old(self)@.swap_chain.depth_format == replacement@.depth_format
                    &&& final(self)@ == (RendererView { swap_chain: replacement@, ..old(self)@ })
                    &&& steps@ == old(self)@.retirement(replacement@.images.len())
                },
                Err(error) => {
                    &&& error == FrameError::FormatChanged
                    &&& old(self)@.swap_chain.image_format != replacement@.image_format
                        || old(self)@.swap_chain.depth_format != replacement@.depth_format
                    &&& final(self)@ == old(self)@
                },
            },
    {
        if !self.swap_chain.compare_swap_formats(&replacement) {
            return Err(FrameError::FormatChanged);
        }
        let reallocate = replacement.image_count() != self.swap_chain.image_count();
        let mut retired = replacement;
        std::mem::swap(&mut self.swap_chain, &mut retired);
        let releases = retired.destroy(false);
        let mut steps: Vec<RecreateStep> = Vec::new();
        steps.push(RecreateStep::WaitDeviceIdle);
        let ghost mapped = releases@.map_values(|release: Release| RecreateStep::Release(release));
        let mut index: usize = 0;
        while index < releases.len()
            invariant
                index <= releases.len(),
                mapped == releases@.map_values(|release: Release| RecreateStep::Release(release)),
                steps@ == seq![RecreateStep::WaitDeviceIdle] + mapped.take(index as int),
            decreases releases.len() - index,
        {
            steps.push(RecreateStep::Release(releases[index]));
            assert(steps@ =~= seq![RecreateStep::WaitDeviceIdle] + mapped.take(index + 1));
            index += 1;
        }
        assert(mapped.take(index as int) =~= mapped);
        if reallocate {
            steps.push(RecreateStep::ReallocateCommandBuffers);
        }
        assert(steps@ =~= old(self)@.retirement(replacement@.images.len()));
        Ok(steps)
    }

    /// Takes the command buffers allocated anew after the swapchain changed
    /// its number of images. There must again be one per frame in flight.
    pub fn replace_command_buffers(&mut self, command_buffers: Vec<Handle>) -> (replaced: Result<
        Vec<Handle>,
        FrameError,
    >)
        requires
            old(self)@.well_formed(),
        ensures
            final(self)@.well_formed(),
            match replaced {
                Ok(former) => {
                    &&& command_buffers.len() == SwapChain::MAX_FRAMES_IN_FLIGHT
                    &&& former@ == old(self)@.command_buffers
                    &&& final(self)@ == (RendererView {
                        command_buffers: command_buffers@,
                        ..old(self)@
                    })
                },
                Err(error) => {
                    &&& command_buffers.len() != SwapChain::MAX_FRAMES_IN_FLIGHT
                    &&& error == FrameError::InconsistentCommandBuffers
                    &&& final(self)@ == old(self)@
                },
            },
    {
        if command_buffers.len() != SwapChain::MAX_FRAMES_IN_FLIGHT {
            return Err(FrameError::InconsistentCommandBuffers);
        }
        let mut former = command_buffers;
        std::mem::swap(&mut self.command_buffers, &mut former);
        Ok(former)
    }

    /// Gives up the renderer at shutdown: the command buffers to free first,
    /// then everything of the swapchain, sync objects included, in the order
    /// of its release.
    pub fn destroy(self) -> (parts: (Vec<Handle>, Vec<Release>))
        ensures
            parts.0@ == self@.command_buffers,
            parts.1@ == self@.swap_chain.teardown(true),
    {
        let releases = self.swap_chain.destroy(true);
        (self.command_buffers, releases)
    }
}

} // verus!
