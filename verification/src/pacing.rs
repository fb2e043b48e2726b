//! Why the acquire / submit protocol is safe: a model of what the CPU knows
//! of the GPU's progress, and the proofs that no fence is reused while its
//! submission may still run, that no image is drawn to while the frame that
//! last drew to it may still run, and that no wait can hang on a fence that
//! nothing will ever signal.

use crate::swap_chain::{SubmitOutcome, SwapChainView};
use crate::vulkan::Handle;
use vstd::prelude::*;

verus! {

/// What the CPU knows of the GPU's progress.
pub struct GpuView {
    /// The fences handed to submissions that are not known to have
    /// finished. A wait for a fence returns when its submission has finished.
    pub pending: Set<Handle>,
    /// The fences that were reset and not handed to a submission since. A
    /// wait for such a fence never returns.
    pub stranded: Set<Handle>,
    /// For each image that a frame has been submitted for, the fence of the
    /// last such frame.
    pub last_user: Map<int, Handle>,
}

impl GpuView {
    /// Nothing has been submitted yet, and every fence is signalled.
    pub open spec fn idle() -> GpuView {
        GpuView { pending: Set::empty(), stranded: Set::empty(), last_user: Map::empty() }
    }

    /// After a wait for `fence` has returned.
    pub open spec fn waited(self, fence: Handle) -> GpuView {
        GpuView { pending: self.pending.remove(fence), ..self }
    }

    /// After a wait for `fence`, where there is one, has returned.
    pub open spec fn waited_if(self, fence: Option<Handle>) -> GpuView {
        match fence {
            Some(fence) => self.waited(fence),
            None => self,
        }
    }

    /// After `fence` was reset.
    pub open spec fn reset(self, fence: Handle) -> GpuView {
        GpuView { stranded: self.stranded.insert(fence), ..self }
    }

    /// After a frame that draws to `image` was submitted with `fence`.
    pub open spec fn submitted(self, image: int, fence: Handle) -> GpuView {
        GpuView {
            pending: self.pending.insert(fence),
            stranded: self.stranded.remove(fence),
            last_user: self.last_user.insert(image, fence),
        }
    }

    /// The frame that last drew to `image`, if any, is known to have
    /// finished.
    pub open spec fn image_is_free(self, image: int) -> bool {
        self.last_user.contains_key(image) ==> !self.pending.contains(self.last_user[image])
    }
}

impl SubmitOutcome {
    /// The steps of the submit request got as far as the submission.
    pub open spec fn reached_submission(self) -> bool {
        self is Presented || self is PresentFailed
    }
}

impl SwapChainView {
    /// The swapchain's fence slots say what the GPU model says: an
    /// unclaimed image has had no frame, and a claimed one was last drawn to
    /// by the frame whose fence the slot holds.
    pub open spec fn tracks(self, gpu: GpuView) -> bool {
        forall|image: int|
            0 <= image < self.images_in_flight.len() ==> if (
            #[trigger] self.images_in_flight[image]).raw == 0 {
                !gpu.last_user.contains_key(image)
            } else {
                gpu.last_user.contains_key(image) && gpu.last_user[image]
                    == self.images_in_flight[image]
            }
    }

    /// Every pending fence is the in-flight fence of one of the frames, so
    /// that no more submissions may be running than there are frames in
    /// flight.
    pub open spec fn bounds(self, gpu: GpuView) -> bool {
        forall|fence: Handle| #[trigger]
            gpu.pending.contains(fence) ==> Self::is_frame_fence(self.sync, fence)
    }

    /// The GPU model once the steps of the acquire request have been
    /// carried out.
    pub open spec fn gpu_after_acquire(self, gpu: GpuView) -> GpuView {
        gpu.waited(self.acquire_request().wait_fence)
    }

    /// The GPU model at the point where the frame's fence is reset and the
    /// frame submitted for `image`: the acquire request has been carried
    /// out, and so has the wait of the submit request.
    pub open spec fn gpu_at_submission(self, gpu: GpuView, buffer: Handle, image: int)
        -> GpuView {
        self.gpu_after_acquire(gpu).waited_if(self.submit_request(buffer, image).wait_image_fence)
    }

    /// The GPU model once the steps of the acquire request and of the submit
    /// request for `image` have been carried out as far as `outcome` says.
    pub open spec fn gpu_after_frame(
        self,
        gpu: GpuView,
        buffer: Handle,
        image: int,
        outcome: SubmitOutcome,
    ) -> GpuView {
        let fence = self.submit_request(buffer, image).frame_fence;
        match outcome {
            SubmitOutcome::WaitFailed(_) => self.gpu_after_acquire(gpu),
            SubmitOutcome::ResetFailed(_) => self.gpu_at_submission(gpu, buffer, image),
            SubmitOutcome::SubmitFailed(_) => self.gpu_at_submission(gpu, buffer, image).reset(
                fence,
            ),
            _ => self.gpu_at_submission(gpu, buffer, image).reset(fence).submitted(image, fence),
        }
    }
}

/// A fresh swapchain tracks and bounds a GPU to which nothing has been
/// submitted.
pub proof fn lemma_fresh_swap_chain_tracks_idle_gpu(state: SwapChainView)
    requires
        forall|image: int|
            0 <= image < state.images_in_flight.len() ==> (
            #[trigger] state.images_in_flight[image]).raw == 0,
    ensures
        state.tracks(GpuView::idle()),
        state.bounds(GpuView::idle()),
{
}

/// When a frame is submitted, after the steps of the acquire request and
/// the wait of the submit request, the frame's fence belongs to no
/// submission that may still run, and neither does the fence of the frame
/// that last drew to the image: the fence may be reset and reused, and the
/// image may be drawn to.
pub proof fn lemma_submission_is_safe(
    state: SwapChainView,
    gpu: GpuView,
    buffer: Handle,
    image: int,
)
    requires
        state.well_formed(),
        state.tracks(gpu),
        0 <= image < state.images.len(),
    ensures
        !state.gpu_at_submission(gpu, buffer, image).pending.contains(
            state.submit_request(buffer, image).frame_fence,
        ),
        state.gpu_at_submission(gpu, buffer, image).image_is_free(image),
{
    assert(state.images_in_flight[image].raw == 0 || gpu.last_user[image]
        == state.images_in_flight[image]);
}

/// Once a frame has been submitted and the swapchain has taken in the
/// outcome, the swapchain tracks the GPU again, provided the frame's fence is
/// not the null handle. So the safety of a submission holds for every frame
/// of a run, not only for the first.
pub proof fn lemma_frame_keeps_track(
    state: SwapChainView,
    gpu: GpuView,
    buffer: Handle,
    image: int,
    outcome: SubmitOutcome,
)
    requires
        state.well_formed(),
        state.tracks(gpu),
        0 <= image < state.images.len(),
        state.current_sync().in_flight.raw != 0,
        outcome.reached_submission(),
    ensures
        state.after_submit(image, outcome).tracks(
            state.gpu_after_frame(gpu, buffer, image, outcome),
        ),
{
    let after = state.after_submit(image, outcome);
    let gpu_after = state.gpu_after_frame(gpu, buffer, image, outcome);
    assert forall|slot: int| 0 <= slot < after.images_in_flight.len() implies if (
    #[trigger] after.images_in_flight[slot]).raw == 0 {
        !gpu_after.last_user.contains_key(slot)
    } else {
        gpu_after.last_user.contains_key(slot) && gpu_after.last_user[slot]
            == after.images_in_flight[slot]
    } by {
        if slot != image {
            assert(after.images_in_flight[slot] == state.images_in_flight[slot]);
        }
    }
}

/// A frame keeps the pending fences among the fences of the frames in
/// flight, however its steps went.
pub proof fn lemma_frame_stays_bounded(
    state: SwapChainView,
    gpu: GpuView,
    buffer: Handle,
    image: int,
    outcome: SubmitOutcome,
)
    requires
        state.well_formed(),
        state.bounds(gpu),
        0 <= image < state.images.len(),
    ensures
        state.after_submit(image, outcome).bounds(
            state.gpu_after_frame(gpu, buffer, image, outcome),
        ),
{
    let after = state.after_submit(image, outcome);
    let gpu_after = state.gpu_after_frame(gpu, buffer, image, outcome);
    assert(state.sync[state.current_frame as int].in_flight == state.current_sync().in_flight);
    assert forall|fence: Handle| #[trigger] gpu_after.pending.contains(fence) implies
        SwapChainView::is_frame_fence(after.sync, fence) by {
        if fence != state.current_sync().in_flight {
            assert(gpu.pending.contains(fence));
        }
    }
}

/// Whenever the swapchain answers the outcome of a frame's steps with
/// anything but an error, the frame has left no fence stranded: a fence is
/// stranded only by a submission that fails after the fence was reset, and
/// that is an error. So as long as no error has been answered, every wait
/// that the protocol asks for is for a fence that is signalled or will be.
pub proof fn lemma_no_fence_is_stranded(
    state: SwapChainView,
    gpu: GpuView,
    buffer: Handle,
    image: int,
    outcome: SubmitOutcome,
)
    requires
        outcome.answer() is Ok,
    ensures
        state.gpu_after_frame(gpu, buffer, image, outcome).stranded.subset_of(gpu.stranded),
        gpu.stranded =~= Set::<Handle>::empty() ==> state.gpu_after_frame(
            gpu,
            buffer,
            image,
            outcome,
        ).stranded =~= Set::<Handle>::empty(),
{
}

} // verus!
