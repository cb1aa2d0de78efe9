//! The per-frame engine: one consistent epoch of swapchain images,
//! framebuffers and command buffers, a flag recording that the surface
//! invalidated the epoch, and the single pending completion future. Each
//! frame the host reports what acquisition and submission returned; the
//! driver decides what to do and how the state advances.

use vstd::prelude::*;
use crate::surface::{Extent, SurfaceFormat};
use crate::targets::{build_framebuffers, record_command_buffers, CommandBufferDesc};

verus! {

/// One consistent generation of presentation resources: the swapchain's
/// image count, format and extent, one framebuffer per image, and one
/// pre-recorded command buffer per framebuffer. An epoch is only ever
/// replaced wholesale, never mutated field by field.
#[derive(Clone, Debug)]
pub struct Epoch {
    pub image_count: usize,
    pub framebuffers: Vec<usize>,
    pub command_buffers: Vec<CommandBufferDesc>,
    pub format: SurfaceFormat,
    pub extent: Extent,
}

impl Epoch {
    /// The cross-resource invariant of an epoch: framebuffer and
    /// command-buffer counts equal the image count, framebuffer `k` attaches
    /// image `k`, and command buffer `k` targets framebuffer `k`.
    pub open spec fn wf(self) -> bool {
        &&& self.framebuffers@.len() == self.image_count
        &&& self.command_buffers@.len() == self.image_count
        &&& forall|k: int| 0 <= k < self.image_count ==> self.framebuffers@[k] == k
        &&& forall|k: int| 0 <= k < self.image_count
            ==> (#[trigger] self.command_buffers@[k]).framebuffer_index == k
    }
}

/// Builds a whole epoch for a freshly created image chain: one framebuffer
/// per image and one command buffer per framebuffer.
pub fn build_epoch(image_count: usize, format: SurfaceFormat, extent: Extent) -> (e: Epoch)
    ensures
        e.wf(),
        e.image_count == image_count,
        e.format == format,
        e.extent == extent,
        e.framebuffers@.len() == image_count,
        e.command_buffers@.len() == image_count,
{
    let framebuffers = build_framebuffers(image_count);
    let command_buffers = record_command_buffers(framebuffers.len());
    Epoch { image_count, framebuffers, command_buffers, format, extent }
}

/// After any successful rebuild, the framebuffer count, the image count and
/// the command-buffer count all agree.
pub proof fn lemma_rebuild_counts_agree(e: Epoch)
    requires
        e.wf(),
    ensures
        e.framebuffers@.len() == e.image_count,
        e.command_buffers@.len() == e.image_count,
        e.framebuffers@.len() == e.command_buffers@.len(),
{
}

/// What requesting the next presentable image returned: an image index with
/// the presentation engine's suboptimality hint, or the distinguished
/// out-of-date signal. Any other acquisition failure is fatal and never
/// reaches the driver.
#[derive(Clone, Copy, Debug, PartialEq, Eq, Structural)]
pub enum AcquireOutcome {
    Success { image_index: usize, suboptimal: bool },
    OutOfDate,
}

/// What submitting and scheduling presentation returned: success, the
/// distinguished out-of-date signal, or any other submission failure, which
/// only drops the frame.
#[derive(Clone, Copy, Debug, PartialEq, Eq, Structural)]
pub enum SubmitOutcome {
    Success,
    OutOfDate,
    Failure,
}

/// What the driver tells the host to do with the acquired frame: submit the
/// command buffer at the given image index, or skip this frame entirely.
#[derive(Clone, Copy, Debug, PartialEq, Eq, Structural)]
pub enum FrameAction {
    Submit { image_index: usize },
    Skip,
}

/// The frame driver's state between host calls: the current epoch, whether
/// the surface has invalidated it (forcing a rebuild before the next
/// productive frame), and whether the single pending completion future is
/// alive. At most one completion future ever exists; the flag records
/// whether it is currently held or has been handed to a submission chain
/// being built.
#[derive(Clone, Debug)]
pub struct FrameDriver {
    pub epoch: Epoch,
    pub swapchain_invalid: bool,
    pub has_pending_future: bool,
}

/// How acquisition advances the driver: out-of-date marks the epoch invalid
/// and touches nothing else; success hands the pending future to the
/// submission chain and records the suboptimality hint for the next frame.
pub open spec fn spec_acquire_state(s: FrameDriver, outcome: AcquireOutcome) -> FrameDriver {
    match outcome {
        AcquireOutcome::OutOfDate => FrameDriver {
            epoch: s.epoch,
            swapchain_invalid: true,
            has_pending_future: s.has_pending_future,
        },
        AcquireOutcome::Success { image_index, suboptimal } => FrameDriver {
            epoch: s.epoch,
            swapchain_invalid: s.swapchain_invalid || suboptimal,
            has_pending_future: false,
        },
    }
}

/// What the driver asks of the host for each acquisition outcome: submit at
/// the acquired index on success, skip the frame on out-of-date.
pub open spec fn spec_acquire_action(outcome: AcquireOutcome) -> FrameAction {
    match outcome {
        AcquireOutcome::OutOfDate => FrameAction::Skip,
        AcquireOutcome::Success { image_index, suboptimal } => FrameAction::Submit { image_index },
    }
}

/// How submission advances the driver: every outcome leaves exactly one
/// pending future (the returned one on success, an already-signalled
/// placeholder otherwise), and the out-of-date signal additionally marks the
/// epoch invalid.
pub open spec fn spec_submit_state(s: FrameDriver, outcome: SubmitOutcome) -> FrameDriver {
    FrameDriver {
        epoch: s.epoch,
        swapchain_invalid: s.swapchain_invalid || outcome is OutOfDate,
        has_pending_future: true,
    }
}

impl FrameDriver {
    /// The driver's well-formedness: its epoch is internally consistent.
    pub open spec fn wf(self) -> bool {
        self.epoch.wf()
    }

    /// A fresh driver over an initial epoch, holding an already-signalled
    /// completion future so the first frame has something to reclaim.
    pub fn new(epoch: Epoch) -> (r: Self)
        requires
            epoch.wf(),
        ensures
            r.wf(),
            r.epoch == epoch,
            !r.swapchain_invalid,
            r.has_pending_future,
    {
        FrameDriver { epoch, swapchain_invalid: false, has_pending_future: true }
    }

    /// Whether the epoch must be rebuilt before this frame acquires an
    /// image.
    pub fn needs_rebuild(&self) -> (b: bool)
        ensures
            b == self.swapchain_invalid,
    {
        self.swapchain_invalid
    }

    /// Replaces the epoch wholesale after the host recreated the image chain
    /// with `image_count` images of the planned format and extent, and
    /// leaves the invalid state. The pending future is untouched.
    pub fn complete_rebuild(&mut self, image_count: usize, format: SurfaceFormat, extent: Extent)
        requires
            old(self).wf(),
        ensures
            final(self).wf(),
            final(self).epoch.image_count == image_count,
            final(self).epoch.format == format,
            final(self).epoch.extent == extent,
            final(self).epoch.framebuffers@.len() == image_count,
            final(self).epoch.command_buffers@.len() == image_count,
            !final(self).swapchain_invalid,
            final(self).has_pending_future == old(self).has_pending_future,
    {
        self.epoch = build_epoch(image_count, format, extent);
        self.swapchain_invalid = false;
    }

    /// Reacts to what acquisition returned. Out-of-date yields no submission
    /// attempt this frame and marks the epoch invalid; success — suboptimal
    /// or not — yields exactly one submission at the acquired index, a
    /// suboptimal hint forcing a rebuild only before the next frame. The
    /// epoch must be valid (any rebuild already done this frame) and the
    /// pending future present for the submission chain to join.
    pub fn handle_acquire(&mut self, outcome: AcquireOutcome) -> (action: FrameAction)
        requires
            old(self).wf(),
            !old(self).swapchain_invalid,
            old(self).has_pending_future,
            outcome matches AcquireOutcome::Success { image_index, .. }
                ==> image_index < old(self).epoch.image_count,
        ensures
            final(self).wf(),
            *final(self) == spec_acquire_state(*old(self), outcome),
            action == spec_acquire_action(outcome),
            action matches FrameAction::Submit { image_index }
                ==> image_index < final(self).epoch.command_buffers@.len(),
            outcome is OutOfDate ==> action == FrameAction::Skip
                && final(self).swapchain_invalid
                && final(self).has_pending_future == old(self).has_pending_future,
    {
        match outcome {
            AcquireOutcome::OutOfDate => {
                self.swapchain_invalid = true;
                FrameAction::Skip
            },
            AcquireOutcome::Success { image_index, suboptimal } => {
                if suboptimal {
                    self.swapchain_invalid = true;
                }
                self.has_pending_future = false;
                FrameAction::Submit { image_index }
            },
        }
    }

    /// Reacts to what the submission chain returned. Every outcome restores
    /// exactly one pending future: the chain's own future on success, an
    /// already-signalled placeholder on either failure. An out-of-date
    /// signal additionally marks the epoch invalid; any other failure only
    /// drops the frame.
    pub fn handle_submit(&mut self, outcome: SubmitOutcome)
        requires
            old(self).wf(),
            !old(self).has_pending_future,
        ensures
            final(self).wf(),
            *final(self) == spec_submit_state(*old(self), outcome),
            final(self).has_pending_future,
            final(self).epoch == old(self).epoch,
            final(self).swapchain_invalid == (old(self).swapchain_invalid
                || outcome is OutOfDate),
    {
        match outcome {
            SubmitOutcome::Success => {
                self.has_pending_future = true;
            },
            SubmitOutcome::OutOfDate => {
                self.swapchain_invalid = true;
                self.has_pending_future = true;
            },
            SubmitOutcome::Failure => {
                self.has_pending_future = true;
            },
        }
    }
}

/// An out-of-date acquisition never causes a submission attempt in the same
/// frame — the driver orders a skip — and leaves the driver needing a
/// rebuild, with its pending future untouched.
pub proof fn lemma_out_of_date_acquire_skips(s: FrameDriver)
    ensures
        spec_acquire_action(AcquireOutcome::OutOfDate) == FrameAction::Skip,
        spec_acquire_state(s, AcquireOutcome::OutOfDate).swapchain_invalid,
        spec_acquire_state(s, AcquireOutcome::OutOfDate).has_pending_future
            == s.has_pending_future,
        spec_acquire_state(s, AcquireOutcome::OutOfDate).epoch == s.epoch,
{
}

/// A suboptimal acquisition still yields exactly one submission this frame,
/// at the acquired index; after a successful submission the driver needs a
/// rebuild before the next frame and holds exactly one pending future.
pub proof fn lemma_suboptimal_submits_then_rebuilds(s: FrameDriver, image_index: usize)
    ensures
        spec_acquire_action(AcquireOutcome::Success { image_index, suboptimal: true })
            == (FrameAction::Submit { image_index }),
        spec_submit_state(
            spec_acquire_state(s, AcquireOutcome::Success { image_index, suboptimal: true }),
            SubmitOutcome::Success,
        ).swapchain_invalid,
        spec_submit_state(
            spec_acquire_state(s, AcquireOutcome::Success { image_index, suboptimal: true }),
            SubmitOutcome::Success,
        ).has_pending_future,
        spec_submit_state(
            spec_acquire_state(s, AcquireOutcome::Success { image_index, suboptimal: true }),
            SubmitOutcome::Success,
        ).epoch == s.epoch,
{
}

/// After any frame that performed a submission, exactly one pending
/// completion future exists, whatever the submission outcome; a skipped
/// frame keeps whatever single future it already held.
pub proof fn lemma_one_pending_after_submission(s: FrameDriver, outcome: SubmitOutcome)
    ensures
        spec_submit_state(s, outcome).has_pending_future,
        spec_acquire_state(s, AcquireOutcome::OutOfDate).has_pending_future
            == s.has_pending_future,
{
}

/// Every frame restores the invariant it started with: a driver that enters
/// a frame well-formed and holding its single pending future leaves the
/// frame the same way, whether the frame was skipped, dropped or presented.
pub proof fn lemma_frame_preserves_invariant(
    s: FrameDriver,
    acquire: AcquireOutcome,
    submit: SubmitOutcome,
)
    requires
        s.wf(),
        s.has_pending_future,
    ensures
        ({
            let after_acquire = spec_acquire_state(s, acquire);
            match spec_acquire_action(acquire) {
                FrameAction::Skip => after_acquire.wf() && after_acquire.has_pending_future,
                FrameAction::Submit { image_index } => {
                    let after_submit = spec_submit_state(after_acquire, submit);
                    after_submit.wf() && after_submit.has_pending_future
                },
            }
        }),
{
}

} // verus!
