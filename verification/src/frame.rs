//! The frame renderer's per-frame decisions.
//!
//! Each frame runs acquire, record, submit, present, wait — in that order,
//! with exactly one frame in flight. The GPU calls themselves happen in the
//! shell around the library; this module decides what to do next after each
//! of them, bounds the retries after a stale swapchain, and plans which
//! draws a command buffer records. An empty mesh is planned as no draw at
//! all: drawing nothing is always legal, erroring is not.

use vstd::prelude::*;

use crate::pipeline::PipelineKind;
use crate::swapchain::PresentOutcome;

verus! {

/// How often one frame may rebuild a stale swapchain and retry before the
/// failure counts as fatal.
pub const MAX_STALE_RETRIES: u32 = 3;

/// Where the frame loop stands between two GPU calls.
#[derive(Clone, Copy, PartialEq, Eq, Structural, Debug)]
pub enum FramePhase {
    /// Between frames; waiting for a redraw request.
    Idle,
    /// An image acquisition is outstanding.
    Acquiring,
    /// The frame's command buffer is being recorded.
    Recording,
    /// The frame was submitted and presented; the GPU wait is outstanding.
    Submitted,
    /// The swapchain was found stale; a rebuild is outstanding.
    Recreating,
}

/// What the shell must do next.
#[derive(Clone, Copy, PartialEq, Eq, Structural, Debug)]
pub enum FrameAction {
    /// Acquire the next swapchain image.
    AcquireImage,
    /// Record the frame's commands into the given image's framebuffer.
    RecordCommands { image_index: u32 },
    /// Submit the recorded commands, present, and wait for the GPU.
    SubmitAndPresent,
    /// Rebuild the swapchain (and with it the pipelines), then report back.
    RebuildSwapchain,
    /// The frame is done; wait for the next redraw request.
    FrameDone,
    /// Give up on rendering: a failure outside the stale-swapchain cases,
    /// or retries exhausted.
    ReportFatal,
}

/// What an image acquisition reported.
#[derive(Clone, Copy, PartialEq, Eq, Structural, Debug)]
pub enum AcquireOutcome {
    /// An image is ready. `suboptimal` notes that the chain should be
    /// rebuilt soon, though the image is usable.
    Ready { image_index: u32, suboptimal: bool },
    /// The chain no longer matches the surface; no image came back.
    OutOfDate,
    /// Any other acquisition failure.
    Failed,
}

/// The frame loop: its phase, the stale retries spent on the current
/// frame, and how many frames it has completed.
#[derive(Clone, Copy, PartialEq, Eq, Structural, Debug)]
pub struct FrameLoop {
    pub phase: FramePhase,
    pub retries: u32,
    pub frames_completed: u64,
}

impl FrameLoop {
    /// A fresh loop, idle, with nothing spent.
    pub fn new() -> (r: FrameLoop)
        ensures
            r.phase == FramePhase::Idle,
            r.retries == 0,
            r.frames_completed == 0,
    {
        FrameLoop { phase: FramePhase::Idle, retries: 0, frames_completed: 0 }
    }

    /// A redraw request starts a frame: rebuild first when the swapchain is
    /// known stale, else acquire an image.
    pub fn on_redraw(&mut self, swapchain_stale: bool) -> (action: FrameAction)
        requires
            old(self).phase == FramePhase::Idle,
        ensures
            final(self).retries == 0,
            final(self).frames_completed == old(self).frames_completed,
            swapchain_stale ==> final(self).phase == FramePhase::Recreating && action
                == FrameAction::RebuildSwapchain,
            !swapchain_stale ==> final(self).phase == FramePhase::Acquiring && action
                == FrameAction::AcquireImage,
    {
        self.retries = 0;
        if swapchain_stale {
            self.phase = FramePhase::Recreating;
            FrameAction::RebuildSwapchain
        } else {
            self.phase = FramePhase::Acquiring;
            FrameAction::AcquireImage
        }
    }

    /// After an acquisition: a usable, well-fitting image moves the frame
    /// on to recording; a suboptimal or out-of-date chain is rebuilt and
    /// the frame retried, at most [`MAX_STALE_RETRIES`] times; any other
    /// failure is fatal.
    pub fn on_acquire(&mut self, outcome: AcquireOutcome) -> (action: FrameAction)
        requires
            old(self).phase == FramePhase::Acquiring,
        ensures
            final(self).frames_completed == old(self).frames_completed,
            match outcome {
                AcquireOutcome::Ready { image_index, suboptimal } => {
                    &&& !suboptimal ==> final(self).phase == FramePhase::Recording && action
                        == (FrameAction::RecordCommands { image_index }) && final(self).retries
                        == old(self).retries
                    &&& (suboptimal && old(self).retries < MAX_STALE_RETRIES) ==> final(self).phase
                        == FramePhase::Recreating && action == FrameAction::RebuildSwapchain
                        && final(self).retries == old(self).retries + 1
                    &&& (suboptimal && old(self).retries >= MAX_STALE_RETRIES) ==> final(self).phase
                        == FramePhase::Idle && action == FrameAction::ReportFatal
                },
                AcquireOutcome::OutOfDate => {
                    &&& old(self).retries < MAX_STALE_RETRIES ==> final(self).phase
                        == FramePhase::Recreating && action == FrameAction::RebuildSwapchain
                        && final(self).retries == old(self).retries + 1
                    &&& old(self).retries >= MAX_STALE_RETRIES ==> final(self).phase
                        == FramePhase::Idle && action == FrameAction::ReportFatal
                },
                AcquireOutcome::Failed => final(self).phase == FramePhase::Idle && action
                    == FrameAction::ReportFatal,
            },
    {
        match outcome {
            AcquireOutcome::Ready { image_index, suboptimal } => {
                if !suboptimal {
                    self.phase = FramePhase::Recording;
                    FrameAction::RecordCommands { image_index }
                } else {
                    self.retry_after_stale()
                }
            },
            AcquireOutcome::OutOfDate => self.retry_after_stale(),
            AcquireOutcome::Failed => {
                self.phase = FramePhase::Idle;
                FrameAction::ReportFatal
            },
        }
    }

    /// Books one stale retry: rebuild and try again, or give up when the
    /// frame has retried too often.
    fn retry_after_stale(&mut self) -> (action: FrameAction)
        ensures
            final(self).frames_completed == old(self).frames_completed,
            old(self).retries < MAX_STALE_RETRIES ==> final(self).phase == FramePhase::Recreating
                && action == FrameAction::RebuildSwapchain && final(self).retries == old(
                self,
            ).retries + 1,
            old(self).retries >= MAX_STALE_RETRIES ==> final(self).phase == FramePhase::Idle
                && action == FrameAction::ReportFatal,
    {
        if self.retries < MAX_STALE_RETRIES {
            self.retries = self.retries + 1;
            self.phase = FramePhase::Recreating;
            FrameAction::RebuildSwapchain
        } else {
            self.phase = FramePhase::Idle;
            FrameAction::ReportFatal
        }
    }

    /// After the swapchain (and the pipelines) were rebuilt, the frame is
    /// retried from acquisition.
    pub fn on_rebuilt(&mut self) -> (action: FrameAction)
        requires
            old(self).phase == FramePhase::Recreating,
        ensures
            final(self).phase == FramePhase::Acquiring,
            final(self).retries == old(self).retries,
            final(self).frames_completed == old(self).frames_completed,
            action == FrameAction::AcquireImage,
    {
        self.phase = FramePhase::Acquiring;
        FrameAction::AcquireImage
    }

    /// Recording is done: submit, chained after the acquire semaphore, then
    /// present, then wait — recording always happens before submission.
    pub fn on_recorded(&mut self) -> (action: FrameAction)
        requires
            old(self).phase == FramePhase::Recording,
        ensures
            final(self).phase == FramePhase::Submitted,
            final(self).retries == old(self).retries,
            final(self).frames_completed == old(self).frames_completed,
            action == FrameAction::SubmitAndPresent,
    {
        self.phase = FramePhase::Submitted;
        FrameAction::SubmitAndPresent
    }

    /// After the GPU wait: a presented frame completes the cycle (a
    /// suboptimal result completes it too, and the stale swapchain is dealt
    /// with on the next frame); an out-of-date result retries after a
    /// rebuild; any other failure is fatal.
    pub fn on_presented(&mut self, outcome: PresentOutcome) -> (action: FrameAction)
        requires
            old(self).phase == FramePhase::Submitted,
            old(self).frames_completed < u64::MAX,
        ensures
            match outcome {
                PresentOutcome::Success | PresentOutcome::Suboptimal => {
                    &&& final(self).phase == FramePhase::Idle
                    &&& final(self).frames_completed == old(self).frames_completed + 1
                    &&& action == FrameAction::FrameDone
                },
                PresentOutcome::OutOfDate => {
                    &&& final(self).frames_completed == old(self).frames_completed
                    &&& old(self).retries < MAX_STALE_RETRIES ==> final(self).phase
                        == FramePhase::Recreating && action == FrameAction::RebuildSwapchain
                    &&& old(self).retries >= MAX_STALE_RETRIES ==> final(self).phase
                        == FramePhase::Idle && action == FrameAction::ReportFatal
                },
            },
    {
        match outcome {
            PresentOutcome::Success | PresentOutcome::Suboptimal => {
                self.phase = FramePhase::Idle;
                self.frames_completed = self.frames_completed + 1;
                FrameAction::FrameDone
            },
            PresentOutcome::OutOfDate => self.retry_after_stale(),
        }
    }
}

/// One recorded draw: the pipeline it goes through and how many indices it
/// draws.
#[derive(Clone, Copy, PartialEq, Eq, Structural, Debug)]
pub struct DrawCall {
    pub pipeline: PipelineKind,
    pub index_count: u32,
}

/// A mesh is drawn only when it has more than one index entry: an empty
/// mesh is uploaded as a one-entry placeholder buffer, which is never
/// drawn.
pub open spec fn draws_mesh(index_count: int) -> bool {
    index_count > 1
}

/// The draws one frame records, in order: the terrain mesh, then the object
/// mesh, each exactly when it has geometry.
pub open spec fn frame_draws(terrain_index_count: int, object_index_count: int) -> Seq<DrawCall> {
    (if draws_mesh(terrain_index_count) {
        seq![
            DrawCall {
                pipeline: PipelineKind::Terrain,
                index_count: terrain_index_count as u32,
            },
        ]
    } else {
        Seq::empty()
    }) + (if draws_mesh(object_index_count) {
        seq![
            DrawCall { pipeline: PipelineKind::Object, index_count: object_index_count as u32 },
        ]
    } else {
        Seq::empty()
    })
}

/// Plans the draws of one frame from the index counts of the two meshes.
pub fn plan_frame_draws(terrain_index_count: u32, object_index_count: u32) -> (r: Vec<DrawCall>)
    ensures
        r@ == frame_draws(terrain_index_count as int, object_index_count as int),
{
    let mut draws: Vec<DrawCall> = Vec::new();
    if terrain_index_count > 1 {
        draws.push(
            DrawCall { pipeline: PipelineKind::Terrain, index_count: terrain_index_count },
        );
    }
    if object_index_count > 1 {
        draws.push(DrawCall { pipeline: PipelineKind::Object, index_count: object_index_count });
    }
    proof {
        assert(draws@ =~= frame_draws(terrain_index_count as int, object_index_count as int));
    }
    draws
}

/// A frame over empty meshes records no draw call at all: the cycle still
/// runs, and drawing nothing is legal.
pub proof fn lemma_empty_meshes_draw_nothing(terrain_index_count: int, object_index_count: int)
    requires
        terrain_index_count <= 1,
        object_index_count <= 1,
    ensures
        frame_draws(terrain_index_count, object_index_count) == Seq::<DrawCall>::empty(),
{
    assert(frame_draws(terrain_index_count, object_index_count) =~= Seq::<DrawCall>::empty());
}

} // verus!
