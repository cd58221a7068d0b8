//! The renderer's frame state machine.
//!
//! The renderer tracks the swapchain-dependent state of the frame loop:
//! how many swapchain images and framebuffers exist, the viewport
//! dimensions, and the sticky rebuild flag that is set by a resize or a
//! stale presentation and drained by a successful swapchain rebuild.
//!
//! Each frame runs: rebuild-if-needed, acquire, record, submit-present.
//! The device work itself — recreating the swapchain, blocking on the
//! acquire, executing and presenting — is performed by the surrounding
//! application, which reports each step's outcome back; the decisions
//! about what to do next, and every state change, are made here.  A
//! transient outcome (a stale surface, unusable dimensions) never loses
//! state: the frame is skipped and the previous frame's completion future
//! stays the chain's head.

use vstd::prelude::*;

use crate::Handle;
use crate::drawable::{DrawCmd, Drawable};
use crate::transform::UNIT_WORD;

verus! {

/// The word encoding of the background shade the color attachment is
/// cleared to at the start of every frame's render pass.
pub const CLEAR_SHADE_WORD: u32 = 0x3DCC_CCCD;

/// The renderer's swapchain-dependent state.
#[derive(Clone, Copy, Debug, PartialEq, Eq)]
pub struct Renderer {
    /// The render pass every frame is recorded against; it persists
    /// across swapchain rebuilds.
    pub render_pass: Handle,
    /// How many images the current swapchain has.
    pub image_count: usize,
    /// How many framebuffers exist — one per swapchain image.
    pub framebuffer_count: usize,
    /// The current viewport width, in pixels.
    pub viewport_width: u32,
    /// The current viewport height, in pixels.
    pub viewport_height: u32,
    /// Whether the swapchain must be rebuilt before the next acquire.
    /// Sticky until a rebuild succeeds.
    pub should_recreate_swapchain: bool,
}

/// What the swapchain rebuild reported.  A failure that is neither of
/// these (a device or surface mismatch) is fatal and never reaches the
/// state machine.
#[derive(Clone, Copy, Debug, PartialEq, Eq)]
pub enum RebuildOutcome {
    /// The swapchain was recreated with `image_count` images at the given
    /// pixel dimensions, and one framebuffer was rebuilt per image.
    Rebuilt { image_count: usize, width: u32, height: u32 },
    /// The surface's current dimensions are unusable (a minimized
    /// window): not an error, the frame is skipped and retried next tick.
    UnsupportedDimensions,
}

/// What acquiring the next presentable image reported.  Any other
/// acquisition failure is fatal and never reaches the state machine.
#[derive(Clone, Copy, Debug, PartialEq, Eq)]
pub enum AcquireOutcome {
    /// Image `image_index` was acquired; `suboptimal` says presentation
    /// still works but the swapchain should be rebuilt for the next
    /// frame.
    Acquired { image_index: usize, suboptimal: bool },
    /// The surface is out of date: no image was acquired.
    OutOfDate,
}

/// What recording and submitting the frame reported.
#[derive(Clone, Copy, Debug, PartialEq, Eq)]
pub enum SubmitOutcome {
    /// The frame was submitted and scheduled for presentation.
    Completed,
    /// The surface went out of date at flush time: the frame was dropped.
    OutOfDate,
    /// Recording a draw unit was rejected (a binding mismatch): the frame
    /// was abandoned before submission.
    RecordingFailed,
    /// Submission failed for another non-fatal reason: the frame was
    /// dropped.
    SubmitFailed,
}

/// What to do first this frame.
#[derive(Clone, Copy, Debug, PartialEq, Eq)]
pub enum BeginAction {
    /// Recreate the swapchain at the surface's current pixel dimensions.
    Rebuild { width: u32, height: u32 },
    /// The swapchain is current: acquire the next image.
    Acquire,
}

/// What to do after the rebuild step.
#[derive(Clone, Copy, Debug, PartialEq, Eq)]
pub enum RebuildAction {
    /// Acquire the next image.
    Acquire,
    /// Skip this frame and retry next tick, returning the previous
    /// frame's future unchanged.
    SkipFrame,
}

/// What to do after the acquire step.
#[derive(Clone, Copy, Debug, PartialEq, Eq)]
pub enum AcquireAction {
    /// Record and submit the frame against framebuffer `image_index`.
    Record { image_index: usize },
    /// Skip this frame without submitting anything, returning the
    /// previous frame's future unchanged.
    SkipFrame,
}

/// Which future becomes the "previous frame" future for the next frame.
#[derive(Clone, Copy, Debug, PartialEq, Eq)]
pub enum FutureChoice {
    /// The submitted chain's fence-and-flush future.
    UseSubmitted,
    /// A trivially satisfied "now" future: the frame was dropped and the
    /// next frame must not wait on the failed chain.
    UseImmediate,
    /// The previous frame's future, unchanged: the frame was abandoned
    /// before submission and the next tick retries cleanly.
    KeepPrevious,
}

/// Everything the application needs to record one frame's primary
/// command buffer: the framebuffer, the two-attachment clear, the
/// viewport, and the draw units in submission order.
#[derive(Debug)]
pub struct FrameCommands {
    /// Which framebuffer the render pass is begun against.
    pub framebuffer_index: usize,
    /// The color attachment's clear value: an opaque background gray,
    /// entry words in red, green, blue, alpha order.
    pub clear_color: [u32; 4],
    /// The depth attachment's clear value: the far plane.
    pub clear_depth: u32,
    /// The viewport width the draw units are recorded for.
    pub viewport_width: u32,
    /// The viewport height the draw units are recorded for.
    pub viewport_height: u32,
    /// The draw units, in submission order.
    pub draws: Vec<DrawCmd>,
}

/// The renderer after `resized`: only the rebuild flag changes.
pub open spec fn spec_resized(r: Renderer) -> Renderer {
    Renderer { should_recreate_swapchain: true, ..r }
}

/// The decision that begins a frame: rebuild first if flagged, else go
/// straight to the acquire.
pub open spec fn spec_begin_frame(r: Renderer, width: u32, height: u32) -> BeginAction {
    if r.should_recreate_swapchain {
        BeginAction::Rebuild { width, height }
    } else {
        BeginAction::Acquire
    }
}

/// The state change and decision after the rebuild step.
pub open spec fn spec_apply_rebuild(r: Renderer, outcome: RebuildOutcome) -> (Renderer, RebuildAction) {
    match outcome {
        RebuildOutcome::Rebuilt { image_count, width, height } => (
            Renderer {
                image_count,
                framebuffer_count: image_count,
                viewport_width: width,
                viewport_height: height,
                should_recreate_swapchain: false,
                ..r
            },
            RebuildAction::Acquire,
        ),
        RebuildOutcome::UnsupportedDimensions => (r, RebuildAction::SkipFrame),
    }
}

/// The state change and decision after the acquire step.
pub open spec fn spec_apply_acquire(r: Renderer, outcome: AcquireOutcome) -> (Renderer, AcquireAction) {
    match outcome {
        AcquireOutcome::Acquired { image_index, suboptimal } => (
            Renderer {
                should_recreate_swapchain: r.should_recreate_swapchain || suboptimal,
                ..r
            },
            AcquireAction::Record { image_index },
        ),
        AcquireOutcome::OutOfDate => (spec_resized(r), AcquireAction::SkipFrame),
    }
}

/// The state change and future choice after the submit step.
pub open spec fn spec_complete_frame(r: Renderer, outcome: SubmitOutcome) -> (Renderer, FutureChoice) {
    match outcome {
        SubmitOutcome::Completed => (r, FutureChoice::UseSubmitted),
        SubmitOutcome::OutOfDate => (spec_resized(r), FutureChoice::UseImmediate),
        SubmitOutcome::RecordingFailed => (r, FutureChoice::KeepPrevious),
        SubmitOutcome::SubmitFailed => (r, FutureChoice::UseImmediate),
    }
}

impl Renderer {
    /// The renderer is well formed when it has one framebuffer per
    /// swapchain image, of at least one.
    pub open spec fn wf(self) -> bool {
        self.framebuffer_count == self.image_count && self.image_count >= 1
    }

    /// The pixel dimensions the first swapchain is created at: the
    /// surface's reported current extent, or a default when the platform
    /// reports none.
    pub fn initial_extent(current_extent: Option<[u32; 2]>) -> (d: [u32; 2])
        ensures
            d@ == (match current_extent {
                Some(e) => e@,
                None => seq![1280u32, 1024u32],
            }),
    {
        let d = match current_extent {
            Some(e) => e,
            None => [1280, 1024],
        };
        proof {
            if current_extent is None {
                assert(d@ =~= seq![1280u32, 1024u32]);
            }
        }
        d
    }

    /// The state after the swapchain, its `image_count` framebuffers and
    /// the render pass were first created at the given pixel dimensions.
    pub fn new(render_pass: Handle, image_count: usize, width: u32, height: u32) -> (r: Renderer)
        requires
            image_count >= 1,
        ensures
            r == (Renderer {
                render_pass,
                image_count,
                framebuffer_count: image_count,
                viewport_width: width,
                viewport_height: height,
                should_recreate_swapchain: false,
            }),
            r.wf(),
    {
        Renderer {
            render_pass,
            image_count,
            framebuffer_count: image_count,
            viewport_width: width,
            viewport_height: height,
            should_recreate_swapchain: false,
        }
    }

    /// The render pass frames are recorded against.
    pub fn render_pass(&self) -> (p: Handle)
        ensures
            p == self.render_pass,
    {
        self.render_pass
    }

    /// Marks the swapchain for rebuilding before the next acquire.
    pub fn resized(&mut self)
        ensures
            *final(self) == spec_resized(*old(self)),
    {
        self.should_recreate_swapchain = true;
    }

    /// Decides what a new frame does first: a flagged renderer rebuilds
    /// at the surface's current dimensions before anything is acquired;
    /// otherwise the acquire runs at once.
    pub fn begin_frame(&self, width: u32, height: u32) -> (a: BeginAction)
        ensures
            a == spec_begin_frame(*self, width, height),
    {
        if self.should_recreate_swapchain {
            BeginAction::Rebuild { width, height }
        } else {
            BeginAction::Acquire
        }
    }

    /// Applies the rebuild step's outcome.  A successful rebuild adopts
    /// the new image count (one framebuffer per image) and the new
    /// viewport dimensions and drains the flag; unusable dimensions skip
    /// the frame with nothing changed, so the next tick retries.
    pub fn apply_rebuild(&mut self, outcome: RebuildOutcome) -> (a: RebuildAction)
        requires
            outcome matches RebuildOutcome::Rebuilt { image_count, .. } ==> image_count >= 1,
        ensures
            (*final(self), a) == spec_apply_rebuild(*old(self), outcome),
            old(self).wf() ==> final(self).wf(),
    {
        match outcome {
            RebuildOutcome::Rebuilt { image_count, width, height } => {
                self.image_count = image_count;
                self.framebuffer_count = image_count;
                self.viewport_width = width;
                self.viewport_height = height;
                self.should_recreate_swapchain = false;
                RebuildAction::Acquire
            },
            RebuildOutcome::UnsupportedDimensions => RebuildAction::SkipFrame,
        }
    }

    /// Applies the acquire step's outcome.  An out-of-date surface never
    /// leads to a submission: the flag is set and the frame is skipped,
    /// leaving the previous frame's future unchanged.  A suboptimal
    /// acquire proceeds with this frame but flags a rebuild for the next.
    pub fn apply_acquire(&mut self, outcome: AcquireOutcome) -> (a: AcquireAction)
        requires
            outcome matches AcquireOutcome::Acquired { image_index, .. } ==> image_index < old(
                self
            ).framebuffer_count,
        ensures
            (*final(self), a) == spec_apply_acquire(*old(self), outcome),
            a matches AcquireAction::Record { image_index } ==> image_index < final(
                self
            ).framebuffer_count,
            outcome == AcquireOutcome::OutOfDate ==> a == AcquireAction::SkipFrame
                && final(self).should_recreate_swapchain,
    {
        match outcome {
            AcquireOutcome::Acquired { image_index, suboptimal } => {
                if suboptimal {
                    self.should_recreate_swapchain = true;
                }
                AcquireAction::Record { image_index }
            },
            AcquireOutcome::OutOfDate => {
                self.should_recreate_swapchain = true;
                AcquireAction::SkipFrame
            },
        }
    }

    /// Records one frame: the render pass is begun against the acquired
    /// framebuffer with the fixed two-attachment clear — the opaque
    /// background shade, and depth cleared to the far plane — and the
    /// drawable tree's units are appended in their collection order.
    /// Zero draw units still make a valid frame: the pass begins, clears
    /// and ends.
    pub fn record_frame<D: Drawable>(
        &self,
        root: &D,
        view_set: Handle,
        lighting_set: Handle,
        image_index: usize,
    ) -> (fc: FrameCommands)
        requires
            image_index < self.framebuffer_count,
            root.wf(),
        ensures
            fc.framebuffer_index == image_index,
            fc.clear_color@ == seq![CLEAR_SHADE_WORD, CLEAR_SHADE_WORD, CLEAR_SHADE_WORD, UNIT_WORD],
            fc.clear_depth == UNIT_WORD,
            fc.viewport_width == self.viewport_width,
            fc.viewport_height == self.viewport_height,
            fc.draws@ == root.spec_draw(view_set, lighting_set),
    {
        let draws = root.draw(view_set, lighting_set);
        let fc = FrameCommands {
            framebuffer_index: image_index,
            clear_color: [CLEAR_SHADE_WORD, CLEAR_SHADE_WORD, CLEAR_SHADE_WORD, UNIT_WORD],
            clear_depth: UNIT_WORD,
            viewport_width: self.viewport_width,
            viewport_height: self.viewport_height,
            draws,
        };
        proof {
            assert(fc.clear_color@ =~= seq![
                CLEAR_SHADE_WORD,
                CLEAR_SHADE_WORD,
                CLEAR_SHADE_WORD,
                UNIT_WORD,
            ]);
        }
        fc
    }

    /// Applies the submit step's outcome and picks the future the next
    /// frame waits on.  A stale surface at flush time flags a rebuild and
    /// substitutes a trivially satisfied future; another flush failure
    /// only substitutes the future; a recording failure abandons the
    /// frame and keeps the previous frame's future unchanged.
    pub fn complete_frame(&mut self, outcome: SubmitOutcome) -> (c: FutureChoice)
        ensures
            (*final(self), c) == spec_complete_frame(*old(self), outcome),
    {
        match outcome {
            SubmitOutcome::Completed => FutureChoice::UseSubmitted,
            SubmitOutcome::OutOfDate => {
                self.should_recreate_swapchain = true;
                FutureChoice::UseImmediate
            },
            SubmitOutcome::RecordingFailed => FutureChoice::KeepPrevious,
            SubmitOutcome::SubmitFailed => FutureChoice::UseImmediate,
        }
    }
}

/// An acquire that reports an out-of-date surface never produces a
/// submission: the frame is skipped, the rebuild flag is set, and —
/// because the frame is skipped — the previous frame's future is
/// returned unchanged.  Nothing else of the renderer changes.
pub proof fn lemma_out_of_date_acquire_never_submits(r: Renderer)
    ensures
        ({
            let (r2, a) = spec_apply_acquire(r, AcquireOutcome::OutOfDate);
            &&& a == AcquireAction::SkipFrame
            &&& r2.should_recreate_swapchain
            &&& r2 == (Renderer { should_recreate_swapchain: true, ..r })
        }),
{
}

/// After `resized` and one frame whose rebuild succeeds with
/// `image_count` images at the surface's new dimensions, the renderer
/// has exactly one framebuffer per swapchain image and its viewport
/// matches the new surface size, and the rebuild flag is drained.
pub proof fn lemma_resize_then_render_tracks_surface(
    r: Renderer,
    image_count: usize,
    width: u32,
    height: u32,
)
    requires
        image_count >= 1,
    ensures
        ({
            let r1 = spec_resized(r);
            let begin = spec_begin_frame(r1, width, height);
            let (r2, a) = spec_apply_rebuild(
                r1,
                RebuildOutcome::Rebuilt { image_count, width, height },
            );
            &&& begin == (BeginAction::Rebuild { width, height })
            &&& a == RebuildAction::Acquire
            &&& r2.framebuffer_count == image_count
            &&& r2.image_count == image_count
            &&& r2.viewport_width == width
            &&& r2.viewport_height == height
            &&& !r2.should_recreate_swapchain
            &&& r2.wf()
        }),
{
}

/// A frame that starts with the rebuild flag set performs the rebuild
/// before any acquire is attempted; if the surface's dimensions are
/// unusable, the frame is skipped with the state — flag included —
/// unchanged, so the next tick retries the rebuild.
pub proof fn lemma_flagged_frame_rebuilds_first(r: Renderer, width: u32, height: u32)
    ensures
        spec_begin_frame(spec_resized(r), width, height) == (BeginAction::Rebuild { width, height }),
        spec_apply_rebuild(spec_resized(r), RebuildOutcome::UnsupportedDimensions) == (
            spec_resized(r),
            RebuildAction::SkipFrame,
        ),
{
}

} // verus!
