use vstd::prelude::*;

use crate::renderer::commands::{frame_commands, record_commands, Command};
use crate::renderer::draw_call::DrawCall;
use crate::renderer::frame_target::{
    degenerate, rebuilt, stale, target_wf, viewport_of, window_size_dependent_setup, ChainResult,
    ChainResultView, Extent, FrameTarget, RebuildError, TargetView, Viewport,
};

verus! {

/// The token of the GPU work last submitted, which is not yet known to be
/// complete. Exactly one is held between frames.
#[derive(Clone, Copy, Debug, PartialEq, Eq, Structural)]
pub enum InFlight {
    /// No work outstanding (a fresh token, already complete).
    Completed,
    /// The work of the submission numbered `submission`.
    Frame { submission: u64 },
}

/// Where the scheduler stands in a frame.
#[derive(Clone, Copy, Debug, PartialEq, Eq, Structural)]
pub enum Phase {
    /// Between frames.
    Idle,
    /// Waiting for the host to recreate the chain.
    Rebuilding,
    /// Waiting for the host to acquire an image.
    Acquiring,
    /// Waiting for the host to submit and present the frame drawn into
    /// image `image_index`; the in-flight token is with the host.
    Submitting { image_index: u32 },
}

/// What the host's attempt to acquire the next image came to.
#[derive(Clone, Copy, Debug, PartialEq, Eq, Structural)]
pub enum AcquireOutcome {
    /// Image `image_index` is ready; `suboptimal` when it can be used but the
    /// chain no longer suits the surface.
    Acquired { image_index: u32, suboptimal: bool },
    /// The chain no longer suits the surface and cannot be used.
    OutOfDate,
    /// Any other failure.
    Failed,
}

/// What submitting and presenting a frame came to.
#[derive(Clone, Copy, Debug, PartialEq, Eq, Structural)]
pub enum SubmitOutcome {
    /// Submitted and flushed (and, where asked, waited for).
    Flushed,
    /// Presentation found the chain out of date.
    OutOfDate,
    /// Any other failure.
    Failed,
}

/// Errors that reach the caller.
#[derive(Clone, Copy, Debug, PartialEq, Eq, Structural)]
pub enum FrameError {
    /// A frame must draw at least one draw call.
    NoDrawCalls,
    /// An event that does not fit the phase the scheduler is in.
    OutOfSequence,
    /// The device or the chain failed in a way that ends the session.
    Fatal,
}

/// What the host is to do for a frame that reached submission.
#[derive(Debug)]
pub struct Submission {
    /// The image acquired, to draw into and present.
    pub image_index: u32,
    /// The chain to present to.
    pub chain: u64,
    /// The in-flight token, taken out: the submission waits for its work.
    pub previous: InFlight,
    /// Whether to wait for the GPU to finish the frame before reporting.
    pub wait_until_drawn: bool,
    /// The command buffer to record and submit.
    pub commands: Vec<Command>,
}

/// What the host is to do next.
#[derive(Debug)]
pub enum Step {
    /// Nothing: the frame is abandoned before any GPU work.
    Skip,
    /// Release what finished frames hold, recreate the chain against
    /// `extent`, build one framebuffer for each new image, and report
    /// through `on_rebuilt`.
    Rebuild { extent: Extent },
    /// Release what finished frames hold (unless a rebuild just did), acquire
    /// the next image with no timeout, and report through `on_acquired`.
    Acquire,
    /// Record the commands, submit them after the token taken out, present,
    /// flush, and report through `on_submitted`.
    Submit(Submission),
    /// The frame is over.
    Done,
}

/// The mathematical value of a [`Step`].
pub enum StepView {
    Skip,
    Rebuild { extent: Extent },
    Acquire,
    Submit {
        image_index: u32,
        chain: u64,
        previous: InFlight,
        wait_until_drawn: bool,
        commands: Seq<Command>,
    },
    Done,
}

impl View for Step {
    type V = StepView;

    open spec fn view(&self) -> StepView {
        match self {
            Step::Skip => StepView::Skip,
            Step::Rebuild { extent } => StepView::Rebuild { extent: *extent },
            Step::Acquire => StepView::Acquire,
            Step::Submit(s) => StepView::Submit {
                image_index: s.image_index,
                chain: s.chain,
                previous: s.previous,
                wait_until_drawn: s.wait_until_drawn,
                commands: s.commands@,
            },
            Step::Done => StepView::Done,
        }
    }
}

pub open spec fn result_view(r: Result<Step, FrameError>) -> Result<StepView, FrameError> {
    match r {
        Ok(s) => Ok(s@),
        Err(e) => Err(e),
    }
}

/// The mathematical value of a [`FrameScheduler`].
pub struct SchedulerView {
    pub target: TargetView,
    pub framebuffers: Seq<u64>,
    pub viewport: Viewport,
    pub in_flight: Option<InFlight>,
    pub phase: Phase,
    /// The draw calls of the frame in progress.
    pub pending: Seq<DrawCall>,
    pub wait_until_drawn: bool,
    /// The number the next submission's token will carry.
    pub next_submission: u64,
    /// How many times the in-flight token has been put back.
    pub replacements: nat,
}

/// The scheduler's invariant: one framebuffer for each image and a viewport
/// over the images, a token held in every phase but submission, draw calls
/// pending exactly while a frame is in progress, and an acquired image that
/// exists.
pub open spec fn scheduler_wf(s: SchedulerView) -> bool {
    &&& target_wf(s.target)
    &&& s.framebuffers.len() == s.target.images.len()
    &&& s.viewport == viewport_of(s.target.image_extent)
    &&& (s.phase is Submitting <==> s.in_flight is None)
    &&& (s.phase is Idle <==> s.pending.len() == 0)
    &&& (s.phase matches Phase::Submitting { image_index } ==> image_index
        < s.target.images.len())
}

/// `s` back between frames, with nothing pending.
pub open spec fn idle(s: SchedulerView) -> SchedulerView {
    SchedulerView { phase: Phase::Idle, pending: Seq::empty(), ..s }
}

/// `s` with its chain marked stale.
pub open spec fn resized(s: SchedulerView) -> SchedulerView {
    SchedulerView { target: stale(s.target), ..s }
}

/// The number after `n`, back to zero after the largest.
pub open spec fn next_number(n: u64) -> u64 {
    if n == u64::MAX {
        0
    } else {
        (n + 1) as u64
    }
}

/// A frame asked for: the draw calls, whether to wait for the GPU, and the
/// surface's current extent.
pub open spec fn begin_frame(
    s: SchedulerView,
    draws: Seq<DrawCall>,
    wait_until_drawn: bool,
    extent: Extent,
) -> (SchedulerView, Result<StepView, FrameError>) {
    if degenerate(extent) {
        (s, Ok(StepView::Skip))
    } else if !(s.phase is Idle) {
        (s, Err(FrameError::OutOfSequence))
    } else if draws.len() == 0 {
        (s, Err(FrameError::NoDrawCalls))
    } else if !s.target.optimal {
        (
            SchedulerView { phase: Phase::Rebuilding, pending: draws, wait_until_drawn, ..s },
            Ok(StepView::Rebuild { extent }),
        )
    } else {
        (
            SchedulerView { phase: Phase::Acquiring, pending: draws, wait_until_drawn, ..s },
            Ok(StepView::Acquire),
        )
    }
}

/// The chain's recreation came to `result`, with `framebuffers` built for
/// its images.
pub open spec fn chain_rebuilt(
    s: SchedulerView,
    result: ChainResultView,
    framebuffers: Seq<u64>,
) -> (SchedulerView, Result<StepView, FrameError>) {
    if !(s.phase is Rebuilding) {
        (s, Err(FrameError::OutOfSequence))
    } else {
        match rebuilt(result) {
            Err(RebuildError::Retry) => (idle(s), Ok(StepView::Skip)),
            Err(RebuildError::Fatal) => (idle(s), Err(FrameError::Fatal)),
            Ok(t) => if framebuffers.len() != t.images.len() {
                (idle(s), Err(FrameError::Fatal))
            } else {
                (
                    SchedulerView {
                        target: t,
                        framebuffers,
                        viewport: viewport_of(t.image_extent),
                        phase: Phase::Acquiring,
                        ..s
                    },
                    Ok(StepView::Acquire),
                )
            },
        }
    }
}

/// The acquisition of an image came to `outcome`.
pub open spec fn image_acquired(s: SchedulerView, outcome: AcquireOutcome) -> (
    SchedulerView,
    Result<StepView, FrameError>,
) {
    if !(s.phase is Acquiring) {
        (s, Err(FrameError::OutOfSequence))
    } else {
        match outcome {
            AcquireOutcome::OutOfDate => (idle(resized(s)), Ok(StepView::Skip)),
            AcquireOutcome::Failed => (idle(s), Err(FrameError::Fatal)),
            AcquireOutcome::Acquired { image_index, suboptimal } => if image_index
                >= s.target.images.len() {
                (idle(s), Err(FrameError::Fatal))
            } else {
                (
                    SchedulerView {
                        target: if suboptimal {
                            stale(s.target)
                        } else {
                            s.target
                        },
                        phase: Phase::Submitting { image_index },
                        in_flight: None,
                        ..s
                    },
                    Ok(
                        StepView::Submit {
                            image_index,
                            chain: s.target.chain,
                            previous: s.in_flight.unwrap(),
                            wait_until_drawn: s.wait_until_drawn,
                            commands: frame_commands(
                                s.pending,
                                s.framebuffers[image_index as int],
                                s.viewport,
                            ),
                        },
                    ),
                )
            },
        }
    }
}

/// The submission and presentation came to `outcome`.
pub open spec fn frame_submitted(s: SchedulerView, outcome: SubmitOutcome) -> (
    SchedulerView,
    Result<StepView, FrameError>,
) {
    if !(s.phase is Submitting) {
        (s, Err(FrameError::OutOfSequence))
    } else {
        let back = SchedulerView { replacements: s.replacements + 1, ..idle(s) };
        match outcome {
            SubmitOutcome::Flushed => (
                SchedulerView {
                    in_flight: Some(InFlight::Frame { submission: s.next_submission }),
                    next_submission: next_number(s.next_submission),
                    ..back
                },
                Ok(StepView::Done),
            ),
            SubmitOutcome::OutOfDate => (
                SchedulerView { in_flight: Some(InFlight::Completed), ..resized(back) },
                Ok(StepView::Done),
            ),
            SubmitOutcome::Failed => (
                SchedulerView { in_flight: Some(InFlight::Completed), ..back },
                Err(FrameError::Fatal),
            ),
        }
    }
}

/// Drives a frame's submission through the presentation chain. The host
/// performs each [`Step`] it is handed and reports what came of it.
pub struct FrameScheduler {
    target: FrameTarget,
    framebuffers: Vec<u64>,
    viewport: Viewport,
    in_flight: Option<InFlight>,
    phase: Phase,
    pending: Vec<DrawCall>,
    wait_until_drawn: bool,
    next_submission: u64,
    replacements: Ghost<nat>,
}

impl View for FrameScheduler {
    type V = SchedulerView;

    closed spec fn view(&self) -> SchedulerView {
        SchedulerView {
            target: self.target@,
            framebuffers: self.framebuffers@,
            viewport: self.viewport,
            in_flight: self.in_flight,
            phase: self.phase,
            pending: self.pending@,
            wait_until_drawn: self.wait_until_drawn,
            next_submission: self.next_submission,
            replacements: self.replacements@,
        }
    }
}

impl FrameScheduler {
    pub open spec fn wf(&self) -> bool {
        scheduler_wf(self@)
    }

    /// A scheduler between frames over a chain that suits its surface, with
    /// one framebuffer for each of its images and no GPU work outstanding.
    pub fn new(target: FrameTarget, framebuffers: Vec<u64>) -> (r: FrameScheduler)
        requires
            target@.images.len() > 0,
            framebuffers@.len() == target@.images.len(),
        ensures
            r.wf(),
            r@.target == target@,
            r@.framebuffers == framebuffers@,
            r@.viewport == viewport_of(target@.image_extent),
            r@.in_flight == Some(InFlight::Completed),
            r@.phase == Phase::Idle,
            r@.next_submission == 0,
            r@.replacements == 0,
    {
        let mut viewport = Viewport { width: 0, height: 0 };
        window_size_dependent_setup(target.image_extent, &mut viewport);
        FrameScheduler {
            target,
            framebuffers,
            viewport,
            in_flight: Some(InFlight::Completed),
            phase: Phase::Idle,
            pending: Vec::new(),
            wait_until_drawn: false,
            next_submission: 0,
            replacements: Ghost(0),
        }
    }

    /// The presentation chain.
    pub fn target(&self) -> (r: &FrameTarget)
        ensures
            r@ == self@.target,
    {
        &self.target
    }

    /// The framebuffers, one for each image of the chain.
    pub fn framebuffers(&self) -> (r: &Vec<u64>)
        ensures
            r@ == self@.framebuffers,
    {
        &self.framebuffers
    }

    pub fn viewport(&self) -> (r: Viewport)
        ensures
            r == self@.viewport,
    {
        self.viewport
    }

    /// The in-flight token; absent only while the host submits a frame.
    pub fn in_flight(&self) -> (r: Option<InFlight>)
        ensures
            r == self@.in_flight,
    {
        self.in_flight
    }

    pub fn phase(&self) -> (r: Phase)
        ensures
            r == self@.phase,
    {
        self.phase
    }

    /// Back between frames, with nothing pending.
    fn finish(&mut self)
        ensures
            final(self)@ == idle(old(self)@),
    {
        self.phase = Phase::Idle;
        self.pending = Vec::new();
    }

    /// The surface was resized: the chain is rebuilt before the next image
    /// is acquired.
    pub fn on_resized(&mut self)
        requires
            old(self).wf(),
        ensures
            final(self).wf(),
            final(self)@ == resized(old(self)@),
    {
        self.target.mark_stale();
    }

    /// Starts a frame that draws `draw_calls`, in that order, on a surface
    /// whose drawable extent is `extent`. A frame on a surface of zero width
    /// or height is skipped silently, whatever it holds; otherwise one with
    /// no draw calls is refused. Either way nothing changes.
    pub fn submit_frame(
        &mut self,
        draw_calls: Vec<DrawCall>,
        block_until_drawn: bool,
        extent: Extent,
    ) -> (r: Result<Step, FrameError>)
        requires
            old(self).wf(),
        ensures
            final(self).wf(),
            (final(self)@, result_view(r)) == begin_frame(
                old(self)@,
                draw_calls@,
                block_until_drawn,
                extent,
            ),
    {
        if extent.is_degenerate() {
            return Ok(Step::Skip);
        }
        if !(self.phase == Phase::Idle) {
            return Err(FrameError::OutOfSequence);
        }
        if draw_calls.len() == 0 {
            return Err(FrameError::NoDrawCalls);
        }
        self.pending = draw_calls;
        self.wait_until_drawn = block_until_drawn;
        if !self.target.optimal {
            self.phase = Phase::Rebuilding;
            Ok(Step::Rebuild { extent })
        } else {
            self.phase = Phase::Acquiring;
            Ok(Step::Acquire)
        }
    }

    /// The host recreated the chain, which came to `result`, and built
    /// `framebuffers` for the new images, index for index.
    pub fn on_rebuilt(&mut self, result: ChainResult, framebuffers: Vec<u64>) -> (r: Result<
        Step,
        FrameError,
    >)
        requires
            old(self).wf(),
        ensures
            final(self).wf(),
            (final(self)@, result_view(r)) == chain_rebuilt(old(self)@, result@, framebuffers@),
    {
        if !(self.phase == Phase::Rebuilding) {
            return Err(FrameError::OutOfSequence);
        }
        match self.target.rebuild(result) {
            Err(RebuildError::Retry) => {
                self.finish();
                Ok(Step::Skip)
            },
            Err(RebuildError::Fatal) => {
                self.finish();
                Err(FrameError::Fatal)
            },
            Ok(t) => {
                if framebuffers.len() != t.images.len() {
                    self.finish();
                    Err(FrameError::Fatal)
                } else {
                    window_size_dependent_setup(t.image_extent, &mut self.viewport);
                    self.target = t;
                    self.framebuffers = framebuffers;
                    self.phase = Phase::Acquiring;
                    Ok(Step::Acquire)
                }
            },
        }
    }

    /// The host's acquisition of the next image came to `outcome`. On an
    /// image, the in-flight token is taken out and handed over with the
    /// frame's commands.
    pub fn on_acquired(&mut self, outcome: AcquireOutcome) -> (r: Result<Step, FrameError>)
        requires
            old(self).wf(),
        ensures
            final(self).wf(),
            (final(self)@, result_view(r)) == image_acquired(old(self)@, outcome),
    {
        if !(self.phase == Phase::Acquiring) {
            return Err(FrameError::OutOfSequence);
        }
        match outcome {
            AcquireOutcome::OutOfDate => {
                self.target.mark_stale();
                self.finish();
                Ok(Step::Skip)
            },
            AcquireOutcome::Failed => {
                self.finish();
                Err(FrameError::Fatal)
            },
            AcquireOutcome::Acquired { image_index, suboptimal } => {
                if image_index as usize >= self.target.images.len() {
                    self.finish();
                    return Err(FrameError::Fatal);
                }
                let commands = record_commands(
                    &self.pending,
                    self.framebuffers[image_index as usize],
                    self.viewport,
                );
                let previous = match self.in_flight.take() {
                    Some(token) => token,
                    None => InFlight::Completed,
                };
                let chain = self.target.chain;
                if suboptimal {
                    self.target.mark_stale();
                }
                self.phase = Phase::Submitting { image_index };
                Ok(
                    Step::Submit(
                        Submission {
                            image_index,
                            chain,
                            previous,
                            wait_until_drawn: self.wait_until_drawn,
                            commands,
                        },
                    ),
                )
            },
        }
    }

    /// The host's submission and presentation came to `outcome`. A token is
    /// put back whatever it was: the new work's on success, a completed one
    /// otherwise.
    pub fn on_submitted(&mut self, outcome: SubmitOutcome) -> (r: Result<Step, FrameError>)
        requires
            old(self).wf(),
        ensures
            final(self).wf(),
            (final(self)@, result_view(r)) == frame_submitted(old(self)@, outcome),
    {
        match self.phase {
            Phase::Submitting { .. } => {},
            _ => {
                return Err(FrameError::OutOfSequence);
            },
        }
        self.finish();
        self.replacements = Ghost(self.replacements@ + 1);
        match outcome {
            SubmitOutcome::Flushed => {
                self.in_flight = Some(InFlight::Frame { submission: self.next_submission });
                self.next_submission = if self.next_submission == u64::MAX {
                    0
                } else {
                    self.next_submission + 1
                };
                Ok(Step::Done)
            },
            SubmitOutcome::OutOfDate => {
                self.target.mark_stale();
                self.in_flight = Some(InFlight::Completed);
                Ok(Step::Done)
            },
            SubmitOutcome::Failed => {
                self.in_flight = Some(InFlight::Completed);
                Err(FrameError::Fatal)
            },
        }
    }
}

} // verus!
