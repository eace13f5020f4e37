use vstd::prelude::*;

use crate::renderer::commands::frame_commands;
use crate::renderer::draw_call::DrawCall;
use crate::renderer::frame_target::{degenerate, viewport_of, ChainResultView, Extent};
use crate::renderer::scheduler::{
    FrameError,
    begin_frame, chain_rebuilt, frame_submitted, idle, image_acquired, resized, scheduler_wf,
    AcquireOutcome, Phase, SchedulerView, StepView, SubmitOutcome,
};

verus! {

/// One frame as the host drives it: what it asks for, and what each piece
/// of outside work it is told to do comes to.
pub struct FrameRun {
    pub draws: Seq<DrawCall>,
    pub wait_until_drawn: bool,
    pub extent: Extent,
    /// What recreating the chain comes to, where the frame asks for it.
    pub rebuild: ChainResultView,
    /// The framebuffers built for the recreated chain's images.
    pub framebuffers: Seq<u64>,
    /// What acquiring an image comes to, where the frame gets that far.
    pub acquire: AcquireOutcome,
    /// What submitting comes to, where the frame gets that far.
    pub submit: SubmitOutcome,
}

/// The frame up to its rebuild, where it asks for one.
pub open spec fn run_to_acquire(s: SchedulerView, f: FrameRun) -> (
    SchedulerView,
    Result<StepView, FrameError>,
) {
    let (s1, r1) = begin_frame(s, f.draws, f.wait_until_drawn, f.extent);
    match r1 {
        Ok(StepView::Rebuild { .. }) => chain_rebuilt(s1, f.rebuild, f.framebuffers),
        _ => (s1, r1),
    }
}

/// The frame up to its submission, where it gets that far.
pub open spec fn run_to_submit(s: SchedulerView, f: FrameRun) -> (
    SchedulerView,
    Result<StepView, FrameError>,
) {
    let (s2, r2) = run_to_acquire(s, f);
    match r2 {
        Ok(StepView::Acquire) => image_acquired(s2, f.acquire),
        _ => (s2, r2),
    }
}

/// Whether the frame reaches submission: it hands the host commands and
/// the in-flight token.
pub open spec fn submits(s: SchedulerView, f: FrameRun) -> bool {
    run_to_submit(s, f).1 matches Ok(StepView::Submit { .. })
}

/// The whole frame.
pub open spec fn run_frame(s: SchedulerView, f: FrameRun) -> (
    SchedulerView,
    Result<StepView, FrameError>,
) {
    let (s3, r3) = run_to_submit(s, f);
    match r3 {
        Ok(StepView::Submit { .. }) => frame_submitted(s3, f.submit),
        _ => (s3, r3),
    }
}

/// The state after the frames `fs`, one after the other.
pub open spec fn run_frames(s: SchedulerView, fs: Seq<FrameRun>) -> SchedulerView
    decreases fs.len(),
{
    if fs.len() == 0 {
        s
    } else {
        run_frame(run_frames(s, fs.drop_last()), fs.last()).0
    }
}

/// How many of the frames `fs` reach submission.
pub open spec fn submitted_count(s: SchedulerView, fs: Seq<FrameRun>) -> nat
    decreases fs.len(),
{
    if fs.len() == 0 {
        0
    } else {
        submitted_count(s, fs.drop_last()) + if submits(run_frames(s, fs.drop_last()), fs.last()) {
            1nat
        } else {
            0nat
        }
    }
}

/// A frame started between frames ends between frames, keeps the
/// scheduler's invariant, leaves a token in place, and puts the token back
/// once if it submitted and not at all otherwise.
pub proof fn lemma_frame_keeps_token(s: SchedulerView, f: FrameRun)
    requires
        scheduler_wf(s),
        s.phase is Idle,
    ensures
        scheduler_wf(run_frame(s, f).0),
        run_frame(s, f).0.phase is Idle,
        run_frame(s, f).0.in_flight is Some,
        run_frame(s, f).0.replacements == s.replacements + if submits(s, f) {
            1nat
        } else {
            0nat
        },
{
}

/// Over any run of frames started between frames, the in-flight token is
/// present after every frame, and it has been put back exactly once for
/// each frame that was submitted.
pub proof fn lemma_one_token_per_submission(s: SchedulerView, fs: Seq<FrameRun>)
    requires
        scheduler_wf(s),
        s.phase is Idle,
    ensures
        scheduler_wf(run_frames(s, fs)),
        run_frames(s, fs).phase is Idle,
        run_frames(s, fs).in_flight is Some,
        run_frames(s, fs).replacements == s.replacements + submitted_count(s, fs),
    decreases fs.len(),
{
    if fs.len() > 0 {
        lemma_one_token_per_submission(s, fs.drop_last());
        lemma_frame_keeps_token(run_frames(s, fs.drop_last()), fs.last());
    }
}

/// A frame on a surface of zero width or height is skipped silently,
/// whatever draw calls it holds: it submits nothing and changes nothing, so
/// chain, framebuffers, viewport and token stay as they were.
pub proof fn lemma_degenerate_extent_skips(s: SchedulerView, f: FrameRun)
    requires
        degenerate(f.extent),
    ensures
        begin_frame(s, f.draws, f.wait_until_drawn, f.extent) == (s, Ok::<StepView, FrameError>(
            StepView::Skip,
        )),
        run_frame(s, f) == (s, Ok::<StepView, FrameError>(StepView::Skip)),
        !submits(s, f),
{
}

/// A frame whose image cannot be acquired because the chain is out of date
/// is skipped without an error: it submits nothing, marks the chain stale,
/// and leaves the images, framebuffers, viewport and token as they were.
pub proof fn lemma_out_of_date_acquire_skips(s: SchedulerView, f: FrameRun)
    requires
        scheduler_wf(s),
        s.phase is Idle,
        s.target.optimal,
        f.draws.len() > 0,
        !degenerate(f.extent),
        f.acquire == AcquireOutcome::OutOfDate,
    ensures
        !submits(s, f),
        run_frame(s, f).1 == Ok::<StepView, FrameError>(StepView::Skip),
        !run_frame(s, f).0.target.optimal,
        run_frame(s, f).0.target.images == s.target.images,
        run_frame(s, f).0.framebuffers == s.framebuffers,
        run_frame(s, f).0.viewport == s.viewport,
        run_frame(s, f).0.in_flight == s.in_flight,
        run_frame(s, f).0.in_flight is Some,
        run_frame(s, f).0.phase is Idle,
{
}

/// A frame on a chain that suits its surface, whose acquisition gives an
/// image of the chain, reaches submission with that image: it hands over
/// the token held before, the caller's choice of waiting, and the command
/// buffer that begins the render pass on that image's framebuffer and draws
/// the draw calls in order.
pub proof fn lemma_acquired_frame_submits(
    s: SchedulerView,
    f: FrameRun,
    image_index: u32,
    suboptimal: bool,
)
    requires
        scheduler_wf(s),
        s.phase is Idle,
        s.target.optimal,
        f.draws.len() > 0,
        !degenerate(f.extent),
        f.acquire == (AcquireOutcome::Acquired { image_index, suboptimal }),
        image_index < s.target.images.len(),
    ensures
        submits(s, f),
        run_to_submit(s, f).1 == Ok::<StepView, FrameError>(
            StepView::Submit {
                image_index,
                chain: s.target.chain,
                previous: s.in_flight.unwrap(),
                wait_until_drawn: f.wait_until_drawn,
                commands: frame_commands(
                    f.draws,
                    s.framebuffers[image_index as int],
                    s.viewport,
                ),
            },
        ),
        run_to_submit(s, f).0.in_flight is None,
        run_to_submit(s, f).0.target.optimal == !suboptimal,
{
}

/// After a resize, the next frame on a surface of non-zero extent rebuilds
/// the chain first; once the recreation gives images of that extent and a
/// framebuffer for each, the scheduler holds exactly those images and
/// framebuffers, a viewport of that extent, and goes on to acquire.
pub proof fn lemma_resize_rebuilds(
    s: SchedulerView,
    draws: Seq<DrawCall>,
    wait_until_drawn: bool,
    extent: Extent,
    chain: u64,
    images: Seq<u64>,
    framebuffers: Seq<u64>,
)
    requires
        scheduler_wf(s),
        s.phase is Idle,
        draws.len() > 0,
        !degenerate(extent),
        images.len() > 0,
        framebuffers.len() == images.len(),
    ensures
        ({
            let (s1, r1) = begin_frame(resized(s), draws, wait_until_drawn, extent);
            let (s2, r2) = chain_rebuilt(
                s1,
                ChainResultView::Created { chain, images, image_extent: extent },
                framebuffers,
            );
            &&& r1 == Ok::<StepView, FrameError>(StepView::Rebuild { extent })
            &&& r2 == Ok::<StepView, FrameError>(StepView::Acquire)
            &&& s2.target.chain == chain
            &&& s2.target.images == images
            &&& s2.target.optimal
            &&& s2.framebuffers == framebuffers
            &&& s2.framebuffers.len() == s2.target.images.len()
            &&& s2.viewport == viewport_of(extent)
            &&& scheduler_wf(s2)
        }),
{
}

/// Marking the chain stale twice does what marking it once does.
pub proof fn lemma_resized_idempotent(s: SchedulerView)
    ensures
        resized(resized(s)) == resized(s),
{
}

} // verus!
