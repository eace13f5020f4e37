use frame_scheduler::material::Material;
use frame_scheduler::renderer::commands::Command;
use frame_scheduler::renderer::draw_call::DrawCall;
use frame_scheduler::renderer::frame_target::{ChainResult, Extent, FrameTarget, Viewport};
use frame_scheduler::renderer::model::Model;
use frame_scheduler::renderer::scheduler::{
    AcquireOutcome, FrameError, FrameScheduler, InFlight, Phase, Step, SubmitOutcome, Submission,
};

fn draw(pipeline: u64, buffer: u64, vertex_count: u32) -> DrawCall {
    DrawCall::new(Model::load(buffer, vertex_count), Material::new(pipeline))
}

/// A scheduler over a chain of `n` images of 800 by 600, whose images are
/// 100, 101, ... and framebuffers 200, 201, ...
fn scheduler(n: u64) -> FrameScheduler {
    let images: Vec<u64> = (0..n).map(|i| 100 + i).collect();
    let framebuffers: Vec<u64> = (0..n).map(|i| 200 + i).collect();
    FrameScheduler::new(FrameTarget::new(7, images, Extent::new(800, 600)), framebuffers)
}

fn extent() -> Extent {
    Extent::new(800, 600)
}

fn acquire(s: &mut FrameScheduler, image_index: u32) -> Submission {
    match s.submit_frame(vec![draw(1, 11, 9), draw(2, 12, 3)], false, extent()) {
        Ok(Step::Acquire) => {}
        other => panic!("expected an acquisition, got {:?}", other),
    }
    match s.on_acquired(AcquireOutcome::Acquired { image_index, suboptimal: false }) {
        Ok(Step::Submit(sub)) => sub,
        other => panic!("expected a submission, got {:?}", other),
    }
}

#[test]
fn frame_of_two_draws_on_three_images() {
    let mut s = scheduler(3);
    let r = s.submit_frame(vec![draw(1, 11, 9), draw(2, 12, 3)], false, extent());
    assert!(matches!(r, Ok(Step::Acquire)));
    assert_eq!(s.phase(), Phase::Acquiring);
    let sub = match s.on_acquired(AcquireOutcome::Acquired { image_index: 2, suboptimal: false }) {
        Ok(Step::Submit(sub)) => sub,
        other => panic!("expected a submission, got {:?}", other),
    };
    assert!(sub.image_index <= 2);
    assert_eq!(sub.image_index, 2);
    assert_eq!(sub.chain, 7);
    assert!(!sub.wait_until_drawn);
    assert_eq!(sub.previous, InFlight::Completed);
    assert_eq!(s.in_flight(), None);
    let draws = sub.commands.iter().filter(|c| matches!(c, Command::Draw { .. })).count();
    assert_eq!(draws, 2);
    assert_eq!(sub.commands.len(), 10);
    assert_eq!(sub.commands[0], Command::BeginRenderPass { framebuffer: 202 });
    assert_eq!(sub.commands[1], Command::SetViewport { viewport: Viewport { width: 800, height: 600 } });
    assert_eq!(sub.commands[9], Command::EndRenderPass);
    let r = s.on_submitted(SubmitOutcome::Flushed);
    assert!(matches!(r, Ok(Step::Done)));
    assert_eq!(s.in_flight(), Some(InFlight::Frame { submission: 0 }));
    assert_eq!(s.phase(), Phase::Idle);
}

#[test]
fn commands_follow_the_draw_order() {
    let mut s = scheduler(3);
    let calls = vec![draw(31, 41, 3), draw(32, 42, 6), draw(33, 43, 9)];
    assert!(matches!(s.submit_frame(calls, false, extent()), Ok(Step::Acquire)));
    let sub = match s.on_acquired(AcquireOutcome::Acquired { image_index: 0, suboptimal: false }) {
        Ok(Step::Submit(sub)) => sub,
        other => panic!("expected a submission, got {:?}", other),
    };
    let expected = vec![
        Command::BeginRenderPass { framebuffer: 200 },
        Command::SetViewport { viewport: Viewport { width: 800, height: 600 } },
        Command::BindUniforms { layout_of: 31 },
        Command::BindPipeline { pipeline: 31 },
        Command::BindVertexBuffer { buffer: 41 },
        Command::Draw { vertex_count: 3, instance_count: 1 },
        Command::BindPipeline { pipeline: 32 },
        Command::BindVertexBuffer { buffer: 42 },
        Command::Draw { vertex_count: 6, instance_count: 1 },
        Command::BindPipeline { pipeline: 33 },
        Command::BindVertexBuffer { buffer: 43 },
        Command::Draw { vertex_count: 9, instance_count: 1 },
        Command::EndRenderPass,
    ];
    assert_eq!(sub.commands, expected);
}

#[test]
fn token_replaced_once_per_submitted_frame() {
    let mut s = scheduler(3);
    for n in 0..5u64 {
        assert!(s.in_flight().is_some());
        let sub = acquire(&mut s, (n % 3) as u32);
        let expected_previous = if n == 0 {
            InFlight::Completed
        } else {
            InFlight::Frame { submission: n - 1 }
        };
        assert_eq!(sub.previous, expected_previous);
        assert_eq!(s.in_flight(), None);
        assert!(matches!(s.on_submitted(SubmitOutcome::Flushed), Ok(Step::Done)));
        assert_eq!(s.in_flight(), Some(InFlight::Frame { submission: n }));
    }
}

#[test]
fn zero_extent_skips_the_frame() {
    for (w, h) in [(0u32, 0u32), (800, 0), (0, 600)] {
        let mut s = scheduler(3);
        s.on_resized();
        let r = s.submit_frame(vec![draw(1, 11, 9)], false, Extent::new(w, h));
        assert!(matches!(r, Ok(Step::Skip)));
        assert_eq!(s.phase(), Phase::Idle);
        assert_eq!(s.target().images, vec![100, 101, 102]);
        assert!(!s.target().optimal);
        assert_eq!(*s.framebuffers(), vec![200, 201, 202]);
        assert_eq!(s.viewport(), Viewport { width: 800, height: 600 });
        assert_eq!(s.in_flight(), Some(InFlight::Completed));
    }
}

#[test]
fn resize_rebuilds_chain_and_framebuffers() {
    let mut s = scheduler(3);
    s.on_resized();
    assert!(!s.target().optimal);
    let r = s.submit_frame(vec![draw(1, 11, 9)], true, Extent::new(1024, 768));
    match r {
        Ok(Step::Rebuild { extent }) => assert_eq!(extent, Extent::new(1024, 768)),
        other => panic!("expected a rebuild, got {:?}", other),
    }
    let created = ChainResult::Created {
        chain: 8,
        images: vec![300, 301, 302, 303],
        image_extent: Extent::new(1024, 768),
    };
    let r = s.on_rebuilt(created, vec![400, 401, 402, 403]);
    assert!(matches!(r, Ok(Step::Acquire)));
    assert_eq!(s.target().chain, 8);
    assert_eq!(s.target().image_count(), 4);
    assert!(s.target().optimal);
    assert_eq!(s.framebuffers().len(), 4);
    assert_eq!(s.viewport(), Viewport { width: 1024, height: 768 });
    let sub = match s.on_acquired(AcquireOutcome::Acquired { image_index: 3, suboptimal: false }) {
        Ok(Step::Submit(sub)) => sub,
        other => panic!("expected a submission, got {:?}", other),
    };
    assert_eq!(sub.chain, 8);
    assert!(sub.wait_until_drawn);
    assert_eq!(sub.commands[0], Command::BeginRenderPass { framebuffer: 403 });
}

#[test]
fn mark_stale_twice_same_as_once() {
    let mut once = FrameTarget::new(1, vec![5, 6], Extent::new(10, 20));
    let mut twice = FrameTarget::new(1, vec![5, 6], Extent::new(10, 20));
    once.mark_stale();
    twice.mark_stale();
    twice.mark_stale();
    assert_eq!(once.optimal, twice.optimal);
    assert!(!twice.optimal);
    assert_eq!(once.images, twice.images);
    assert_eq!(once.chain, twice.chain);
    assert_eq!(once.image_extent, twice.image_extent);

    let mut a = scheduler(2);
    let mut b = scheduler(2);
    a.on_resized();
    b.on_resized();
    b.on_resized();
    assert_eq!(a.target().optimal, b.target().optimal);
    assert!(matches!(a.submit_frame(vec![draw(1, 1, 1)], false, extent()), Ok(Step::Rebuild { .. })));
    assert!(matches!(b.submit_frame(vec![draw(1, 1, 1)], false, extent()), Ok(Step::Rebuild { .. })));
}

#[test]
fn out_of_date_acquisition_marks_stale() {
    let mut s = scheduler(3);
    assert!(matches!(s.submit_frame(vec![draw(1, 11, 9)], false, extent()), Ok(Step::Acquire)));
    let r = s.on_acquired(AcquireOutcome::OutOfDate);
    assert!(matches!(r, Ok(Step::Skip)));
    assert!(!s.target().optimal);
    assert_eq!(s.phase(), Phase::Idle);
    assert_eq!(s.in_flight(), Some(InFlight::Completed));
    assert!(matches!(s.on_submitted(SubmitOutcome::Flushed), Err(FrameError::OutOfSequence)));
    assert!(matches!(s.submit_frame(vec![draw(1, 11, 9)], false, extent()), Ok(Step::Rebuild { .. })));
}

#[test]
fn empty_draw_list_is_refused() {
    let mut s = scheduler(3);
    let r = s.submit_frame(Vec::new(), false, extent());
    assert!(matches!(r, Err(FrameError::NoDrawCalls)));
    assert_eq!(s.phase(), Phase::Idle);
    assert_eq!(s.in_flight(), Some(InFlight::Completed));
    assert!(s.target().optimal);
}

#[test]
fn suboptimal_image_is_used_then_rebuilt() {
    let mut s = scheduler(3);
    assert!(matches!(s.submit_frame(vec![draw(1, 11, 9)], false, extent()), Ok(Step::Acquire)));
    let r = s.on_acquired(AcquireOutcome::Acquired { image_index: 1, suboptimal: true });
    assert!(matches!(r, Ok(Step::Submit(_))));
    assert!(!s.target().optimal);
    assert!(matches!(s.on_submitted(SubmitOutcome::Flushed), Ok(Step::Done)));
    assert!(matches!(s.submit_frame(vec![draw(1, 11, 9)], false, extent()), Ok(Step::Rebuild { .. })));
}

#[test]
fn out_of_date_presentation_resets_token() {
    let mut s = scheduler(3);
    let sub = acquire(&mut s, 0);
    assert_eq!(sub.previous, InFlight::Completed);
    assert!(matches!(s.on_submitted(SubmitOutcome::Flushed), Ok(Step::Done)));
    let sub = acquire(&mut s, 1);
    assert_eq!(sub.previous, InFlight::Frame { submission: 0 });
    let r = s.on_submitted(SubmitOutcome::OutOfDate);
    assert!(matches!(r, Ok(Step::Done)));
    assert!(!s.target().optimal);
    assert_eq!(s.in_flight(), Some(InFlight::Completed));
}

#[test]
fn failures_are_fatal() {
    let mut s = scheduler(3);
    assert!(matches!(s.submit_frame(vec![draw(1, 11, 9)], false, extent()), Ok(Step::Acquire)));
    assert!(matches!(s.on_acquired(AcquireOutcome::Failed), Err(FrameError::Fatal)));
    assert_eq!(s.phase(), Phase::Idle);

    assert!(matches!(s.submit_frame(vec![draw(1, 11, 9)], false, extent()), Ok(Step::Acquire)));
    let r = s.on_acquired(AcquireOutcome::Acquired { image_index: 3, suboptimal: false });
    assert!(matches!(r, Err(FrameError::Fatal)));
    assert_eq!(s.in_flight(), Some(InFlight::Completed));

    let _ = acquire(&mut s, 0);
    assert!(matches!(s.on_submitted(SubmitOutcome::Failed), Err(FrameError::Fatal)));
    assert_eq!(s.in_flight(), Some(InFlight::Completed));
    assert_eq!(s.phase(), Phase::Idle);
}

#[test]
fn rebuild_outcomes() {
    let mut s = scheduler(3);
    s.on_resized();
    assert!(matches!(s.submit_frame(vec![draw(1, 11, 9)], false, extent()), Ok(Step::Rebuild { .. })));
    assert!(matches!(s.on_rebuilt(ChainResult::ExtentNotSupported, Vec::new()), Ok(Step::Skip)));
    assert!(!s.target().optimal);
    assert_eq!(s.phase(), Phase::Idle);

    assert!(matches!(s.submit_frame(vec![draw(1, 11, 9)], false, extent()), Ok(Step::Rebuild { .. })));
    assert!(matches!(s.on_rebuilt(ChainResult::Failed, Vec::new()), Err(FrameError::Fatal)));

    assert!(matches!(s.submit_frame(vec![draw(1, 11, 9)], false, extent()), Ok(Step::Rebuild { .. })));
    let created = ChainResult::Created { chain: 9, images: vec![1, 2], image_extent: extent() };
    assert!(matches!(s.on_rebuilt(created, vec![3]), Err(FrameError::Fatal)));
    assert_eq!(s.target().chain, 7);
    assert_eq!(s.framebuffers().len(), 3);
}

#[test]
fn events_out_of_sequence_are_refused() {
    let mut s = scheduler(2);
    assert!(matches!(s.on_acquired(AcquireOutcome::OutOfDate), Err(FrameError::OutOfSequence)));
    assert!(s.target().optimal);
    assert!(matches!(s.on_rebuilt(ChainResult::Failed, Vec::new()), Err(FrameError::OutOfSequence)));
    assert!(matches!(s.submit_frame(vec![draw(1, 11, 9)], false, extent()), Ok(Step::Acquire)));
    assert!(matches!(s.submit_frame(vec![draw(1, 11, 9)], false, extent()), Err(FrameError::OutOfSequence)));
    assert_eq!(s.phase(), Phase::Acquiring);
}

#[test]
fn empty_draw_list_on_zero_extent_is_skipped() {
    for (w, h) in [(0u32, 0u32), (800, 0), (0, 600)] {
        let mut s = scheduler(3);
        let r = s.submit_frame(Vec::new(), false, Extent::new(w, h));
        assert!(matches!(r, Ok(Step::Skip)));
        assert_eq!(s.phase(), Phase::Idle);
        assert_eq!(s.in_flight(), Some(InFlight::Completed));
        assert!(s.target().optimal);
        assert_eq!(*s.framebuffers(), vec![200, 201, 202]);
    }
}
