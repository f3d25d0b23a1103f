use present_core::fence::FencePacing;
use present_core::fence::FrameFence;
use present_core::scheduler::FrameScheduler;
use present_core::scheduler::PresentOutcome;

#[test]
fn fresh_scheduler_has_no_live_fence() {
    let scheduler = FrameScheduler::new();
    assert_eq!(scheduler.pacing, FencePacing::Idle);
    assert_eq!(scheduler.frames_submitted, 0);
}

#[test]
fn plan_without_prior_fence_waits_only_on_readiness() {
    let scheduler = FrameScheduler::new();
    let plan = scheduler.plan_submission(1, 7, 99);
    assert_eq!(plan.waits_on_previous, None);
    assert_eq!(plan.request.target_index, 1);
    assert_eq!(plan.request.readiness, 7);
    assert_eq!(plan.request.commands, 99);
}

#[test]
fn presented_outcome_tracks_exactly_one_fence() {
    let mut scheduler = FrameScheduler::new();
    let fence = scheduler.record_outcome(&PresentOutcome::Presented, 0).unwrap();
    assert_eq!(fence, FrameFence { frame: 1, generation: 0 });
    assert_eq!(scheduler.pacing, FencePacing::Pending(fence));
    // a second success supersedes the first fence instead of adding one
    let fence2 = scheduler.record_outcome(&PresentOutcome::Presented, 0).unwrap();
    assert_eq!(fence2, FrameFence { frame: 2, generation: 0 });
    assert_eq!(scheduler.pacing, FencePacing::Pending(fence2));
    assert_eq!(scheduler.frames_submitted, 2);
}

#[test]
fn plan_after_success_waits_on_previous_fence() {
    let mut scheduler = FrameScheduler::new();
    let fence = scheduler.record_outcome(&PresentOutcome::Presented, 3).unwrap();
    let plan = scheduler.plan_submission(0, 8, 100);
    assert_eq!(plan.waits_on_previous, Some(fence));
    assert_eq!(fence.generation, 3);
}

#[test]
fn stale_outcome_resets_pacing() {
    let mut scheduler = FrameScheduler::new();
    scheduler.record_outcome(&PresentOutcome::Presented, 0).unwrap();
    let r = scheduler.record_outcome(&PresentOutcome::Stale, 0);
    assert_eq!(r, None);
    assert_eq!(scheduler.pacing, FencePacing::Idle);
    assert_eq!(scheduler.frames_submitted, 1);
}

#[test]
fn failure_outcome_resets_pacing() {
    let mut scheduler = FrameScheduler::new();
    scheduler.record_outcome(&PresentOutcome::Presented, 0).unwrap();
    let r = scheduler.record_outcome(&PresentOutcome::Failure, 0);
    assert_eq!(r, None);
    assert_eq!(scheduler.pacing, FencePacing::Idle);
    assert_eq!(scheduler.frames_submitted, 1);
}
