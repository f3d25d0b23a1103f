use present_core::caps::SurfaceCaps;
use present_core::coordinator::RebuildDecision;
use present_core::coordinator::ResizeCoordinator;
use present_core::extent::Extent;
use present_core::target_set::PresentationTargetSet;

fn sample_set(min_image_count: u32) -> PresentationTargetSet {
    let caps = SurfaceCaps::new(
        vec![37],
        vec![1],
        min_image_count,
        Some(Extent::new(600, 600)),
    );
    PresentationTargetSet::create(&caps).unwrap()
}

#[test]
fn nothing_pending_means_no_rebuild() {
    let set = sample_set(2);
    let mut coordinator = ResizeCoordinator::new();
    let decision = coordinator.maybe_rebuild(&set, Some(Extent::new(800, 600)));
    assert!(matches!(decision, RebuildDecision::NotRequested));
    assert!(!coordinator.is_rebuild_pending());
}

#[test]
fn resize_notification_arms_the_flag() {
    let mut coordinator = ResizeCoordinator::new();
    coordinator.note_resize();
    assert!(coordinator.is_rebuild_pending());
}

#[test]
fn staleness_report_arms_the_flag() {
    let mut coordinator = ResizeCoordinator::new();
    coordinator.note_stale();
    assert!(coordinator.is_rebuild_pending());
}

#[test]
fn successful_rebuild_clears_the_flag() {
    let set = sample_set(2);
    let mut coordinator = ResizeCoordinator::new();
    coordinator.note_resize();
    let decision = coordinator.maybe_rebuild(&set, Some(Extent::new(800, 600)));
    let next = match decision {
        RebuildDecision::Rebuilt(next) => next,
        other => panic!("expected a rebuild, got {:?}", other),
    };
    assert!(!coordinator.is_rebuild_pending());
    assert_eq!(next.generation, set.generation + 1);
    assert_eq!(next.extent, Extent::new(800, 600));
}

#[test]
fn skipped_rebuild_preserves_set_and_flag() {
    let set = sample_set(2);
    let before = set.clone();
    let mut coordinator = ResizeCoordinator::new();
    coordinator.note_resize();
    let decision = coordinator.maybe_rebuild(&set, Some(Extent::new(0, 0)));
    assert!(matches!(decision, RebuildDecision::Skipped));
    // never mutates the existing target set
    assert_eq!(set, before);
    // never clears the pending-rebuild flag
    assert!(coordinator.is_rebuild_pending());
}

#[test]
fn missing_extent_is_fatal_and_keeps_the_flag() {
    let set = sample_set(2);
    let mut coordinator = ResizeCoordinator::new();
    coordinator.note_resize();
    let decision = coordinator.maybe_rebuild(&set, None);
    assert!(matches!(decision, RebuildDecision::ExtentUnavailable));
    assert!(coordinator.is_rebuild_pending());
}
