use present_core::caps::SurfaceCaps;
use present_core::extent::Extent;
use present_core::target_set::CreateError;
use present_core::target_set::PresentationTargetSet;
use present_core::target_set::RebuildOutcome;

fn caps_with(
    formats: Vec<u32>,
    alpha_modes: Vec<u32>,
    min_image_count: u32,
    current_extent: Option<Extent>,
) -> SurfaceCaps {
    SurfaceCaps::new(formats, alpha_modes, min_image_count, current_extent)
}

fn default_caps(min_image_count: u32, extent: Option<Extent>) -> SurfaceCaps {
    caps_with(vec![37, 44], vec![1, 4], min_image_count, extent)
}

#[test]
fn create_has_one_destination_per_image() {
    let caps = default_caps(2, Some(Extent::new(600, 600)));
    let set = PresentationTargetSet::create(&caps).unwrap();
    assert_eq!(set.images.len(), 2);
    assert_eq!(set.destinations.len(), 2);
    assert_eq!(set.generation, 0);
}

#[test]
fn create_requests_min_image_count() {
    let caps = default_caps(3, Some(Extent::new(1024, 768)));
    let set = PresentationTargetSet::create(&caps).unwrap();
    assert_eq!(set.images.len(), 3);
    assert_eq!(set.destinations.len(), 3);
    assert_eq!(set.min_image_count, 3);
}

#[test]
fn create_picks_first_enumerated_format_and_alpha() {
    let caps = caps_with(vec![56, 37, 44], vec![8, 1], 2, Some(Extent::new(640, 480)));
    let set = PresentationTargetSet::create(&caps).unwrap();
    assert_eq!(set.format, 56);
    assert_eq!(set.alpha_mode, 8);
}

#[test]
fn create_uses_reported_extent() {
    let caps = default_caps(2, Some(Extent::new(800, 600)));
    let set = PresentationTargetSet::create(&caps).unwrap();
    assert_eq!(set.extent, Extent::new(800, 600));
}

#[test]
fn create_stamps_every_image_and_destination() {
    let caps = default_caps(3, Some(Extent::new(600, 600)));
    let set = PresentationTargetSet::create(&caps).unwrap();
    for (i, image) in set.images.iter().enumerate() {
        assert_eq!(image.extent, set.extent);
        assert_eq!(image.format, set.format);
        assert_eq!(image.generation, 0);
        let dest = &set.destinations[i];
        assert_eq!(dest.image_index, i);
        assert_eq!(dest.extent, set.extent);
        assert_eq!(dest.format, set.format);
        assert_eq!(dest.generation, 0);
    }
}

#[test]
fn create_fails_without_reported_extent() {
    let caps = default_caps(2, None);
    let r = PresentationTargetSet::create(&caps);
    assert_eq!(r.unwrap_err(), CreateError::ExtentUnavailable);
}

#[test]
fn create_fails_without_alpha_modes() {
    let caps = caps_with(vec![37], vec![], 2, Some(Extent::new(600, 600)));
    let r = PresentationTargetSet::create(&caps);
    assert_eq!(r.unwrap_err(), CreateError::NoAlphaMode);
}

#[test]
fn create_fails_without_formats() {
    let caps = caps_with(vec![], vec![1], 2, Some(Extent::new(600, 600)));
    let r = PresentationTargetSet::create(&caps);
    assert_eq!(r.unwrap_err(), CreateError::NoSupportedFormat);
}

#[test]
fn create_fails_at_zero_area_extent() {
    let caps = default_caps(2, Some(Extent::new(0, 600)));
    let r = PresentationTargetSet::create(&caps);
    assert_eq!(r.unwrap_err(), CreateError::UnsupportedExtent);
}

#[test]
fn rebuild_skips_zero_area_extents() {
    let caps = default_caps(2, Some(Extent::new(600, 600)));
    let set = PresentationTargetSet::create(&caps).unwrap();
    assert!(matches!(set.rebuild(Extent::new(0, 0)), RebuildOutcome::Skipped));
    assert!(matches!(set.rebuild(Extent::new(800, 0)), RebuildOutcome::Skipped));
    assert!(matches!(set.rebuild(Extent::new(0, 600)), RebuildOutcome::Skipped));
}

#[test]
fn rebuild_replaces_whole_chain() {
    let caps = default_caps(2, Some(Extent::new(600, 600)));
    let set = PresentationTargetSet::create(&caps).unwrap();
    let next = match set.rebuild(Extent::new(800, 600)) {
        RebuildOutcome::Rebuilt(next) => next,
        RebuildOutcome::Skipped => panic!("supported extent was skipped"),
    };
    assert_eq!(next.generation, 1);
    assert_eq!(next.extent, Extent::new(800, 600));
    assert_eq!(next.format, set.format);
    assert_eq!(next.alpha_mode, set.alpha_mode);
    assert_eq!(next.images.len(), set.images.len());
    assert_eq!(next.destinations.len(), set.destinations.len());
    for image in &next.images {
        assert_eq!(image.generation, 1);
        assert_eq!(image.extent, Extent::new(800, 600));
    }
    // the previous set is untouched by a rebuild
    assert_eq!(set.generation, 0);
    assert_eq!(set.extent, Extent::new(600, 600));
}

#[test]
fn rebuild_twice_at_same_extent_is_idempotent() {
    let caps = default_caps(3, Some(Extent::new(600, 600)));
    let set = PresentationTargetSet::create(&caps).unwrap();
    let first = match set.rebuild(Extent::new(800, 600)) {
        RebuildOutcome::Rebuilt(next) => next,
        RebuildOutcome::Skipped => panic!("supported extent was skipped"),
    };
    let second = match first.rebuild(Extent::new(800, 600)) {
        RebuildOutcome::Rebuilt(next) => next,
        RebuildOutcome::Skipped => panic!("supported extent was skipped"),
    };
    assert_eq!(second.images.len(), first.images.len());
    assert_eq!(second.destinations.len(), first.destinations.len());
    assert_eq!(second.format, first.format);
    assert_eq!(second.extent, first.extent);
    assert_eq!(second.generation, first.generation + 1);
}

#[test]
fn image_count_reports_chain_length() {
    let caps = default_caps(4, Some(Extent::new(600, 600)));
    let set = PresentationTargetSet::create(&caps).unwrap();
    assert_eq!(set.image_count(), 4);
}
