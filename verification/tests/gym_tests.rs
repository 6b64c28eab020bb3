use octane::gym::{end_flags, space_kind, step_layout, GymError, SpaceKind, StepLayout};
use octane::wrappers::EpisodeCounter;

#[test]
fn space_kinds_by_type_name() {
    assert_eq!(space_kind("Box"), Ok(SpaceKind::Box));
    assert_eq!(space_kind("Discrete"), Ok(SpaceKind::Discrete));
    let err = space_kind("MultiBinary").unwrap_err();
    assert_eq!(err, GymError::UnsupportedSpace("MultiBinary".to_string()));
    assert_eq!(err.message(), "Unsupported space type: MultiBinary. Supported: Box, Discrete");
    assert!(space_kind("box").is_err());
}

#[test]
fn step_layouts_by_length() {
    assert_eq!(step_layout(5), Ok(StepLayout::Gymnasium));
    assert_eq!(step_layout(4), Ok(StepLayout::Legacy));
    let err = step_layout(3).unwrap_err();
    assert_eq!(err.message(), "Unexpected step result tuple length: 3");
    assert!(step_layout(6).is_err());
}

#[test]
fn legacy_layout_never_truncates() {
    assert_eq!(end_flags(StepLayout::Gymnasium, false, true), (false, true));
    assert_eq!(end_flags(StepLayout::Gymnasium, true, false), (true, false));
    assert_eq!(end_flags(StepLayout::Legacy, true, true), (true, false));
    assert_eq!(end_flags(StepLayout::Legacy, false, true), (false, false));
}

#[test]
fn episode_length_reported_at_the_end() {
    let mut ep = EpisodeCounter::new();
    assert_eq!(ep.record_step(false, false), None);
    assert_eq!(ep.record_step(false, false), None);
    assert_eq!(ep.record_step(false, true), Some(3));
    assert_eq!(ep.step_count(), 3);
    ep.reset();
    assert_eq!(ep.step_count(), 0);
    assert_eq!(ep.record_step(true, false), Some(1));
}
