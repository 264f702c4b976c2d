use e6viu::errors::AppError;
use e6viu::model::SpinnersValue;
use e6viu::spinner::{next_frame_index, SpinnerAnimator};

fn dots() -> (String, SpinnersValue) {
    (
        "dots".to_string(),
        SpinnersValue { interval: 80, frames: vec![".".to_string(), "..".to_string(), "...".to_string()] },
    )
}

fn line() -> (String, SpinnersValue) {
    (
        "line".to_string(),
        SpinnersValue { interval: 130, frames: vec!["-".to_string(), "|".to_string()] },
    )
}

#[test]
fn empty_definition_set_cannot_start() {
    let mut animator = SpinnerAnimator::new(Vec::new()).unwrap();
    assert_eq!(animator.start(), Err(AppError::EmptyDefinitionSet));
    assert!(!animator.active);
}

#[test]
fn non_positive_interval_is_a_parse_error() {
    let bad = ("bad".to_string(), SpinnersValue { interval: 0, frames: vec!["x".to_string()] });
    assert!(SpinnerAnimator::new(vec![dots(), bad]).is_err());
}

#[test]
fn frameless_definition_is_a_parse_error() {
    let bad = ("bad".to_string(), SpinnersValue { interval: 100, frames: vec![] });
    assert_eq!(
        SpinnerAnimator::new(vec![bad]).err(),
        Some(AppError::Parse)
    );
}

#[test]
fn start_picks_a_definition_and_stop_is_idempotent() {
    let mut animator = SpinnerAnimator::new(vec![dots(), line()]).unwrap();
    assert_eq!(animator.definition_count(), 2);
    let chosen = animator.start().unwrap();
    assert!(chosen < 2);
    assert!(animator.active);
    animator.stop();
    assert!(!animator.active);
    animator.stop();
    assert!(!animator.active);
}

#[test]
fn chosen_definition_exposes_frames_and_interval() {
    let mut animator = SpinnerAnimator::new(vec![dots()]).unwrap();
    let chosen = animator.start().unwrap();
    assert_eq!(chosen, 0);
    assert_eq!(animator.frames_of(0), &vec![".", "..", "..."]);
    assert_eq!(animator.interval_ms_of(0), 80);
}

#[test]
fn frames_cycle_in_order_and_wrap() {
    assert_eq!(next_frame_index(0, 3), 1);
    assert_eq!(next_frame_index(1, 3), 2);
    assert_eq!(next_frame_index(2, 3), 0);
    assert_eq!(next_frame_index(0, 1), 0);
}
