use e6viu::errors::AppError;
use e6viu::model::Ext;
use e6viu::state::{step, KeyInput, LoopEvent, LoopState};

#[test]
fn next_key_fetches_again() {
    let s = LoopState::AwaitingInput;
    assert_eq!(step(s, LoopEvent::Key(KeyInput::Char('n'))), Ok(LoopState::Fetching));
    assert_eq!(step(s, LoopEvent::Key(KeyInput::Char('N'))), Ok(LoopState::Fetching));
}

#[test]
fn quit_keys_terminate() {
    let s = LoopState::AwaitingInput;
    assert_eq!(step(s, LoopEvent::Key(KeyInput::Char('q'))), Ok(LoopState::Terminated));
    assert_eq!(step(s, LoopEvent::Key(KeyInput::Char('Q'))), Ok(LoopState::Terminated));
    assert_eq!(step(s, LoopEvent::Key(KeyInput::Esc)), Ok(LoopState::Terminated));
}

#[test]
fn unrecognized_keys_are_ignored() {
    let s = LoopState::AwaitingInput;
    for c in ['x', 'z', '1', ' ', 'm', 'p'] {
        assert_eq!(step(s, LoopEvent::Key(KeyInput::Char(c))), Ok(LoopState::AwaitingInput));
    }
    assert_eq!(step(s, LoopEvent::Key(KeyInput::Other)), Ok(LoopState::AwaitingInput));
}

#[test]
fn zero_posts_is_an_error_and_never_reaches_filtering() {
    assert_eq!(
        step(LoopState::Fetching, LoopEvent::Fetched(0)),
        Err(AppError::EmptyResult)
    );
}

#[test]
fn a_post_reaches_filtering() {
    assert_eq!(step(LoopState::Fetching, LoopEvent::Fetched(1)), Ok(LoopState::Filtering));
}

#[test]
fn rejected_type_refetches_silently() {
    assert_eq!(
        step(LoopState::Filtering, LoopEvent::Filtered(Ext::Webm)),
        Ok(LoopState::Fetching)
    );
    assert_eq!(
        step(LoopState::Filtering, LoopEvent::Filtered(Ext::Swf)),
        Ok(LoopState::Fetching)
    );
}

#[test]
fn accepted_type_downloads() {
    assert_eq!(
        step(LoopState::Filtering, LoopEvent::Filtered(Ext::Png)),
        Ok(LoopState::Downloading)
    );
}

#[test]
fn one_full_pass_of_the_loop() {
    let mut s = LoopState::Fetching;
    s = step(s, LoopEvent::Fetched(1)).unwrap();
    assert_eq!(s, LoopState::Filtering);
    s = step(s, LoopEvent::Filtered(Ext::Jpg)).unwrap();
    assert_eq!(s, LoopState::Downloading);
    s = step(s, LoopEvent::Downloaded).unwrap();
    assert_eq!(s, LoopState::Rendering);
    s = step(s, LoopEvent::Rendered).unwrap();
    assert_eq!(s, LoopState::AwaitingInput);
    s = step(s, LoopEvent::Key(KeyInput::Char('n'))).unwrap();
    assert_eq!(s, LoopState::Fetching);
}

#[test]
fn mismatched_event_leaves_the_state_alone() {
    assert_eq!(step(LoopState::Downloading, LoopEvent::Fetched(3)), Ok(LoopState::Downloading));
    assert_eq!(
        step(LoopState::Rendering, LoopEvent::Key(KeyInput::Char('q'))),
        Ok(LoopState::Rendering)
    );
}
