//! The interaction loop's state machine. The loop itself performs the
//! outside work (network calls, file writes, terminal control); every
//! decision about what happens next is made here, as a pure step function
//! from state and event to the next state.

use vstd::prelude::*;
use crate::errors::AppError;
use crate::filter::accepts;
use crate::model::Ext;

verus! {

/// The current phase of the interaction loop.
#[derive(Debug, Clone, Copy, PartialEq, Eq, Structural)]
pub enum LoopState {
    /// A catalog request is outstanding, with the spinner animating.
    Fetching,
    /// A post arrived and its media type is being checked.
    Filtering,
    /// The post's content is being streamed to the scratch file.
    Downloading,
    /// The scratch file is being rendered to the terminal.
    Rendering,
    /// Blocked on a keypress deciding "fetch again" or "quit".
    AwaitingInput,
    /// The loop is over; the process exits.
    Terminated,
}

/// One key event, as the loop sees it.
#[derive(Debug, Clone, Copy, PartialEq, Eq, Structural)]
pub enum KeyInput {
    /// A printable character key.
    Char(char),
    /// The escape key.
    Esc,
    /// Any other key.
    Other,
}

/// What the outside work reports back to the state machine.
#[derive(Debug, Clone, Copy, PartialEq, Eq, Structural)]
pub enum LoopEvent {
    /// The catalog call resolved with this many posts.
    Fetched(usize),
    /// The fetched post declares this media type.
    Filtered(Ext),
    /// The streamed download completed.
    Downloaded,
    /// The renderer finished and the scratch file was removed.
    Rendered,
    /// A key event was read while awaiting input.
    Key(KeyInput),
}

/// Where a key event leads from `AwaitingInput`: `n`/`N` fetch the next
/// image, `q`/`Q` and escape quit, anything else is ignored.
pub open spec fn key_target(k: KeyInput) -> LoopState {
    match k {
        KeyInput::Char(c) => if c == 'n' || c == 'N' {
            LoopState::Fetching
        } else if c == 'q' || c == 'Q' {
            LoopState::Terminated
        } else {
            LoopState::AwaitingInput
        },
        KeyInput::Esc => LoopState::Terminated,
        KeyInput::Other => LoopState::AwaitingInput,
    }
}

/// The whole transition relation. A catalog answer with zero posts is the
/// one erroring transition; a rejected media type silently re-fetches; an
/// event that does not belong to the current state leaves it unchanged.
pub open spec fn next_state(s: LoopState, e: LoopEvent) -> Result<LoopState, AppError> {
    match (s, e) {
        (LoopState::Fetching, LoopEvent::Fetched(n)) => if n == 0 {
            Err(AppError::EmptyResult)
        } else {
            Ok(LoopState::Filtering)
        },
        (LoopState::Filtering, LoopEvent::Filtered(ext)) => if accepts(ext) {
            Ok(LoopState::Downloading)
        } else {
            Ok(LoopState::Fetching)
        },
        (LoopState::Downloading, LoopEvent::Downloaded) => Ok(LoopState::Rendering),
        (LoopState::Rendering, LoopEvent::Rendered) => Ok(LoopState::AwaitingInput),
        (LoopState::AwaitingInput, LoopEvent::Key(k)) => Ok(key_target(k)),
        _ => Ok(s),
    }
}

/// Advance the loop by one event.
pub fn step(s: LoopState, e: LoopEvent) -> (r: Result<LoopState, AppError>)
    ensures
        r == next_state(s, e),
{
    match (s, e) {
        (LoopState::Fetching, LoopEvent::Fetched(n)) => if n == 0 {
            Err(AppError::EmptyResult)
        } else {
            Ok(LoopState::Filtering)
        },
        (LoopState::Filtering, LoopEvent::Filtered(ext)) => if crate::filter::TypeFilter::accept(
            &ext,
        ) {
            Ok(LoopState::Downloading)
        } else {
            Ok(LoopState::Fetching)
        },
        (LoopState::Downloading, LoopEvent::Downloaded) => Ok(LoopState::Rendering),
        (LoopState::Rendering, LoopEvent::Rendered) => Ok(LoopState::AwaitingInput),
        (LoopState::AwaitingInput, LoopEvent::Key(k)) => Ok(key_target_of(k)),
        (_, _) => Ok(s),
    }
}

/// Where a key event leads from `AwaitingInput`.
pub fn key_target_of(k: KeyInput) -> (r: LoopState)
    ensures
        r == key_target(k),
{
    match k {
        KeyInput::Char(c) => if c == 'n' || c == 'N' {
            LoopState::Fetching
        } else if c == 'q' || c == 'Q' {
            LoopState::Terminated
        } else {
            LoopState::AwaitingInput
        },
        KeyInput::Esc => LoopState::Terminated,
        KeyInput::Other => LoopState::AwaitingInput,
    }
}

/// `AwaitingInput` moves to `Fetching` exactly on `n`/`N`, to `Terminated`
/// exactly on `q`/`Q`/escape, and stays put on every other key.
pub proof fn lemma_awaiting_input_transitions(k: KeyInput)
    ensures
        next_state(LoopState::AwaitingInput, LoopEvent::Key(k)) == Ok::<LoopState, AppError>(
            LoopState::Fetching,
        ) <==> (k == KeyInput::Char('n') || k == KeyInput::Char('N')),
        next_state(LoopState::AwaitingInput, LoopEvent::Key(k)) == Ok::<LoopState, AppError>(
            LoopState::Terminated,
        ) <==> (k == KeyInput::Char('q') || k == KeyInput::Char('Q') || k == KeyInput::Esc),
        next_state(LoopState::AwaitingInput, LoopEvent::Key(k)) == Ok::<LoopState, AppError>(
            LoopState::AwaitingInput,
        ) <==> !(k == KeyInput::Char('n') || k == KeyInput::Char('N') || k == KeyInput::Char('q')
            || k == KeyInput::Char('Q') || k == KeyInput::Esc),
{
}

/// A catalog answer with zero posts raises the empty-result error: the loop
/// never reaches `Filtering` from it.
pub proof fn lemma_empty_fetch_never_filters(n: usize)
    ensures
        n == 0 ==> next_state(LoopState::Fetching, LoopEvent::Fetched(n)) == Err::<
            LoopState,
            AppError,
        >(AppError::EmptyResult),
        n > 0 ==> next_state(LoopState::Fetching, LoopEvent::Fetched(n)) == Ok::<
            LoopState,
            AppError,
        >(LoopState::Filtering),
{
}

/// A rejected media type re-enters `Fetching` with no user interaction; an
/// accepted one proceeds to `Downloading`.
pub proof fn lemma_filter_transition(ext: Ext)
    ensures
        next_state(LoopState::Filtering, LoopEvent::Filtered(ext)) == Ok::<LoopState, AppError>(
            if accepts(ext) {
                LoopState::Downloading
            } else {
                LoopState::Fetching
            },
        ),
{
}

} // verus!
