//! The spinner animator: owns the set of named animations and decides, per
//! fetch, which one runs and which frame shows at each tick. Printing the
//! frames and sleeping between them is the caller's background task; every
//! choice it prints from is made and checked here.

use vstd::prelude::*;
use rand::Rng;
use crate::errors::AppError;
use crate::model::SpinnersValue;

verus! {

/// Relies on `rand::Rng::gen_range` over `0..n`: it returns a value of the
/// range, drawn uniformly, and panics only when the range is empty, which
/// the precondition rules out.
#[verifier::external_body]
fn pick_index(n: usize) -> (r: usize)
    requires
        0 < n,
    ensures
        r < n,
{
    rand::thread_rng().gen_range(0..n)
}

/// The set of named spinner animations, and whether one is running.
pub struct SpinnerAnimator {
    /// The definitions, as (name, animation) pairs; every animation is
    /// well-formed (positive interval, at least one frame).
    pub definitions: Vec<(String, SpinnersValue)>,
    /// Whether a background animation task is currently running.
    pub active: bool,
}

impl SpinnerAnimator {
    /// Every held animation is usable.
    pub open spec fn wf(self) -> bool {
        forall|i: int| 0 <= i < self.definitions@.len() ==> self.definitions@[i].1.wf()
    }

    /// Take over a parsed definition set. A definition with a non-positive
    /// interval or no frames makes the whole document malformed, which is
    /// fatal: the animator starts with none of it.
    pub fn new(definitions: Vec<(String, SpinnersValue)>) -> (r: Result<SpinnerAnimator, AppError>)
        ensures
            (forall|i: int| 0 <= i < definitions@.len() ==> definitions@[i].1.wf()) <==> r is Ok,
            r matches Err(e) ==> e == AppError::Parse,
            r matches Ok(a) ==> a.definitions == definitions && !a.active && a.wf(),
    {
        let mut i: usize = 0;
        while i < definitions.len()
            invariant
                i <= definitions@.len(),
                forall|j: int| 0 <= j < i ==> definitions@[j].1.wf(),
            decreases definitions@.len() - i,
        {
            let def = &definitions[i].1;
            if def.interval <= 0 || def.frames.len() == 0 {
                return Err(AppError::Parse);
            }
            i = i + 1;
        }
        Ok(SpinnerAnimator { definitions, active: false })
    }

    /// Start one animation: pick a definition uniformly at random and mark
    /// the animator active. With no definitions to choose from this fails
    /// before anything could be printed. Returns the index of the chosen
    /// definition; which index comes back is the draw's business.
    pub fn start(&mut self) -> (r: Result<usize, AppError>)
        requires
            old(self).wf(),
        ensures
            final(self).definitions == old(self).definitions,
            final(self).wf(),
            old(self).definitions@.len() == 0 <==> r is Err,
            r matches Err(e) ==> e == AppError::EmptyDefinitionSet && *final(self) == *old(self),
            r matches Ok(i) ==> i < old(self).definitions@.len() && final(self).active,
    {
        if self.definitions.len() == 0 {
            return Err(AppError::EmptyDefinitionSet);
        }
        let chosen = pick_index(self.definitions.len());
        self.active = true;
        Ok(chosen)
    }

    /// Stop the running animation, if any: stopping an idle animator is a
    /// no-op. The definitions survive for the next fetch.
    pub fn stop(&mut self)
        ensures
            final(self).definitions == old(self).definitions,
            !final(self).active,
    {
        self.active = false;
    }

    /// How many definitions there are to choose from.
    pub fn definition_count(&self) -> (r: usize)
        ensures
            r == self.definitions@.len(),
    {
        self.definitions.len()
    }

    /// The frames of one definition, for the background task to cycle over.
    pub fn frames_of(&self, def: usize) -> (r: &Vec<String>)
        requires
            def < self.definitions@.len(),
        ensures
            r == self.definitions@[def as int].1.frames,
    {
        &self.definitions[def].1.frames
    }

    /// The tick interval of one definition, in milliseconds. Well-formed
    /// definitions keep it positive, so it fits the unsigned sleep length.
    pub fn interval_ms_of(&self, def: usize) -> (r: u64)
        requires
            self.wf(),
            def < self.definitions@.len(),
        ensures
            r == self.definitions@[def as int].1.interval,
            0 < r,
    {
        self.definitions[def].1.interval as u64
    }
}

/// The frame after `i` in a cycle over `n` frames: the next one in order,
/// wrapping back to the first after the last.
pub fn next_frame_index(i: usize, n: usize) -> (r: usize)
    requires
        0 < n,
        i < n,
    ensures
        r == if i + 1 == n {
            0int
        } else {
            i + 1
        },
        r < n,
{
    if i + 1 == n {
        0
    } else {
        i + 1
    }
}

} // verus!
