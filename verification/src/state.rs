//! The four-valued detector state and its wire ordinal.

use vstd::prelude::*;

verus! {

/// Detector state. `Ukn` is the initial "no evidence yet" value, `Error`
/// is terminal for the current run.
#[derive(Clone, Copy, Debug, PartialEq, Eq, Structural)]
pub enum State {
    Error,
    Ukn,
    Down,
    Up,
}

impl State {
    /// The integer ordinal used when a state crosses a process boundary:
    /// `0 = Error`, `1 = Ukn`, `2 = Down`, `3 = Up`.
    pub open spec fn spec_ordinal(self) -> usize {
        match self {
            State::Error => 0,
            State::Ukn => 1,
            State::Down => 2,
            State::Up => 3,
        }
    }

    /// Serialize the state as its wire ordinal.
    pub fn ordinal(&self) -> (r: usize)
        ensures
            r == self.spec_ordinal(),
            r <= 3,
    {
        match self {
            State::Error => 0,
            State::Ukn => 1,
            State::Down => 2,
            State::Up => 3,
        }
    }

    /// The state denoted by a wire ordinal.
    pub open spec fn spec_from_ordinal(val: usize) -> State {
        if val == 0 {
            State::Error
        } else if val == 1 {
            State::Ukn
        } else if val == 2 {
            State::Down
        } else {
            State::Up
        }
    }

    /// Deserialize a state from its wire ordinal. Ordinals above 3 denote
    /// no state, so they are excluded.
    pub fn from_ordinal(val: usize) -> (r: State)
        requires
            val <= 3,
        ensures
            r == State::spec_from_ordinal(val),
            r.spec_ordinal() == val,
    {
        if val == 0 {
            State::Error
        } else if val == 1 {
            State::Ukn
        } else if val == 2 {
            State::Down
        } else {
            State::Up
        }
    }
}

/// The two ordinal maps invert each other: serializing a state and reading
/// it back yields the same state.
pub proof fn lemma_ordinal_round_trip(s: State)
    ensures
        State::spec_from_ordinal(s.spec_ordinal()) == s,
        s.spec_ordinal() <= 3,
{
}

} // verus!
