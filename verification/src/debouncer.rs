//! Debouncer for a polled digital input: a transition is reported only after
//! the input has held the new level for a configured number of consecutive
//! samples.

use vstd::prelude::*;

verus! {

/// Internal debounce state.
#[derive(Clone, Copy, PartialEq, Eq, Structural, Debug)]
pub enum DebounceState {
    Init,
    ToHigh,
    High,
    ToLow,
    Low,
}

/// A debounced edge: the input has settled on the new level.
#[derive(Clone, Copy, PartialEq, Eq, Structural, Debug)]
pub enum Transition {
    ToHigh,
    ToLow,
}

pub struct Debouncer {
    state: DebounceState,
    count: usize,
    wait: usize,
}

/// One debounce step: next state, next count, and the reported transition.
pub open spec fn debounce_step(
    state: DebounceState,
    count: nat,
    wait: nat,
    input: bool,
) -> (DebounceState, nat, Option<Transition>) {
    match (state, input) {
        (DebounceState::Init, true) => (DebounceState::High, count, None),
        (DebounceState::Init, false) => (DebounceState::Low, count, None),
        (DebounceState::Low, false) => (DebounceState::Low, count, None),
        (DebounceState::Low, true) => (DebounceState::ToHigh, 1, None),
        (DebounceState::ToHigh, false) => (DebounceState::Low, count, None),
        (DebounceState::ToHigh, true) => {
            if count + 1 == wait {
                (DebounceState::High, count + 1, Some(Transition::ToHigh))
            } else {
                (DebounceState::ToHigh, count + 1, None)
            }
        },
        (DebounceState::High, true) => (DebounceState::High, count, None),
        (DebounceState::High, false) => (DebounceState::ToLow, 1, None),
        (DebounceState::ToLow, true) => (DebounceState::High, count, None),
        (DebounceState::ToLow, false) => {
            if count + 1 == wait {
                (DebounceState::Low, count + 1, Some(Transition::ToLow))
            } else {
                (DebounceState::ToLow, count + 1, None)
            }
        },
    }
}

impl Debouncer {
    pub closed spec fn state(&self) -> DebounceState {
        self.state
    }

    pub closed spec fn count(&self) -> nat {
        self.count as nat
    }

    pub closed spec fn wait(&self) -> nat {
        self.wait as nat
    }

    /// While a transition is pending the counter stays strictly below the
    /// configured wait, so the increment in `next` cannot overflow.
    pub closed spec fn wf(&self) -> bool {
        &&& 2 <= self.wait
        &&& (self.state is ToHigh || self.state is ToLow) ==> 1 <= self.count < self.wait
    }

    pub fn new(wait: usize) -> (r: Debouncer)
        requires
            wait >= 2,
        ensures
            r.wf(),
            r.state() == DebounceState::Init,
            r.count() == 0,
            r.wait() == wait,
    {
        Debouncer { state: DebounceState::Init, count: 0, wait }
    }

    pub fn next(&mut self, input: bool) -> (r: Option<Transition>)
        requires
            old(self).wf(),
        ensures
            final(self).wf(),
            final(self).wait() == old(self).wait(),
            (final(self).state(), final(self).count(), r) == debounce_step(
                old(self).state(),
                old(self).count(),
                old(self).wait(),
                input,
            ),
    {
        match (self.state, input) {
            (DebounceState::Init, true) => {
                self.state = DebounceState::High;
                None
            },
            (DebounceState::Init, false) => {
                self.state = DebounceState::Low;
                None
            },
            (DebounceState::Low, false) => None,
            (DebounceState::Low, true) => {
                self.state = DebounceState::ToHigh;
                self.count = 1;
                None
            },
            (DebounceState::ToHigh, false) => {
                self.state = DebounceState::Low;
                None
            },
            (DebounceState::ToHigh, true) => {
                self.count = self.count + 1;
                if self.count == self.wait {
                    self.state = DebounceState::High;
                    Some(Transition::ToHigh)
                } else {
                    None
                }
            },
            (DebounceState::High, true) => None,
            (DebounceState::High, false) => {
                self.state = DebounceState::ToLow;
                self.count = 1;
                None
            },
            (DebounceState::ToLow, true) => {
                self.state = DebounceState::High;
                None
            },
            (DebounceState::ToLow, false) => {
                self.count = self.count + 1;
                if self.count == self.wait {
                    self.state = DebounceState::Low;
                    Some(Transition::ToLow)
                } else {
                    None
                }
            },
        }
    }
}

} // verus!
