//! The cancellation latch: any holder may fire it, and only the first fire
//! counts.
use vstd::prelude::*;

verus! {

/// Where a cancellation latch stands.
#[derive(Clone, Copy, Debug, PartialEq, Eq, Structural)]
pub enum CancelState {
    /// The process runs and nobody has asked to end it.
    Armed,
    /// Somebody has asked to end the process; the request is not served yet.
    Fired,
    /// The run is over: a request can no longer be delivered.
    Closed,
}

impl CancelState {
    /// Whether a fire in this state delivers a request.
    pub open spec fn delivers(self) -> bool {
        self is Armed
    }

    /// The state that a fire leaves behind.
    pub open spec fn after_fire(self) -> CancelState {
        if self is Armed {
            CancelState::Fired
        } else {
            self
        }
    }
}

/// A latch that requests the end of a running process.
#[derive(Clone, Copy, Debug, PartialEq, Eq)]
pub struct CancelToken {
    state: CancelState,
}

impl View for CancelToken {
    type V = CancelState;

    closed spec fn view(&self) -> CancelState {
        self.state
    }
}

impl CancelToken {
    /// A latch for a process that has just started.
    pub fn new() -> (r: Self)
        ensures
            r@ is Armed,
    {
        CancelToken { state: CancelState::Armed }
    }

    /// Requests the end of the process. Returns whether this call delivered
    /// the request: it does not once a request is pending or the run is over.
    pub fn fire(&mut self) -> (delivered: bool)
        ensures
            delivered == old(self)@.delivers(),
            final(self)@ == old(self)@.after_fire(),
    {
        match self.state {
            CancelState::Armed => {
                self.state = CancelState::Fired;
                true
            },
            _ => false,
        }
    }

    /// Marks the run as over, whatever the latch held.
    pub fn close(&mut self)
        ensures
            final(self)@ is Closed,
    {
        self.state = CancelState::Closed;
    }

    /// Where the latch stands.
    pub fn state(&self) -> (r: CancelState)
        ensures
            r == self@,
    {
        self.state
    }

    /// Whether a request is pending.
    pub fn is_fired(&self) -> (r: bool)
        ensures
            r == (self@ is Fired),
    {
        matches!(self.state, CancelState::Fired)
    }
}

/// Firing twice leaves the latch where firing once left it, and the second
/// fire delivers nothing.
pub proof fn lemma_fire_twice_is_fire_once(state: CancelState)
    ensures
        state.after_fire().after_fire() == state.after_fire(),
        !state.after_fire().delivers(),
{
}

/// A latch that is closed stays closed when fired, and delivers nothing.
pub proof fn lemma_fire_after_close(state: CancelState)
    requires
        state is Closed,
    ensures
        state.after_fire() is Closed,
        !state.delivers(),
{
}

} // verus!
