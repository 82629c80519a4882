//! Stop status of an event loop.
//!
//! Each process runs a single-threaded reactor; callbacks request that the
//! loop end either abnormally (`set_break`) or normally (`set_exit`). A
//! break, once set, is kept: a second `set_break` is a no-op, and no later
//! `set_exit` can hide the error. Among exits the last writer wins.

use vstd::prelude::*;

verus! {

/// Why an event loop stopped.
#[derive(Clone, Copy, Debug, PartialEq, Eq, Structural)]
pub enum StopReason<B, E> {
    /// Abnormal end with an error value.
    Break(B),
    /// Normal end with a success value.
    Exit(E),
}

/// The loop's pending stop request, if any.
#[derive(Clone, Copy, Debug, PartialEq, Eq, Structural)]
pub enum LoopStatus<B, E> {
    /// Keep looping.
    Run,
    /// Stop with this reason once the current callback returns.
    Stop(StopReason<B, E>),
}

/// The status after a break request: the first break wins, and an earlier
/// exit request is overridden by the error.
pub open spec fn spec_set_break<B, E>(ls: LoopStatus<B, E>, reason: B) -> LoopStatus<B, E> {
    if ls is Stop && ls->0 is Break {
        ls
    } else {
        LoopStatus::Stop(StopReason::Break(reason))
    }
}

/// The status after an exit request: the last exit wins, but a pending
/// break is kept instead.
pub open spec fn spec_set_exit<B, E>(ls: LoopStatus<B, E>, value: E) -> LoopStatus<B, E> {
    if ls is Stop && ls->0 is Break {
        ls
    } else {
        LoopStatus::Stop(StopReason::Exit(value))
    }
}

/// The part of the reactor that the callbacks drive: the stop request.
/// Descriptor registration and the readiness wait stay with the caller.
pub struct LoopControl<B, E> {
    status: LoopStatus<B, E>,
}

impl<B, E> LoopControl<B, E> {
    /// The pending stop request.
    pub closed spec fn view(&self) -> LoopStatus<B, E> {
        self.status
    }

    /// A break request is pending.
    pub open spec fn spec_got_break(&self) -> bool {
        self@ is Stop && self@->0 is Break
    }

    /// A fresh control with no stop request.
    pub fn new() -> (c: Self)
        ensures
            c@ == LoopStatus::<B, E>::Run,
    {
        LoopControl { status: LoopStatus::Run }
    }

    /// Request an abnormal stop. Idempotent: the first break wins, and an
    /// earlier exit request is overridden by the error.
    pub fn set_break(&mut self, reason: B)
        ensures
            final(self)@ == spec_set_break(old(self)@, reason),
            final(self).spec_got_break(),
    {
        match &self.status {
            LoopStatus::Stop(StopReason::Break(_)) => {},
            _ => {
                self.status = LoopStatus::Stop(StopReason::Break(reason));
            },
        }
    }

    /// Request a normal stop. Last writer wins among exits; a pending
    /// break is kept instead.
    pub fn set_exit(&mut self, value: E)
        ensures
            final(self)@ == spec_set_exit(old(self)@, value),
    {
        match &self.status {
            LoopStatus::Stop(StopReason::Break(_)) => {},
            _ => {
                self.status = LoopStatus::Stop(StopReason::Exit(value));
            },
        }
    }

    /// Whether a break request is pending.
    pub fn got_break(&self) -> (r: bool)
        ensures
            r == self.spec_got_break(),
    {
        match &self.status {
            LoopStatus::Stop(StopReason::Break(_)) => true,
            _ => false,
        }
    }

    /// Whether the loop should stop at all.
    pub fn should_stop(&self) -> (r: bool)
        ensures
            r == (self@ is Stop),
    {
        match &self.status {
            LoopStatus::Stop(_) => true,
            LoopStatus::Run => false,
        }
    }

    /// Hand out the stop reason, if one is pending, consuming the control.
    pub fn into_reason(self) -> (r: Option<StopReason<B, E>>)
        ensures
            self@ is Stop ==> r == Some(self@->0),
            self@ is Run ==> r is None,
    {
        match self.status {
            LoopStatus::Stop(reason) => Some(reason),
            LoopStatus::Run => None,
        }
    }
}

} // verus!
