//! The counters that travel through every step of one encode session.

use crate::handle::ValueHandle;
use vstd::prelude::*;

verus! {

/// The state of one session.
///
/// `default_calls` counts the fallback calls that lead to the value in hand;
/// `default_calls_limit` is the ceiling it may reach and never pass.
/// `fallback_callback` is the callable that the caller of the session
/// supplied, if any; the session borrows it and never releases it.
#[derive(Clone, Copy, Debug, PartialEq, Eq, Structural)]
pub struct SerializationState {
    pub recursion_depth: u32,
    pub default_calls: u32,
    pub default_calls_limit: u32,
    pub fallback_callback: Option<ValueHandle>,
}

impl SerializationState {
    /// The counter has not passed its ceiling.
    pub open spec fn wf(self) -> bool {
        self.default_calls <= self.default_calls_limit
    }

    /// The ceiling is reached: one more fallback call is one too many.
    pub open spec fn at_limit(self) -> bool {
        self.default_calls >= self.default_calls_limit
    }

    /// The fallback calls that may still be made.
    pub open spec fn calls_left(self) -> nat {
        if self.default_calls >= self.default_calls_limit {
            0
        } else {
            (self.default_calls_limit - self.default_calls) as nat
        }
    }

    /// The state that a substitute is encoded under: one more fallback call
    /// made, everything else carried forward.
    pub open spec fn advanced(self) -> Self {
        SerializationState {
            recursion_depth: self.recursion_depth,
            default_calls: (self.default_calls + 1) as u32,
            default_calls_limit: self.default_calls_limit,
            fallback_callback: self.fallback_callback,
        }
    }

    /// The state at the start of a session whose fallback chain may be
    /// `default_calls_limit` calls long.
    pub fn new(default_calls_limit: u32, fallback_callback: Option<ValueHandle>) -> (state: Self)
        ensures
            state == (SerializationState {
                recursion_depth: 0,
                default_calls: 0,
                default_calls_limit,
                fallback_callback,
            }),
            state.wf(),
    {
        SerializationState {
            recursion_depth: 0,
            default_calls: 0,
            default_calls_limit,
            fallback_callback,
        }
    }

    /// Whether the ceiling on fallback calls is reached.
    pub fn default_calls_limit(&self) -> (reached: bool)
        ensures
            reached == self.at_limit(),
    {
        self.default_calls >= self.default_calls_limit
    }

    /// The state for the encoding of a substitute. It is asked for only below
    /// the ceiling, so the counter stays within it.
    pub fn copy_for_default_call(&self) -> (next: Self)
        requires
            !self.at_limit(),
        ensures
            next == self.advanced(),
            next.default_calls == self.default_calls + 1,
            next.wf(),
            next.calls_left() + 1 == self.calls_left(),
    {
        SerializationState {
            recursion_depth: self.recursion_depth,
            default_calls: self.default_calls + 1,
            default_calls_limit: self.default_calls_limit,
            fallback_callback: self.fallback_callback,
        }
    }
}

} // verus!
