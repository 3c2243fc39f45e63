//! What every chained error holds besides its kind.

use crate::backtrace::InternalBacktrace;
use crate::dyn_error::{first_backtrace, DynError};
use vstd::prelude::*;

verus! {

/// The state common to all chained errors: the cause and the backtrace.
#[derive(Debug)]
pub struct State {
    /// The next error of the chain: the cause of the error that holds this state.
    pub next_error: Option<Box<DynError>>,
    /// The backtrace of the chain.
    pub backtrace: InternalBacktrace,
}

impl Default for State {
    /// The state of an error that starts a chain: no cause, and the call
    /// stack as it is now, if capturing is enabled.
    fn default() -> (s: State)
        ensures
            s.next_error is None,
    {
        State { next_error: None, backtrace: InternalBacktrace::new() }
    }
}

impl State {
    /// The state of an error caused by `e`.  The chain keeps the backtrace
    /// that it already has: only where `e` and its causes carry none is the
    /// call stack captured anew.
    pub fn new(e: Box<DynError>) -> (s: State)
        ensures
            s.next_error == Some(e),
            first_backtrace(e@) matches Some(b) ==> s.backtrace == b,
    {
        let backtrace = match e.extract_backtrace() {
            Some(b) => b,
            None => InternalBacktrace::new(),
        };
        State { next_error: Some(e), backtrace }
    }
}

} // verus!
