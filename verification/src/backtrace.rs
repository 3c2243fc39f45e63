//! The call stack attached to an error chain.

use std::sync::Arc;
use vstd::prelude::*;

pub use std::backtrace::Backtrace;

verus! {

/// `std::backtrace::Backtrace`: a call stack as the standard library
/// records it.  Nothing inside it is visible to the proofs.
#[verifier::external_type_specification]
#[verifier::external_body]
pub struct ExBacktrace(std::backtrace::Backtrace);

/// Whether `std::backtrace::Backtrace::status` reports a backtrace as captured.
pub uninterp spec fn backtrace_captured(b: Backtrace) -> bool;

/// The text that `std::backtrace::Backtrace` gives for a backtrace in the
/// alternate form of `Display` (`{:#}`), which lists the frames of the call
/// stack.
pub uninterp spec fn backtrace_text(b: Backtrace) -> Seq<char>;

/// Calls `std::backtrace::Backtrace::capture`.  Whether anything is captured
/// depends on the process's configuration and on the platform, so nothing is
/// claimed of the result.
#[verifier::external_body]
fn capture_backtrace() -> Backtrace {
    Backtrace::capture()
}

/// Calls `std::backtrace::Backtrace::status` and says whether it is
/// `BacktraceStatus::Captured`.
#[verifier::external_body]
fn is_captured(b: &Backtrace) -> (r: bool)
    ensures
        r == backtrace_captured(*b),
{
    match b.status() {
        std::backtrace::BacktraceStatus::Captured => true,
        _ => false,
    }
}

/// Formats a backtrace with `{:#}`, the alternate `Display` form of
/// `std::backtrace::Backtrace`.
#[verifier::external_body]
pub(crate) fn render_backtrace(b: &Backtrace) -> (s: String)
    ensures
        s@ == backtrace_text(*b),
{
    format!("{:#}", b)
}

/// Calls `Arc::clone`: the new pointer shares the allocation of the old one,
/// so both stand for the same backtrace.
#[verifier::external_body]
fn share(a: &Arc<Backtrace>) -> (r: Arc<Backtrace>)
    ensures
        r == *a,
{
    Arc::clone(a)
}

/// The backtrace of an error chain: either a captured call stack, shared by
/// every error that carries it, or nothing, when capturing is disabled.
#[derive(Debug)]
pub struct InternalBacktrace {
    backtrace: Option<Arc<Backtrace>>,
}

impl InternalBacktrace {
    #[verifier::type_invariant]
    spec fn holds_captured(&self) -> bool {
        self.backtrace matches Some(a) ==> backtrace_captured(*a)
    }

    /// The captured call stack, if there is one.
    pub closed spec fn snapshot(&self) -> Option<Backtrace> {
        match self.backtrace {
            Some(a) => Some(*a),
            None => None,
        }
    }

    /// Captures the current call stack, if the process is configured to do so.
    pub fn new() -> (r: InternalBacktrace)
        ensures
            r.snapshot() matches Some(b) ==> backtrace_captured(b),
    {
        InternalBacktrace::from_snapshot(capture_backtrace())
    }

    /// Keeps `b` if it holds a captured call stack, and nothing otherwise.
    pub fn from_snapshot(b: Backtrace) -> (r: InternalBacktrace)
        ensures
            r.snapshot() == if backtrace_captured(b) {
                Some(b)
            } else {
                None
            },
    {
        if is_captured(&b) {
            InternalBacktrace { backtrace: Some(Arc::new(b)) }
        } else {
            InternalBacktrace { backtrace: None }
        }
    }

    /// The backtrace of a chain for which capturing is disabled.
    pub fn none() -> (r: InternalBacktrace)
        ensures
            r.snapshot() is None,
    {
        InternalBacktrace { backtrace: None }
    }

    /// The captured call stack, if there is one.
    pub fn as_backtrace(&self) -> (r: Option<&Backtrace>)
        ensures
            r == match self.snapshot() {
                Some(b) => Some(&b),
                None => None,
            },
            r matches Some(b) ==> backtrace_captured(*b),
    {
        proof {
            use_type_invariant(self);
        }
        match &self.backtrace {
            Some(a) => Some(&**a),
            None => None,
        }
    }

    /// True only when nothing was captured.
    pub fn is_none(&self) -> (r: bool)
        ensures
            r == (self.snapshot() is None),
    {
        self.backtrace.is_none()
    }
}

impl Clone for InternalBacktrace {
    /// Another handle on the same captured call stack.
    fn clone(&self) -> (r: InternalBacktrace)
        ensures
            r == *self,
    {
        proof {
            use_type_invariant(self);
        }
        match &self.backtrace {
            Some(a) => InternalBacktrace { backtrace: Some(share(a)) },
            None => InternalBacktrace { backtrace: None },
        }
    }
}

} // verus!
