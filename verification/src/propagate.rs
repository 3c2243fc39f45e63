//! Leaving a function early with an error.

use crate::kind::converts_to;
use vstd::prelude::*;

verus! {

/// Whether `r` is the failure that converting `expr` gives.
pub open spec fn bailed<T, E, X: Into<E>>(expr: X, r: Result<T, E>) -> bool {
    r matches Err(e) && converts_to(expr, e)
}

/// The failure to return at once: `Err` of the error that `expr` converts to.
pub fn bail<T, E, X: Into<E>>(expr: X) -> (r: Result<T, E>)
    ensures
        bailed(expr, r),
{
    Err(expr.into())
}

/// Nothing to report where `condition` holds; otherwise the failure that
/// [`bail`] gives for `expr`.
pub fn ensure<E, X: Into<E>>(condition: bool, expr: X) -> (r: Result<(), E>)
    ensures
        condition ==> r is Ok,
        !condition ==> bailed(expr, r),
{
    if !condition {
        bail(expr)
    } else {
        Ok(())
    }
}

} // verus!
