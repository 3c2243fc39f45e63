//! How a program ends after its entry point has run.

use crate::chained_error::ChainedError;
use vstd::prelude::*;

verus! {

/// The end of a process: its exit status, and what it writes to the
/// diagnostic stream before it exits.
#[derive(Debug)]
pub struct Exit {
    /// The exit status of the process.
    pub status: i32,
    /// The text for the diagnostic stream.
    pub diagnostics: String,
}

/// The end of a process whose entry point returned `outcome`: status 0 and
/// nothing to write after a success, status 1 and the report of the whole
/// chain after a failure.
pub fn report<T, E: ChainedError>(outcome: &Result<T, E>) -> (end: Exit)
    ensures
        match outcome {
            Ok(_) => end.status == 0 && end.diagnostics@ == Seq::<char>::empty(),
            Err(e) => end.status == 1 && end.diagnostics@ == e@.rendered(),
        },
{
    match outcome {
        Ok(_) => Exit { status: 0, diagnostics: String::new() },
        Err(e) => Exit { status: 1, diagnostics: e.display_chain().to_string() },
    }
}

} // verus!
