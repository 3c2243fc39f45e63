//! Walking a chain of errors.

use crate::dyn_error::{DynError, Layer};
use vstd::prelude::*;

verus! {

/// Walks a chain of errors from an error to its cause, until none remains.
///
/// Its view is the part of the chain that is still to come.
#[derive(Debug)]
pub struct Iter<'a>(Option<&'a DynError>);

impl<'a> View for Iter<'a> {
    type V = Seq<Layer>;

    closed spec fn view(&self) -> Seq<Layer> {
        match self.0 {
            Some(e) => e@,
            None => Seq::empty(),
        }
    }
}

impl<'a> Iter<'a> {
    /// An iterator over the chain that `err` heads, or over nothing.
    pub fn new(err: Option<&'a DynError>) -> (it: Iter<'a>)
        ensures
            it@ == match err {
                Some(e) => e@,
                None => Seq::empty(),
            },
    {
        Iter(err)
    }

    /// Hands out the current error and moves on to its cause.
    pub fn next(&mut self) -> (r: Option<&'a DynError>)
        ensures
            r is Some <==> old(self)@.len() > 0,
            r matches Some(e) ==> e@ == old(self)@,
            final(self)@ == if old(self)@.len() > 0 {
                old(self)@.drop_first()
            } else {
                old(self)@
            },
    {
        match self.0.take() {
            Some(e) => {
                self.0 = e.cause();
                Some(e)
            },
            None => None,
        }
    }

    /// The number of errors that are still to come.
    pub fn count(self) -> (n: usize)
        requires
            self@.len() <= usize::MAX,
        ensures
            n == self@.len(),
    {
        let mut it = self;
        let mut n: usize = 0;
        loop
            invariant
                n + it@.len() == self@.len(),
                self@.len() <= usize::MAX,
            decreases it@.len(),
        {
            match it.next() {
                Some(_) => {
                    n = n + 1;
                },
                None => {
                    return n;
                },
            }
        }
    }

    /// Skips `n` errors and hands out the one after them.
    pub fn nth(&mut self, n: usize) -> (r: Option<&'a DynError>)
        ensures
            r is Some <==> n < old(self)@.len(),
            r matches Some(e) ==> e@ == old(self)@.skip(n as int),
            final(self)@ == if n < old(self)@.len() {
                old(self)@.skip(n + 1)
            } else {
                Seq::empty()
            },
    {
        let mut skipped: usize = 0;
        while skipped < n
            invariant
                skipped <= n,
                self@ == if skipped <= old(self)@.len() {
                    old(self)@.skip(skipped as int)
                } else {
                    Seq::empty()
                },
            decreases n - skipped,
        {
            let _ = self.next();
            skipped = skipped + 1;
        }
        self.next()
    }
}

} // verus!
