//! Errors with their types erased, and the chains they form.

use crate::backtrace::InternalBacktrace;
use vstd::prelude::*;

verus! {

/// What one error of a chain shows of itself.
pub ghost struct Layer {
    /// A short phrase that classifies the error.
    pub description: Seq<char>,
    /// The sentence that reports the error.
    pub display: Seq<char>,
    /// The backtrace that can be taken from the error, if it carries one.
    pub backtrace: Option<InternalBacktrace>,
}

/// The chain made of one error and the chain of its causes.
pub open spec fn chained(head: Layer, causes: Seq<Layer>) -> Seq<Layer> {
    seq![head] + causes
}

/// The chain headed by an optional cause: empty where there is none.
pub open spec fn causes_of(cause: Option<Box<DynError>>) -> Seq<Layer> {
    match cause {
        Some(c) => c@,
        None => Seq::empty(),
    }
}

/// The backtrace of the first error of `chain` that carries one.  Where
/// several errors of a chain carry a backtrace, the library prefers the one
/// nearest to the top.
pub open spec fn first_backtrace(chain: Seq<Layer>) -> Option<InternalBacktrace>
    decreases chain.len(),
{
    if chain.len() == 0 {
        None
    } else if chain[0].backtrace is Some {
        chain[0].backtrace
    } else {
        first_backtrace(chain.drop_first())
    }
}

/// The first error of a chain that carries a backtrace decides: if that is
/// the error at `i`, the backtrace found is the one it carries.
pub proof fn lemma_first_backtrace_is_nearest(chain: Seq<Layer>, i: int)
    requires
        0 <= i < chain.len(),
        chain[i].backtrace is Some,
        forall|j: int| 0 <= j < i ==> chain[j].backtrace is None,
    ensures
        first_backtrace(chain) == chain[i].backtrace,
    decreases i,
{
    if i > 0 {
        let rest = chain.drop_first();
        assert forall|j: int| 0 <= j < i - 1 implies rest[j].backtrace is None by {
            assert(rest[j] == chain[j + 1]);
        }
        lemma_first_backtrace_is_nearest(rest, i - 1);
    }
}

/// A chain in which no error carries a backtrace gives none.
pub proof fn lemma_first_backtrace_none(chain: Seq<Layer>)
    requires
        forall|j: int| 0 <= j < chain.len() ==> chain[j].backtrace is None,
    ensures
        first_backtrace(chain) is None,
    decreases chain.len(),
{
    if chain.len() > 0 {
        let rest = chain.drop_first();
        assert forall|j: int| 0 <= j < rest.len() implies rest[j].backtrace is None by {
            assert(rest[j] == chain[j + 1]);
        }
        lemma_first_backtrace_none(rest);
    }
}

/// An error of any type, reduced to what a chain needs of it: its
/// description, its display, its cause and the backtrace it carries.
///
/// Its view is the chain that it heads, itself first.
#[derive(Debug)]
pub struct DynError {
    description: String,
    display: String,
    cause: Option<Box<DynError>>,
    backtrace: Option<InternalBacktrace>,
}

impl DynError {
    spec fn head(&self) -> Layer {
        Layer {
            description: self.description@,
            display: self.display@,
            backtrace: self.backtrace,
        }
    }

    spec fn unfold(&self) -> Seq<Layer>
        decreases self,
    {
        chained(
            self.head(),
            match self.cause {
                Some(c) => c.unfold(),
                None => Seq::empty(),
            },
        )
    }
}

impl View for DynError {
    type V = Seq<Layer>;

    closed spec fn view(&self) -> Seq<Layer> {
        self.unfold()
    }
}

impl DynError {
    /// A chain always holds the error that heads it.
    pub proof fn lemma_nonempty(&self)
        ensures
            self@.len() >= 1,
    {
    }

    /// An error built from what it shows, in front of the chain of `cause`.
    /// A chained error carries the backtrace of its chain; an error of any
    /// other origin carries none.
    pub fn new(
        description: String,
        display: String,
        cause: Option<Box<DynError>>,
        backtrace: Option<InternalBacktrace>,
    ) -> (e: DynError)
        ensures
            e@ == chained(
                Layer { description: description@, display: display@, backtrace },
                causes_of(cause),
            ),
    {
        DynError { description, display, cause, backtrace }
    }

    /// The short phrase that classifies this error.
    pub fn description(&self) -> (r: &str)
        ensures
            self@.len() >= 1,
            r@ == self@[0].description,
    {
        self.description.as_str()
    }

    /// The sentence that reports this error.
    pub fn display(&self) -> (r: &str)
        ensures
            self@.len() >= 1,
            r@ == self@[0].display,
    {
        self.display.as_str()
    }

    /// The error that caused this one, if any: the rest of the chain.
    pub fn cause(&self) -> (r: Option<&DynError>)
        ensures
            self@.len() >= 1,
            match r {
                Some(c) => c@ == self@.drop_first(),
                None => self@.len() == 1,
            },
    {
        match &self.cause {
            Some(c) => {
                assert(chained(self.head(), c.unfold()).drop_first() =~= c.unfold());
                Some(&**c)
            },
            None => None,
        }
    }

    /// The backtrace that this error itself carries, if any.
    pub fn backtrace(&self) -> (r: Option<&InternalBacktrace>)
        ensures
            self@.len() >= 1,
            r == match self@[0].backtrace {
                Some(b) => Some(&b),
                None => None,
            },
    {
        match &self.backtrace {
            Some(b) => Some(b),
            None => None,
        }
    }

    /// Takes the error apart again.
    pub fn into_parts(self) -> (parts: (
        String,
        String,
        Option<Box<DynError>>,
        Option<InternalBacktrace>,
    ))
        ensures
            self@ == chained(
                Layer { description: parts.0@, display: parts.1@, backtrace: parts.3 },
                causes_of(parts.2),
            ),
    {
        (self.description, self.display, self.cause, self.backtrace)
    }

    /// The first backtrace found in the chain, starting at this error and
    /// going down through its causes.
    pub fn extract_backtrace(&self) -> (r: Option<InternalBacktrace>)
        ensures
            r == first_backtrace(self@),
    {
        let mut cur: &DynError = self;
        loop
            invariant
                first_backtrace(cur@) == first_backtrace(self@),
            decreases cur@.len(),
        {
            match &cur.backtrace {
                Some(b) => {
                    return Some(b.clone());
                },
                None => {},
            }
            match &cur.cause {
                Some(c) => {
                    assert(cur@.drop_first() =~= c@);
                    cur = &**c;
                },
                None => {
                    assert(cur@.drop_first() =~= Seq::<Layer>::empty());
                    assert(first_backtrace(cur@.drop_first()) is None);
                    return None;
                },
            }
        }
    }
}

/// Errors that can stand in a chain as the cause of another error.
pub trait ToError: Sized {
    /// The chain that the error heads, itself first.
    spec fn layers(&self) -> Seq<Layer>;

    /// Gives the error up as a [`DynError`] that heads the same chain.
    fn to_error(self) -> (e: DynError)
        ensures
            e@ == self.layers(),
    ;
}

impl ToError for DynError {
    open spec fn layers(&self) -> Seq<Layer> {
        self@
    }

    fn to_error(self) -> (e: DynError) {
        self
    }
}

impl ToError for Box<DynError> {
    open spec fn layers(&self) -> Seq<Layer> {
        (**self)@
    }

    fn to_error(self) -> (e: DynError) {
        *self
    }
}

} // verus!
