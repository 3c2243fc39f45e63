//! The interface of chained errors and the rendering of a whole chain.

use crate::backtrace::{
    backtrace_captured, backtrace_text, render_backtrace, Backtrace, InternalBacktrace,
};
use crate::dyn_error::{causes_of, chained, first_backtrace, DynError, Layer, ToError};
use crate::iter::Iter;
use crate::kind::{converts_to, yields, Kind};
use crate::state::State;
use vstd::prelude::*;

verus! {

/// A chained error as contracts see it.
pub ghost struct ErrorView<K> {
    /// The kind of the error.
    pub kind: K,
    /// The backtrace of the chain that the error heads.
    pub backtrace: InternalBacktrace,
    /// The chain of the error's causes, the immediate cause first; empty
    /// where the error has no cause.
    pub causes: Seq<Layer>,
}

impl<K: Kind> ErrorView<K> {
    /// What the error shows of itself: the texts of its kind, and its backtrace.
    pub open spec fn head(self) -> Layer {
        Layer {
            description: self.kind.spec_description(),
            display: self.kind.spec_display(),
            backtrace: Some(self.backtrace),
        }
    }

    /// The whole chain: the error itself, then its causes.
    pub open spec fn chain(self) -> Seq<Layer> {
        chained(self.head(), self.causes)
    }

    /// The chain is the error followed by its causes, in that order.
    pub proof fn lemma_chain_shape(self)
        ensures
            self.chain().len() == self.causes.len() + 1,
            self.chain()[0] == self.head(),
            self.chain().drop_first() == self.causes,
            forall|i: int| 0 <= i < self.causes.len() ==> self.chain()[i + 1] == self.causes[i],
    {
        assert(self.chain().drop_first() =~= self.causes);
    }

    /// An error whose causes are the chain of `cause` comes first in its own
    /// chain, shows the texts of its own kind there, and has `cause` and
    /// all that follows it behind itself, one place further down.
    pub proof fn lemma_chained_in_front<C: Kind>(self, cause: ErrorView<C>)
        requires
            self.causes == cause.chain(),
        ensures
            self.chain().len() == cause.chain().len() + 1,
            self.chain()[0].description == self.kind.spec_description(),
            self.chain()[0].display == self.kind.spec_display(),
            self.chain()[1] == cause.head(),
            self.chain().drop_first() == cause.chain(),
    {
        self.lemma_chain_shape();
        cause.lemma_chain_shape();
    }

    /// The backtrace found first in the chain of a chained error is its own:
    /// an error made from this one takes that backtrace over and captures
    /// none.
    pub proof fn lemma_chain_carries_backtrace(self)
        ensures
            first_backtrace(self.chain()) == Some(self.backtrace),
    {
    }

    /// A linked error is reported as the error it was made from: where the
    /// kind forwards the texts of the kind it holds, and causes and
    /// backtrace are carried over, the chain and its report are the same.
    pub proof fn lemma_link_folds_into_one_line<L: Kind>(self, linked: ErrorView<L>)
        requires
            self.kind.spec_description() == linked.kind.spec_description(),
            self.kind.spec_display() == linked.kind.spec_display(),
            self.causes == linked.causes,
            self.backtrace == linked.backtrace,
        ensures
            self.chain() == linked.chain(),
            self.rendered() == linked.rendered(),
    {
    }

    /// An error with a foreign cause is reported on a line of its own, and
    /// the foreign error on the first `Caused by:` line after it.
    pub proof fn lemma_foreign_link_adds_a_line(self, foreign: Seq<Layer>)
        requires
            self.causes == foreign,
            foreign.len() >= 1,
        ensures
            self.chain().len() == foreign.len() + 1,
            self.chain()[1] == foreign[0],
            self.rendered() == "Error: "@ + self.kind.spec_display() + "\n"@ + "Caused by: "@
                + foreign[0].display + "\n"@ + caused_by_lines(foreign.drop_first())
                + backtrace_lines(self.backtrace),
    {
        self.lemma_chain_shape();
        assert(self.rendered() =~= "Error: "@ + self.kind.spec_display() + "\n"@ + "Caused by: "@
            + foreign[0].display + "\n"@ + caused_by_lines(foreign.drop_first())
            + backtrace_lines(self.backtrace));
    }

    /// The report of the whole chain: an `Error:` line for the error itself,
    /// a `Caused by:` line for each of its causes down to the root cause,
    /// and the backtrace, where there is one, on the lines after them.
    pub open spec fn rendered(self) -> Seq<char> {
        "Error: "@ + self.kind.spec_display() + "\n"@ + caused_by_lines(self.causes)
            + backtrace_lines(self.backtrace)
    }
}

/// The lines that report the causes of an error, one `Caused by:` line each.
pub open spec fn caused_by_lines(causes: Seq<Layer>) -> Seq<char>
    decreases causes.len(),
{
    if causes.len() == 0 {
        Seq::empty()
    } else {
        "Caused by: "@ + causes[0].display + "\n"@ + caused_by_lines(causes.drop_first())
    }
}

/// The lines that show a backtrace: its frames exactly as the standard
/// library formats them, or nothing where no call stack was captured.
pub open spec fn backtrace_lines(backtrace: InternalBacktrace) -> Seq<char> {
    match backtrace.snapshot() {
        Some(b) => backtrace_text(b),
        None => Seq::empty(),
    }
}

/// A chained error: a kind, an optional cause and a backtrace.  A chained
/// error can be moved to another thread.
pub trait ChainedError: Sized + Send + 'static {
    /// The kinds of error of this family.
    type ErrorKind: Kind;

    /// The error as contracts see it.
    spec fn view(&self) -> ErrorView<Self::ErrorKind>;

    /// An error made of its parts.
    fn new(kind: Self::ErrorKind, state: State) -> (e: Self)
        ensures
            e@.kind == kind,
            e@.backtrace == state.backtrace,
            e@.causes == causes_of(state.next_error),
    ;

    /// An error of kind `kind` that starts a chain.  The call stack is
    /// captured if capturing is enabled.
    fn from_kind(kind: Self::ErrorKind) -> (e: Self)
        ensures
            e@.kind == kind,
            e@.causes == Seq::<Layer>::empty(),
    ;

    /// An error of the kind that `kind` converts to, caused by `error`.  The
    /// chain keeps the backtrace that `error` or one of its causes carries;
    /// the call stack is captured anew only where none does.
    fn with_chain<E: ToError, X: Into<Self::ErrorKind>>(error: E, kind: X) -> (e: Self)
        ensures
            converts_to(kind, e@.kind),
            e@.causes == error.layers(),
            first_backtrace(error.layers()) matches Some(b) ==> e@.backtrace == b,
    ;

    /// The kind of the error.
    fn kind(&self) -> (k: &Self::ErrorKind)
        ensures
            *k == self@.kind,
    ;

    /// An iterator over the chain, which starts at the error itself.
    fn iter(&self) -> (it: Iter<'_>)
        ensures
            it@ == self@.chain(),
    ;

    /// The backtrace of the chain, or nothing if none was captured.
    fn backtrace(&self) -> (b: Option<&Backtrace>)
        ensures
            b == match self@.backtrace.snapshot() {
                Some(snapshot) => Some(&snapshot),
                None => None,
            },
            b matches Some(snapshot) ==> backtrace_captured(*snapshot),
    ;

    /// A value that renders the whole chain of the error.
    fn display_chain<'a>(&'a self) -> (d: DisplayChain<'a, Self>)
        ensures
            d@ == *self,
    {
        DisplayChain(self)
    }

    /// Puts a new error in front of the chain: its kind is what `error`
    /// returns, its cause is `self`, and its backtrace is that of `self`.
    fn chain_err<F, EK>(self, error: F) -> (e: Self)
        where
            F: FnOnce() -> EK,
            EK: Into<Self::ErrorKind>,
        requires
            error.requires(()),
        ensures
            yields(error, e@.kind),
            e@.causes == self@.chain(),
            e@.backtrace == self@.backtrace,
    ;

    /// The description of the error: that of its kind.
    fn description(&self) -> (r: &str)
        ensures
            r@ == self@.kind.spec_description(),
    ;

    /// The display of the error: that of its kind.
    fn display(&self) -> (s: String)
        ensures
            s@ == self@.kind.spec_display(),
    ;

    /// The immediate cause of the error, if it has one.
    fn cause(&self) -> (r: Option<&DynError>)
        ensures
            match r {
                Some(c) => c@ == self@.causes,
                None => self@.causes == Seq::<Layer>::empty(),
            },
    ;

    /// The first backtrace found in the chain that `e` heads.
    fn extract_backtrace(e: &DynError) -> (r: Option<InternalBacktrace>)
        ensures
            r == first_backtrace(e@),
    {
        e.extract_backtrace()
    }
}

/// Renders an error with all its causes and its backtrace.
#[derive(Debug)]
pub struct DisplayChain<'a, T>(&'a T);

impl<'a, T> View for DisplayChain<'a, T> {
    type V = T;

    closed spec fn view(&self) -> T {
        *self.0
    }
}

impl<'a, T: ChainedError> DisplayChain<'a, T> {
    /// The report of the chain, outermost error first.
    pub fn to_string(&self) -> (s: String)
        ensures
            s@ == self@.view().rendered(),
    {
        let ghost error = self@.view();
        let mut out = String::from_str("Error: ");
        let shown = self.0.display();
        out.append(shown.as_str());
        out.append("\n");
        let mut it = self.0.iter();
        let _ = it.next();
        assert(it@ =~= error.causes);
        let ghost head_line = out@;
        loop
            invariant
                out@ + caused_by_lines(it@) == head_line + caused_by_lines(error.causes),
            ensures
                out@ == head_line + caused_by_lines(error.causes),
            decreases it@.len(),
        {
            let ghost before = out@;
            let ghost rest = it@;
            match it.next() {
                Some(e) => {
                    out.append("Caused by: ");
                    out.append(e.display());
                    out.append("\n");
                    assert(out@ + caused_by_lines(it@) =~= before + caused_by_lines(rest));
                },
                None => {
                    assert(out@ + caused_by_lines(it@) =~= out@);
                    break ;
                },
            }
        }
        match self.0.backtrace() {
            Some(b) => {
                let text = render_backtrace(b);
                out.append(text.as_str());
            },
            None => {},
        }
        assert(out@ =~= error.rendered());
        out
    }
}

} // verus!
