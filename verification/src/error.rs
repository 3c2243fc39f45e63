//! The error type of a family of kinds.

use crate::backtrace::Backtrace;
use crate::chained_error::{ChainedError, ErrorView};
use crate::dyn_error::{causes_of, DynError, Layer, ToError};
use crate::iter::Iter;
use crate::kind::{converts_to, Kind};
use crate::state::State;
use vstd::prelude::*;
use vstd::std_specs::convert::FromSpecImpl;

verus! {

/// An error of the family whose kinds are `K`.
///
/// Besides its kind the error keeps itself in erased form, as the head of
/// its chain: its texts are those of its kind, and it always carries the
/// backtrace of the chain.
#[derive(Debug)]
pub struct Error<K: Kind> {
    kind: K,
    erased: DynError,
}

impl<K: Kind> Error<K> {
    #[verifier::type_invariant]
    spec fn consistent(&self) -> bool {
        &&& self.erased@.len() >= 1
        &&& self.erased@[0].description == self.kind.spec_description()
        &&& self.erased@[0].display == self.kind.spec_display()
        &&& self.erased@[0].backtrace is Some
    }

    /// Takes an error of a linked family into this family.  The kind of `e`
    /// is folded into a kind of this family; the chain gets no new entry and
    /// keeps its backtrace.
    pub fn link<L: Kind + Into<K>>(e: Error<L>) -> (r: Error<K>)
        ensures
            converts_to(e@.kind, r@.kind),
            r@.causes == e@.causes,
            r@.backtrace == e@.backtrace,
    {
        let (kind, state) = e.into_parts();
        Error::new(kind.into(), state)
    }

    /// Takes the error apart into its kind and its state.
    pub fn into_parts(self) -> (parts: (K, State))
        ensures
            parts.0 == self@.kind,
            parts.1.backtrace == self@.backtrace,
            causes_of(parts.1.next_error) == self@.causes,
    {
        proof {
            use_type_invariant(&self);
        }
        let Error { kind, erased } = self;
        let (_, _, next_error, carried) = erased.into_parts();
        assert(erased@.drop_first() =~= causes_of(next_error));
        (kind, State { next_error, backtrace: carried.unwrap() })
    }
}

impl<K: Kind> ChainedError for Error<K> {
    type ErrorKind = K;

    closed spec fn view(&self) -> ErrorView<K> {
        ErrorView {
            kind: self.kind,
            backtrace: self.erased@[0].backtrace.unwrap(),
            causes: self.erased@.drop_first(),
        }
    }

    fn new(kind: K, state: State) -> (e: Self) {
        let description = String::from_str(kind.description());
        let display = kind.display();
        let State { next_error, backtrace } = state;
        let erased = DynError::new(description, display, next_error, Some(backtrace));
        assert(erased@.drop_first() =~= causes_of(next_error));
        Error { kind, erased }
    }

    fn from_kind(kind: K) -> (e: Self) {
        Self::new(kind, State::default())
    }

    fn with_chain<E: ToError, X: Into<K>>(error: E, kind: X) -> (e: Self) {
        let state = State::new(Box::new(error.to_error()));
        Self::new(kind.into(), state)
    }

    fn kind(&self) -> (k: &K) {
        &self.kind
    }

    fn iter(&self) -> (it: Iter<'_>) {
        proof {
            use_type_invariant(self);
            assert(self.erased@ =~= self@.chain());
        }
        Iter::new(Some(&self.erased))
    }

    fn backtrace(&self) -> (b: Option<&Backtrace>) {
        proof {
            use_type_invariant(self);
        }
        self.erased.backtrace().unwrap().as_backtrace()
    }

    fn chain_err<F, EK>(self, error: F) -> (e: Self)
        where
            F: FnOnce() -> EK,
            EK: Into<K>,
    {
        proof {
            use_type_invariant(&self);
            assert(self.erased@ =~= self@.chain());
            self@.lemma_chain_carries_backtrace();
        }
        let produced = error();
        let state = State::new(Box::new(self.erased));
        let e = Self::new(produced.into(), state);
        assert(error.ensures((), produced) && converts_to(produced, e@.kind));
        e
    }

    fn description(&self) -> (r: &str) {
        proof {
            use_type_invariant(self);
        }
        self.erased.description()
    }

    fn display(&self) -> (s: String) {
        proof {
            use_type_invariant(self);
        }
        String::from_str(self.erased.display())
    }

    fn cause(&self) -> (r: Option<&DynError>) {
        let r = self.erased.cause();
        proof {
            if r is None {
                assert(self.erased@.drop_first() =~= Seq::<Layer>::empty());
            }
        }
        r
    }
}

impl<K: Kind> ToError for Error<K> {
    open spec fn layers(&self) -> Seq<Layer> {
        self@.chain()
    }

    fn to_error(self) -> (e: DynError) {
        proof {
            use_type_invariant(&self);
            assert(self.erased@ =~= self@.chain());
        }
        self.erased
    }
}

impl<K: Kind> From<K> for Error<K> {
    /// The error of kind `kind` that starts a chain.
    fn from(kind: K) -> (e: Error<K>)
        ensures
            e@.kind == kind,
            e@.causes == Seq::<Layer>::empty(),
    {
        Error::from_kind(kind)
    }
}

impl<K: Kind> FromSpecImpl<K> for Error<K> {
    /// The backtrace of the new error is decided when it is made, so no
    /// function of `kind` alone gives the error.
    open spec fn obeys_from_spec() -> bool {
        false
    }

    open spec fn from_spec(kind: K) -> Error<K> {
        arbitrary()
    }
}

impl<'a, K: Kind + From<&'a str>> From<&'a str> for Error<K> {
    /// The error that starts a chain with the kind that `message` converts to.
    fn from(message: &'a str) -> (e: Error<K>)
        ensures
            call_ensures(K::from, (message,), e@.kind),
            e@.causes == Seq::<Layer>::empty(),
    {
        Error::from_kind(K::from(message))
    }
}

impl<'a, K: Kind + From<&'a str>> FromSpecImpl<&'a str> for Error<K> {
    /// The backtrace of the new error is decided when it is made, so no
    /// function of `message` alone gives the error.
    open spec fn obeys_from_spec() -> bool {
        false
    }

    open spec fn from_spec(message: &'a str) -> Error<K> {
        arbitrary()
    }
}

impl<K: Kind + From<String>> From<String> for Error<K> {
    /// The error that starts a chain with the kind that `message` converts to.
    fn from(message: String) -> (e: Error<K>)
        ensures
            call_ensures(K::from, (message,), e@.kind),
            e@.causes == Seq::<Layer>::empty(),
    {
        Error::from_kind(K::from(message))
    }
}

impl<K: Kind + From<String>> FromSpecImpl<String> for Error<K> {
    /// The backtrace of the new error is decided when it is made, so no
    /// function of `message` alone gives the error.
    open spec fn obeys_from_spec() -> bool {
        false
    }

    open spec fn from_spec(message: String) -> Error<K> {
        arbitrary()
    }
}

} // verus!
