//! The kinds of error of a family, and the conversions into them.

use vstd::prelude::*;

verus! {

/// What every enumeration of error kinds provides: for each kind a short
/// description and a full display.  A kind is plain data, which can be moved
/// to another thread.
pub trait Kind: Sized + Send + 'static {
    /// The short phrase that classifies errors of this kind.
    spec fn spec_description(&self) -> Seq<char>;

    /// The sentence that reports an error of this kind.
    spec fn spec_display(&self) -> Seq<char>;

    /// The short phrase that classifies errors of this kind.
    fn description(&self) -> (r: &str)
        ensures
            r@ == self.spec_description(),
    ;

    /// The sentence that reports an error of this kind.
    fn display(&self) -> (s: String)
        ensures
            s@ == self.spec_display(),
    ;
}

/// `From<T> for T`, the conversion of a value into its own type, which the
/// standard library documents to return its argument unchanged.
pub assume_specification<Same>[ <Same as std::convert::From<Same>>::from ](value: Same) -> (r: Same)
    ensures
        r == value,
;

/// Whether converting `source` can give `kind`.
pub open spec fn converts_to<X: Into<K>, K>(source: X, kind: K) -> bool {
    call_ensures(<X as Into<K>>::into, (source,), kind)
}

/// Whether calling `make` and converting what it returns can give `kind`.
pub open spec fn yields<F, EK, K>(make: F, kind: K) -> bool
    where
        F: FnOnce() -> EK,
        EK: Into<K>,
{
    exists|produced: EK| make.ensures((), produced) && converts_to(produced, kind)
}

} // verus!
