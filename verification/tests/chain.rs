use error_chain::example;
use error_chain::mock::{Error, ErrorKind};
use error_chain::{ChainedError, DynError, InternalBacktrace, Iter, State, ToError};

fn quiet(message: &str) -> Error {
    Error::new(
        ErrorKind::Msg(message.to_string()),
        State { next_error: None, backtrace: InternalBacktrace::none() },
    )
}

fn foreign(description: &str, display: &str, cause: Option<DynError>) -> DynError {
    DynError::new(description.to_string(), display.to_string(), cause.map(Box::new), None)
}

#[test]
fn from_kind_keeps_the_kind() {
    let e = Error::from_kind(ErrorKind::Msg("boom".to_string()));
    assert_eq!(e.kind(), &ErrorKind::Msg("boom".to_string()));
    assert!(e.cause().is_none());
    assert_eq!(e.iter().count(), 1);
}

#[test]
fn from_kind_keeps_a_kind_with_payload() {
    let kind = example::ErrorKind::InvalidToolchainName("nightly-x".to_string());
    let e = example::Error::from_kind(kind);
    assert_eq!(e.kind(), &example::ErrorKind::InvalidToolchainName("nightly-x".to_string()));
    assert_eq!(e.description(), "invalid toolchain name");
    assert_eq!(e.display(), "invalid toolchain name: 'nightly-x'");
}

#[test]
fn new_takes_the_parts_as_they_are() {
    let cause = foreign("disk", "disk full", None);
    let e = Error::new(
        ErrorKind::Msg("save failed".to_string()),
        State { next_error: Some(Box::new(cause)), backtrace: InternalBacktrace::none() },
    );
    assert_eq!(e.kind(), &ErrorKind::Msg("save failed".to_string()));
    assert!(e.backtrace().is_none());
    assert_eq!(e.cause().unwrap().display(), "disk full");
    assert_eq!(e.iter().count(), 2);
}

#[test]
fn chain_err_puts_the_new_kind_first() {
    let e = quiet("inner");
    let chained = e.chain_err(|| ErrorKind::Msg("outer".to_string()));
    assert_eq!(chained.kind(), &ErrorKind::Msg("outer".to_string()));
    let mut it = chained.iter();
    let first = it.next().unwrap();
    assert_eq!(first.description(), "outer");
    assert_eq!(first.display(), "outer");
    let second = it.next().unwrap();
    assert_eq!(second.description(), "inner");
    assert_eq!(second.display(), "inner");
    assert!(it.next().is_none());
}

#[test]
fn chain_err_converts_what_the_closure_returns() {
    let context = 7;
    let chained = quiet("inner").chain_err(|| format!("step {} failed", context));
    assert_eq!(chained.kind(), &ErrorKind::Msg("step 7 failed".to_string()));
    let again = chained.chain_err(|| "giving up");
    assert_eq!(again.display(), "giving up");
    assert_eq!(again.iter().count(), 3);
    assert_eq!(again.iter().nth(2).unwrap().display(), "inner");
}

#[test]
fn with_chain_keeps_the_whole_chain_of_the_cause() {
    let root = foreign("root", "root cause", None);
    let middle = foreign("middle", "middle layer", Some(root));
    let e = Error::with_chain(middle, "top");
    assert_eq!(e.display(), "top");
    let mut it = e.iter();
    assert_eq!(it.next().unwrap().display(), "top");
    assert_eq!(it.next().unwrap().display(), "middle layer");
    assert_eq!(it.next().unwrap().description(), "root");
    assert!(it.next().is_none());
    assert!(it.next().is_none());
}

#[test]
fn with_chain_takes_a_kind_as_it_is() {
    let e = example::Error::with_chain(foreign("f", "f", None), example::ErrorKind::Custom);
    assert_eq!(e.kind(), &example::ErrorKind::Custom);
    assert_eq!(e.description(), "Custom");
}

#[test]
fn with_chain_takes_a_boxed_cause() {
    let boxed = Box::new(foreign("boxed", "boxed cause", None));
    let e = Error::with_chain(boxed, "top");
    assert_eq!(e.cause().unwrap().display(), "boxed cause");
}

#[test]
fn foreign_error_becomes_the_cause() {
    let parse_error = "xyzzy".parse::<i32>().unwrap_err();
    let text = parse_error.to_string();
    let e = example::Error::from(parse_error);
    assert_eq!(e.kind(), &example::ErrorKind::ParseInt);
    assert_eq!(e.iter().count(), 2);
    assert_eq!(e.description(), "number not parsed");
    assert_ne!(e.description(), text);
    assert_eq!(e.iter().nth(1).unwrap().description(), text);
    assert_eq!(e.iter().nth(1).unwrap().display(), "invalid digit found in string");
}

#[test]
fn linked_error_adds_no_entry() {
    let inner = quiet("no such file");
    let e = example::Error::from(inner);
    assert_eq!(e.iter().count(), 1);
    assert!(e.cause().is_none());
    assert_eq!(e.display(), "no such file");
    assert_eq!(e.description(), "no such file");
    assert_eq!(e.kind(), &example::ErrorKind::Mock(ErrorKind::Msg("no such file".to_string())));
}

#[test]
fn linked_error_keeps_its_causes() {
    let inner = quiet("root").chain_err(|| "middle");
    let e = example::Error::from(inner);
    assert_eq!(e.iter().count(), 2);
    assert_eq!(e.display(), "middle");
    assert_eq!(e.cause().unwrap().display(), "root");
    assert!(e.backtrace().is_none());
}

#[test]
fn to_error_heads_the_same_chain() {
    let e = quiet("root").chain_err(|| "top");
    let erased = e.to_error();
    assert_eq!(erased.description(), "top");
    assert_eq!(erased.display(), "top");
    assert_eq!(erased.cause().unwrap().display(), "root");
    assert!(erased.backtrace().unwrap().is_none());
    let same = erased.to_error();
    assert_eq!(same.display(), "top");
}

#[test]
fn into_parts_gives_kind_and_state_back() {
    let e = quiet("root").chain_err(|| "top");
    let (kind, state) = e.into_parts();
    assert_eq!(kind, ErrorKind::Msg("top".to_string()));
    assert_eq!(state.next_error.unwrap().display(), "root");
    assert!(state.backtrace.is_none());
}

#[test]
fn dyn_error_comes_apart_as_it_was_made() {
    let e = foreign("d", "shown", Some(foreign("c", "cause", None)));
    let (description, display, cause, backtrace) = e.into_parts();
    assert_eq!(description, "d");
    assert_eq!(display, "shown");
    assert_eq!(cause.unwrap().display(), "cause");
    assert!(backtrace.is_none());
}

#[test]
fn iter_over_nothing_is_empty() {
    let mut it = Iter::new(None);
    assert!(it.next().is_none());
    assert!(it.next().is_none());
    assert_eq!(Iter::new(None).count(), 0);
    assert!(Iter::new(None).nth(0).is_none());
}

#[test]
fn iter_starts_at_the_error_given() {
    let e = foreign("a", "a", Some(foreign("b", "b", Some(foreign("c", "c", None)))));
    let mut it = Iter::new(Some(&e));
    assert_eq!(it.next().unwrap().display(), "a");
    assert_eq!(it.next().unwrap().display(), "b");
    assert_eq!(it.next().unwrap().display(), "c");
    assert!(it.next().is_none());
    assert_eq!(Iter::new(Some(&e)).count(), 3);
    assert_eq!(Iter::new(e.cause()).count(), 2);
}

#[test]
fn nth_skips_and_moves_on() {
    let e = foreign("a", "a", Some(foreign("b", "b", Some(foreign("c", "c", None)))));
    let mut it = Iter::new(Some(&e));
    assert_eq!(it.nth(1).unwrap().display(), "b");
    assert_eq!(it.next().unwrap().display(), "c");
    assert!(it.next().is_none());
    let mut it = Iter::new(Some(&e));
    assert_eq!(it.nth(0).unwrap().display(), "a");
    assert_eq!(it.nth(1).unwrap().display(), "c");
    let mut it = Iter::new(Some(&e));
    assert!(it.nth(3).is_none());
    assert!(it.next().is_none());
}

#[test]
fn state_default_has_no_cause() {
    let state = State::default();
    assert!(state.next_error.is_none());
}

#[test]
fn state_new_keeps_the_cause() {
    let state = State::new(Box::new(foreign("d", "cause", None)));
    assert_eq!(state.next_error.unwrap().display(), "cause");
}

#[test]
fn errors_can_move_to_another_thread() {
    fn movable<T: Send + 'static>(_: &T) {}
    movable(&quiet("x"));
    movable(&example::Error::from_kind(example::ErrorKind::Custom));
    movable(&foreign("d", "d", None));
}
