use error_chain::mock::{Error, ErrorKind};
use error_chain::propagate::{bail, ensure};
use error_chain::{example, ChainedError};

fn checked(n: i32, steps: &mut Vec<&'static str>) -> Result<i32, Error> {
    steps.push("start");
    ensure::<Error, _>(n >= 0, "negative")?;
    steps.push("after ensure");
    if n == 42 {
        return bail(format!("bad {}", n));
    }
    steps.push("end");
    Ok(n + 1)
}

#[test]
fn bail_returns_the_error_at_once() {
    let mut steps = Vec::new();
    let e = checked(42, &mut steps).unwrap_err();
    assert_eq!(e.display(), "bad 42");
    assert_eq!(e.kind(), &ErrorKind::Msg("bad 42".to_string()));
    assert_eq!(steps, vec!["start", "after ensure"]);
}

#[test]
fn bail_takes_a_kind() {
    let r: Result<(), example::Error> = bail(example::ErrorKind::Custom);
    assert_eq!(r.unwrap_err().kind(), &example::ErrorKind::Custom);
}

#[test]
fn bail_takes_a_linked_error() {
    let r: Result<u8, example::Error> = bail(Error::from("inner"));
    let e = r.unwrap_err();
    assert_eq!(e.kind(), &example::ErrorKind::Mock(ErrorKind::Msg("inner".to_string())));
}

#[test]
fn ensure_false_is_bail() {
    let ensured: Result<(), Error> = ensure(false, "x");
    let bailed: Result<(), Error> = bail("x");
    let a = ensured.unwrap_err();
    let b = bailed.unwrap_err();
    assert_eq!(a.kind(), b.kind());
    assert_eq!(a.display(), "x");
    assert_eq!(a.iter().count(), b.iter().count());
    let mut steps = Vec::new();
    let e = checked(-1, &mut steps).unwrap_err();
    assert_eq!(e.display(), "negative");
    assert_eq!(steps, vec!["start"]);
}

#[test]
fn ensure_true_goes_on() {
    let ensured: Result<(), Error> = ensure(true, "x");
    assert!(ensured.is_ok());
    let mut steps = Vec::new();
    assert_eq!(checked(1, &mut steps).unwrap(), 2);
    assert_eq!(steps, vec!["start", "after ensure", "end"]);
}
