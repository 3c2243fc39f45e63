use error_chain::example;
use error_chain::mock;
use error_chain::{ChainedError, Kind};

#[test]
fn message_kind_shows_its_message() {
    let kind = mock::ErrorKind::Msg("plain".to_string());
    assert_eq!(kind.description(), "plain");
    assert_eq!(kind.display(), "plain");
}

#[test]
fn kinds_of_the_example_family() {
    assert_eq!(example::ErrorKind::Msg("m".to_string()).description(), "m");
    assert_eq!(example::ErrorKind::Msg("m".to_string()).display(), "m");
    assert_eq!(example::ErrorKind::ParseInt.description(), "number not parsed");
    assert_eq!(example::ErrorKind::ParseInt.display(), "number not parsed");
    assert_eq!(example::ErrorKind::Custom.description(), "Custom");
    assert_eq!(example::ErrorKind::Custom.display(), "Custom");
    let invalid = example::ErrorKind::InvalidToolchainName("xyzzy".to_string());
    assert_eq!(invalid.description(), "invalid toolchain name");
    assert_eq!(invalid.display(), "invalid toolchain name: 'xyzzy'");
    let empty = example::ErrorKind::InvalidToolchainName(String::new());
    assert_eq!(empty.display(), "invalid toolchain name: ''");
}

#[test]
fn linked_kind_forwards_to_the_kind_it_holds() {
    let kind = example::ErrorKind::Mock(mock::ErrorKind::Msg("inner".to_string()));
    assert_eq!(kind.description(), "inner");
    assert_eq!(kind.display(), "inner");
}

#[test]
fn kinds_come_from_messages() {
    assert_eq!(mock::ErrorKind::from("text"), mock::ErrorKind::Msg("text".to_string()));
    assert_eq!(
        mock::ErrorKind::from("owned".to_string()),
        mock::ErrorKind::Msg("owned".to_string())
    );
    assert_eq!(example::ErrorKind::from("text"), example::ErrorKind::Msg("text".to_string()));
    assert_eq!(
        example::ErrorKind::from("owned".to_string()),
        example::ErrorKind::Msg("owned".to_string())
    );
}

#[test]
fn linked_kind_holds_the_other_kind_unchanged() {
    let inner = mock::ErrorKind::Msg("payload".to_string());
    assert_eq!(
        example::ErrorKind::from(inner),
        example::ErrorKind::Mock(mock::ErrorKind::Msg("payload".to_string()))
    );
}

#[test]
fn errors_come_from_kinds_and_messages() {
    let from_kind = mock::Error::from(mock::ErrorKind::Msg("k".to_string()));
    assert_eq!(from_kind.kind(), &mock::ErrorKind::Msg("k".to_string()));
    let from_str = mock::Error::from("s");
    assert_eq!(from_str.kind(), &mock::ErrorKind::Msg("s".to_string()));
    let from_string = example::Error::from("o".to_string());
    assert_eq!(from_string.kind(), &example::ErrorKind::Msg("o".to_string()));
    assert_eq!(from_string.iter().count(), 1);
}

#[test]
fn kinds_are_matched_by_pattern() {
    let e = example::Error::from(mock::Error::from("deep"));
    match e.kind() {
        example::ErrorKind::Mock(mock::ErrorKind::Msg(m)) => assert_eq!(m, "deep"),
        _ => panic!("a linked kind was expected"),
    }
}
