use ip_kvm::error::{DeserializedError, Error, ErrorKind};

#[test]
fn io_error_keeps_cause_and_place() {
    let cause = std::io::Error::new(std::io::ErrorKind::NotFound, "gone");
    match ErrorKind::io(cause, "/dev/hidg0") {
        ErrorKind::Io { source, process_info, .. } => {
            assert_eq!(source.kind(), std::io::ErrorKind::NotFound);
            assert_eq!(process_info, "/dev/hidg0");
        }
        other => panic!("unexpected kind {:?}", other),
    }
}

#[test]
fn custom_error_keeps_message() {
    match ErrorKind::custom("no controller".to_string()) {
        ErrorKind::Custom { msg, .. } => assert_eq!(msg, "no controller"),
        other => panic!("unexpected kind {:?}", other),
    }
}

#[test]
fn error_is_made_from_kind() {
    let err = Error::from(ErrorKind::Ignore);
    assert!(matches!(err.kind(), ErrorKind::Ignore));
    assert!(matches!(*err.0, ErrorKind::Ignore));
}

#[test]
fn deserialized_error_is_made_from_parse_error() {
    let cause = "x".parse::<u8>().unwrap_err();
    let err = DeserializedError::from(cause.clone());
    match err {
        DeserializedError::ParseInt(inner) => assert_eq!(inner, cause),
        other => panic!("unexpected error {:?}", other),
    }
    let kind = ErrorKind::from(DeserializedError::Custom("bad".to_string()));
    assert!(matches!(kind, ErrorKind::Deserialized(DeserializedError::Custom(ref m)) if m == "bad"));
}

#[test]
fn deserialized_custom_holds_message() {
    let err = Error::deserialized_custom("what".to_string());
    assert!(matches!(
        err.kind(),
        ErrorKind::Deserialized(DeserializedError::Custom(m)) if m == "what"
    ));
}
