use wire_handshake::error::{Error, ErrorKind};

#[test]
fn error_carries_its_kind_and_message() {
    let kinds = vec![
        ErrorKind::IncompatibleServer { message: "a".to_string() },
        ErrorKind::Authentication { message: "b".to_string() },
        ErrorKind::InvalidArgument { message: "c".to_string() },
        ErrorKind::Io { message: "d".to_string() },
        ErrorKind::Command { code: 11, message: "e".to_string() },
    ];
    let messages = vec!["a", "b", "c", "d", "e"];
    for (kind, message) in kinds.into_iter().zip(messages) {
        let error = Error::new(kind.clone());
        assert_eq!(error.kind, kind);
        assert_eq!(error.message(), message);
        assert_eq!(error.clone(), error);
        assert_eq!(Error::from(kind.clone()), error);
    }
}
