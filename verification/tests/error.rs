use depsync::error::{ErrorKind, SyncError};

#[test]
fn message_names_the_category() {
    let cases = [
        (ErrorKind::ConfigError, "ConfigError: x"),
        (ErrorKind::ManifestError, "ManifestError: x"),
        (ErrorKind::ResolutionError, "ResolutionError: x"),
        (ErrorKind::AuthError, "AuthError: x"),
        (ErrorKind::BackendError, "BackendError: x"),
        (ErrorKind::EnvironmentError, "EnvironmentError: x"),
    ];
    for (kind, line) in cases {
        assert_eq!(SyncError::new(kind, "x").message(), line);
    }
}

#[test]
fn error_keeps_kind_and_detail() {
    let error = SyncError::new(ErrorKind::ConfigError, "home directory unknown");
    assert_eq!(error.kind, ErrorKind::ConfigError);
    assert_eq!(error.detail, "home directory unknown");
    assert_eq!(error.clone(), error);
    assert_eq!(SyncError::new(ErrorKind::AuthError, "").message(), "AuthError: ");
}
