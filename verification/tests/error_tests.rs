use dav_sidecar::errors::CommandError;

#[test]
fn test_mount_command_error_variants() {
    // The different command error kinds carry their kind in the message
    let gio_error = CommandError::GioError("Test GIO error".to_string());
    let error_str = gio_error.message();
    assert!(error_str.contains("GIO error"));
}

#[test]
fn test_command_error_serialization() {
    // The error payload sent to a client carries both the stable code and
    // the human message
    let err = CommandError::SidecarAlreadyRunning;

    assert!(err.code().contains("SIDECAR_ALREADY_RUNNING"));
    assert!(err.message().contains("already running"));
}

#[test]
fn test_command_error_codes_exhaustive() {
    let errors = vec![
        CommandError::SidecarAlreadyRunning,
        CommandError::SidecarNotRunning,
        CommandError::SidecarSpawnFailed("test".to_string()),
        CommandError::InvalidPort("test".to_string()),
        CommandError::PortInUse(8080),
        CommandError::AuthFailed("test".to_string()),
        CommandError::ServerInitTimeout,
        CommandError::MountTimeout,
        CommandError::ServerNotRunning,
        CommandError::GioError("test".to_string()),
        CommandError::IoError("test".to_string()),
    ];

    // Each error has a non-empty error code
    for err in errors {
        let code = err.code();
        assert!(!code.is_empty(), "Error {:?} should have a code", err);
        // Codes are SCREAMING_SNAKE_CASE
        assert!(
            code.chars().all(|c| c.is_ascii_uppercase() || c == '_'),
            "Error code {} should be SCREAMING_SNAKE_CASE",
            code
        );
    }
}

#[test]
fn test_command_error_detail_messages() {
    assert_eq!(
        CommandError::SidecarSpawnFailed("no binary".to_string()).message(),
        "Failed to spawn sidecar: no binary"
    );
    assert_eq!(
        CommandError::SidecarCommandFailed("exit 1".to_string()).message(),
        "Sidecar command failed: exit 1"
    );
    assert_eq!(CommandError::PortInUse(8080).message(), "Port already in use: 8080");
    assert_eq!(
        CommandError::AuthFailed("bad credentials".to_string()).message(),
        "Authentication failed: bad credentials"
    );
    assert_eq!(CommandError::MountTimeout.message(), "Mount operation timeout");
    assert_eq!(
        CommandError::Unknown("x".to_string()).message(),
        "Unknown error: x"
    );
}

#[test]
fn test_command_error_codes_values() {
    assert_eq!(CommandError::SidecarNotRunning.code(), "SIDECAR_NOT_RUNNING");
    assert_eq!(CommandError::InvalidPort("p".to_string()).code(), "INVALID_PORT");
    assert_eq!(CommandError::InvalidEmail("e".to_string()).code(), "INVALID_EMAIL");
    assert_eq!(CommandError::ServerInitTimeout.code(), "SERVER_INIT_TIMEOUT");
    assert_eq!(CommandError::ServerNotRunning.code(), "SERVER_NOT_RUNNING");
    assert_eq!(CommandError::IoError("i".to_string()).code(), "IO_ERROR");
    assert_eq!(CommandError::Unknown("u".to_string()).code(), "UNKNOWN_ERROR");
}
