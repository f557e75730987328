use undertone::client::looks_like_dead_connection;
use undertone::messages::ErrorInfo;

#[test]
fn test_error_info_new() {
    let error = ErrorInfo::new(500, "Internal server error");
    assert_eq!(error.code, 500);
    assert_eq!(error.message, "Internal server error");
}

#[test]
fn dead_connection_errors_are_recognised() {
    assert!(looks_like_dead_connection("ipc error: Broken pipe (os error 32)"));
    assert!(looks_like_dead_connection("daemon not connected — call connect_daemon first"));
    assert!(looks_like_dead_connection("No such file or directory"));
    assert!(!looks_like_dead_connection("daemon error 404: Channel not found: x"));
    assert!(!looks_like_dead_connection("broken pipe"));
}
