use node_runner::error::NodeRunnerError;

#[test]
fn messages_name_the_failure_and_its_cause() {
    assert_eq!(
        NodeRunnerError::EngineUnavailable("no socket".to_string()).message(),
        "Engine unavailable: no socket"
    );
    assert_eq!(
        NodeRunnerError::EngineOperationFailed("No such container".to_string()).message(),
        "Engine operation failed: No such container"
    );
    assert_eq!(NodeRunnerError::ExecNotAttached.message(), "Exec not attached");
    assert_eq!(NodeRunnerError::MalformedOutput.message(), "Malformed output");
    assert_eq!(
        NodeRunnerError::FilesystemError("not a directory".to_string()).message(),
        "Filesystem operation failed: not a directory"
    );
    assert_eq!(
        NodeRunnerError::SerializationError("eof".to_string()).message(),
        "Serialization error: eof"
    );
}
