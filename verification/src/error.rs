use vstd::prelude::*;

verus! {

/// Why an operation of the supervisor failed.
///
/// The variants that stem from the engine carry the underlying cause as text.
#[derive(Debug, Clone, PartialEq, Eq)]
pub enum NodeRunnerError {
    /// The transport to the container engine could not be reached.
    EngineUnavailable(String),
    /// The engine rejected or failed a request.
    EngineOperationFailed(String),
    /// An exec session did not yield an attached output stream.
    ExecNotAttached,
    /// The diagnostic output is not one JSON-encoded integer.
    MalformedOutput,
    /// A local path could not be used.
    FilesystemError(String),
    /// A payload could not be encoded or decoded.
    SerializationError(String),
}

impl NodeRunnerError {
    /// The text that describes the error to a user.
    pub open spec fn message_text(self) -> Seq<char> {
        match self {
            NodeRunnerError::EngineUnavailable(cause) => "Engine unavailable: "@ + cause@,
            NodeRunnerError::EngineOperationFailed(cause) => "Engine operation failed: "@ + cause@,
            NodeRunnerError::ExecNotAttached => "Exec not attached"@,
            NodeRunnerError::MalformedOutput => "Malformed output"@,
            NodeRunnerError::FilesystemError(cause) => "Filesystem operation failed: "@ + cause@,
            NodeRunnerError::SerializationError(cause) => "Serialization error: "@ + cause@,
        }
    }

    /// Renders the error for display.
    pub fn message(&self) -> (text: String)
        ensures
            text@ == self.message_text(),
    {
        match self {
            NodeRunnerError::EngineUnavailable(cause) => {
                String::from_str("Engine unavailable: ").concat(cause.as_str())
            },
            NodeRunnerError::EngineOperationFailed(cause) => {
                String::from_str("Engine operation failed: ").concat(cause.as_str())
            },
            NodeRunnerError::ExecNotAttached => String::from_str("Exec not attached"),
            NodeRunnerError::MalformedOutput => String::from_str("Malformed output"),
            NodeRunnerError::FilesystemError(cause) => {
                String::from_str("Filesystem operation failed: ").concat(cause.as_str())
            },
            NodeRunnerError::SerializationError(cause) => {
                String::from_str("Serialization error: ").concat(cause.as_str())
            },
        }
    }
}

} // verus!
