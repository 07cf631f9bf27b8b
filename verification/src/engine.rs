use vstd::prelude::*;

verus! {

/// One request to the container engine. The supervisor decides which request
/// comes next; whoever holds the connection performs it.
#[derive(Debug, Clone, PartialEq, Eq)]
pub enum EngineRequest {
    /// Open a connection to the engine over its default local socket.
    Connect,
    /// Make the image present locally, pulling it where it is absent.
    PullImage { image: String },
    /// Create a container under `name` from `image`, running `command`, with
    /// the host directory `mount_source` bound at `mount_target`.
    CreateContainer {
        name: String,
        image: String,
        command: Vec<String>,
        attach_stdout: bool,
        mount_source: String,
        mount_target: String,
    },
    /// Start the container `name`.
    StartContainer { name: String },
    /// Attach to the output of the container `name`.
    AttachContainer { name: String, stdout: bool, stderr: bool, stream: bool },
    /// Stop the container `name`, under the engine's own shutdown policy.
    StopContainer { name: String },
    /// Create an exec session that runs `command` inside the container `name`.
    CreateExec { name: String, command: Vec<String>, attach_stdout: bool, attach_stderr: bool },
    /// Start the exec session that was just created.
    StartExec,
    /// Read one chunk from the output of the exec session that was just started.
    ReadChunk,
    /// Remove the container `name`; with `force`, whether it runs or not.
    RemoveContainer { name: String, force: bool },
}

/// The mathematical content of an `EngineRequest`.
pub enum RequestView {
    Connect,
    PullImage { image: Seq<char> },
    CreateContainer {
        name: Seq<char>,
        image: Seq<char>,
        command: Seq<Seq<char>>,
        attach_stdout: bool,
        mount_source: Seq<char>,
        mount_target: Seq<char>,
    },
    StartContainer { name: Seq<char> },
    AttachContainer { name: Seq<char>, stdout: bool, stderr: bool, stream: bool },
    StopContainer { name: Seq<char> },
    CreateExec {
        name: Seq<char>,
        command: Seq<Seq<char>>,
        attach_stdout: bool,
        attach_stderr: bool,
    },
    StartExec,
    ReadChunk,
    RemoveContainer { name: Seq<char>, force: bool },
}

/// The texts of a command line, word by word.
pub open spec fn words(command: Seq<String>) -> Seq<Seq<char>> {
    Seq::new(command.len(), |i: int| command[i]@)
}

impl View for EngineRequest {
    type V = RequestView;

    open spec fn view(&self) -> RequestView {
        match *self {
            EngineRequest::Connect => RequestView::Connect,
            EngineRequest::PullImage { image } => RequestView::PullImage { image: image@ },
            EngineRequest::CreateContainer {
                name,
                image,
                command,
                attach_stdout,
                mount_source,
                mount_target,
            } => RequestView::CreateContainer {
                name: name@,
                image: image@,
                command: words(command@),
                attach_stdout,
                mount_source: mount_source@,
                mount_target: mount_target@,
            },
            EngineRequest::StartContainer { name } => RequestView::StartContainer { name: name@ },
            EngineRequest::AttachContainer {
                name,
                stdout,
                stderr,
                stream,
            } => RequestView::AttachContainer { name: name@, stdout, stderr, stream },
            EngineRequest::StopContainer { name } => RequestView::StopContainer { name: name@ },
            EngineRequest::CreateExec {
                name,
                command,
                attach_stdout,
                attach_stderr,
            } => RequestView::CreateExec {
                name: name@,
                command: words(command@),
                attach_stdout,
                attach_stderr,
            },
            EngineRequest::StartExec => RequestView::StartExec,
            EngineRequest::ReadChunk => RequestView::ReadChunk,
            EngineRequest::RemoveContainer { name, force } => RequestView::RemoveContainer {
                name: name@,
                force,
            },
        }
    }
}

/// What came of a request.
#[derive(Debug, Clone, PartialEq, Eq)]
pub enum EngineReply {
    /// The request was fulfilled and there is nothing more to say.
    Done,
    /// The request was fulfilled and an output stream is attached.
    Attached,
    /// The exec session runs, but without an attached output stream.
    Detached,
    /// One chunk of output, as text.
    Chunk(String),
    /// The output stream ended before it gave a chunk.
    EndOfStream,
    /// The transport or the engine failed; the text is the underlying cause.
    Failed(String),
}

} // verus!
