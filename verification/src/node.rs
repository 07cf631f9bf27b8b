use crate::engine::{words, EngineReply, EngineRequest, RequestView};
use crate::error::NodeRunnerError;
use crate::output::{block_count_from_output, block_count_of, json_integer};
use vstd::prelude::*;

verus! {

/// The image that the supervisor runs unless told otherwise.
pub const DEFI_IMAGE: &'static str = "defi/defichain:latest";

/// Where a log record came from.
#[derive(Debug, Clone, Copy, PartialEq, Eq)]
pub enum LogSource {
    StdErr,
    StdOut,
    StdIn,
    Console,
}

/// One record of a container's output.
#[derive(Debug, Clone, PartialEq, Eq)]
pub struct LogRecord {
    pub source: LogSource,
    pub message: Vec<u8>,
}

/// What the attached stream gave when it was asked for its next item.
#[derive(Debug, Clone, PartialEq, Eq)]
pub enum StreamEvent {
    /// A record arrived.
    Record(LogRecord),
    /// The stream failed; the text is the underlying cause.
    Failed(String),
    /// The underlying connection closed.
    Closed,
}

/// The handle to an open attach session. It hands records on until the
/// session closes, and cannot be reopened.
#[derive(Debug, PartialEq, Eq)]
pub struct LogListener {
    open: bool,
}

impl LogListener {
    /// Whether the session can still give records.
    pub closed spec fn is_open(&self) -> bool {
        self.open
    }

    /// Whether the session can still give records.
    pub fn still_open(&self) -> (open: bool)
        ensures
            open == self.is_open(),
    {
        self.open
    }

    /// What the listener hands out for `event` while `open` says whether the
    /// session was open before it.
    pub open spec fn item_for(open: bool, event: StreamEvent) -> Option<
        Result<LogRecord, NodeRunnerError>,
    > {
        if !open {
            None
        } else {
            match event {
                StreamEvent::Record(record) => Some(Ok(record)),
                StreamEvent::Failed(cause) => Some(
                    Err(NodeRunnerError::EngineOperationFailed(cause)),
                ),
                StreamEvent::Closed => None,
            }
        }
    }

    /// Takes what the attached stream gave and returns the next item of the
    /// log: a record, a failure of the engine with its cause, or `None` once
    /// the session has closed. A closed session stays closed.
    pub fn next(&mut self, event: StreamEvent) -> (item: Option<
        Result<LogRecord, NodeRunnerError>,
    >)
        ensures
            item == Self::item_for(old(self).is_open(), event),
            final(self).is_open() == (old(self).is_open() && !(event is Closed)),
    {
        if !self.open {
            return None;
        }
        match event {
            StreamEvent::Record(record) => Some(Ok(record)),
            StreamEvent::Failed(cause) => Some(Err(NodeRunnerError::EngineOperationFailed(cause))),
            StreamEvent::Closed => {
                self.open = false;
                None
            },
        }
    }
}

/// The four operations of the supervisor.
#[derive(Debug, Clone, Copy, PartialEq, Eq, Structural)]
pub enum Operation {
    Start,
    Stop,
    GetBlockCount,
    Remove,
}

/// How many requests an operation puts to the engine when none fails.
pub open spec fn script_len(operation: Operation) -> int {
    match operation {
        Operation::Start => 5,
        Operation::Stop => 2,
        Operation::GetBlockCount => 4,
        Operation::Remove => 2,
    }
}

/// The mathematical content of a `DefiNode`.
pub struct NodeView {
    pub image: Seq<char>,
    pub cname: Seq<char>,
    pub datadir: Seq<char>,
}

/// The request that stands at `position` in the script of `operation` on `node`.
///
/// Every operation opens a connection of its own first. Starting then makes
/// the image present, creates the container with the data directory bound at
/// `/data`, starts it and attaches to its output. Querying the height creates
/// an exec session for the diagnostic command, starts it and reads one chunk.
/// Removal is forced and does not look first whether the container exists.
pub open spec fn script_request(node: NodeView, operation: Operation, position: int) -> RequestView {
    if position == 0 {
        RequestView::Connect
    } else {
        match operation {
            Operation::Start => if position == 1 {
                RequestView::PullImage { image: node.image }
            } else if position == 2 {
                RequestView::CreateContainer {
                    name: node.cname,
                    image: node.image,
                    command: seq!["defid"@],
                    attach_stdout: true,
                    mount_source: node.datadir,
                    mount_target: "/data"@,
                }
            } else if position == 3 {
                RequestView::StartContainer { name: node.cname }
            } else {
                RequestView::AttachContainer {
                    name: node.cname,
                    stdout: true,
                    stderr: true,
                    stream: true,
                }
            },
            Operation::Stop => RequestView::StopContainer { name: node.cname },
            Operation::GetBlockCount => if position == 1 {
                RequestView::CreateExec {
                    name: node.cname,
                    command: seq!["defi-cli"@, "getblockcount"@],
                    attach_stdout: true,
                    attach_stderr: true,
                }
            } else if position == 2 {
                RequestView::StartExec
            } else {
                RequestView::ReadChunk
            },
            Operation::Remove => RequestView::RemoveContainer { name: node.cname, force: true },
        }
    }
}

/// The requests of `operation` on `node`, in the order in which they are put.
pub open spec fn script(node: NodeView, operation: Operation) -> Seq<RequestView> {
    Seq::new(script_len(operation) as nat, |position: int| script_request(node, operation, position))
}

/// An operation under way: which one, and which request of its script is
/// out at the engine.
#[derive(Debug, Clone, Copy, PartialEq, Eq)]
pub struct Session {
    operation: Operation,
    position: usize,
}

impl Session {
    /// The operation under way.
    pub closed spec fn operation(self) -> Operation {
        self.operation
    }

    /// The place in the script of the request that is out at the engine.
    pub closed spec fn position(self) -> int {
        self.position as int
    }

    #[verifier::type_invariant]
    spec fn in_script(self) -> bool {
        self.position < script_len(self.operation)
    }

    /// The operation under way.
    pub fn kind(&self) -> (operation: Operation)
        ensures
            operation == self.operation(),
    {
        self.operation
    }

    /// The place in the script of the request that is out at the engine,
    /// counted from zero.
    pub fn place(&self) -> (position: usize)
        ensures
            position == self.position(),
            position < script_len(self.operation()),
    {
        proof {
            use_type_invariant(self);
        }
        self.position
    }
}

/// What an operation gives when it succeeds.
#[derive(Debug, PartialEq, Eq)]
pub enum Outcome {
    /// The engine did what was asked; there is nothing to hand back.
    Completed,
    /// The container runs and its output is attached.
    Attached(LogListener),
    /// The block height that the daemon reported.
    BlockCount(i64),
}

/// Where an operation stands.
#[derive(Debug, PartialEq, Eq)]
pub enum Step {
    /// Put the request to the engine, then hand its reply to `advance`
    /// together with the session.
    Perform(Session, EngineRequest),
    /// The operation is over, with this result.
    Finished(Result<Outcome, NodeRunnerError>),
}

/// The mathematical content of a `Step`.
pub enum StepView {
    Perform { operation: Operation, position: int, request: RequestView },
    Finished { success: Option<OutcomeView>, failure: Option<NodeRunnerError> },
}

/// The mathematical content of an `Outcome`.
pub enum OutcomeView {
    Completed,
    Attached { open: bool },
    BlockCount(i64),
}

impl View for Outcome {
    type V = OutcomeView;

    open spec fn view(&self) -> OutcomeView {
        match *self {
            Outcome::Completed => OutcomeView::Completed,
            Outcome::Attached(listener) => OutcomeView::Attached { open: listener.is_open() },
            Outcome::BlockCount(height) => OutcomeView::BlockCount(height),
        }
    }
}

impl View for Step {
    type V = StepView;

    open spec fn view(&self) -> StepView {
        match *self {
            Step::Perform(session, request) => StepView::Perform {
                operation: session.operation(),
                position: session.position(),
                request: request@,
            },
            Step::Finished(Ok(outcome)) => StepView::Finished {
                success: Some(outcome@),
                failure: None,
            },
            Step::Finished(Err(error)) => StepView::Finished {
                success: None,
                failure: Some(error),
            },
        }
    }
}

/// The step that ends an operation in `error`.
pub open spec fn failed(error: NodeRunnerError) -> StepView {
    StepView::Finished { success: None, failure: Some(error) }
}

/// The step that ends an operation in success with `outcome`.
pub open spec fn succeeded(outcome: OutcomeView) -> StepView {
    StepView::Finished { success: Some(outcome), failure: None }
}

/// What `operation` gives once the last request of its script is fulfilled.
/// The height query never ends this way: its last reply decides by itself.
pub open spec fn outcome_of(operation: Operation) -> OutcomeView {
    match operation {
        Operation::Start => OutcomeView::Attached { open: true },
        _ => OutcomeView::Completed,
    }
}

/// The step after the request at `position` was fulfilled: the next request
/// of the script, or success where there is none.
pub open spec fn step_after(node: NodeView, operation: Operation, position: int) -> StepView {
    if position + 1 < script_len(operation) {
        StepView::Perform {
            operation,
            position: position + 1,
            request: script_request(node, operation, position + 1),
        }
    } else {
        succeeded(outcome_of(operation))
    }
}

/// The step to which `reply` leads when the request at `position` of the
/// script of `operation` was out.
///
/// A failure ends the operation at once, as `EngineUnavailable` where the
/// connection could not be opened and as `EngineOperationFailed` anywhere
/// else, with the cause that the engine gave. An exec session that starts
/// without an attached stream, and a stream that gives no chunk, end it in
/// `ExecNotAttached`. The one chunk read decides the height query. Any other
/// reply fulfils the request.
pub open spec fn next_step(
    node: NodeView,
    operation: Operation,
    position: int,
    reply: EngineReply,
) -> StepView {
    let request = script_request(node, operation, position);
    match reply {
        EngineReply::Failed(cause) => if request is Connect {
            failed(NodeRunnerError::EngineUnavailable(cause))
        } else {
            failed(NodeRunnerError::EngineOperationFailed(cause))
        },
        _ => match request {
            RequestView::StartExec => if reply is Attached {
                step_after(node, operation, position)
            } else {
                failed(NodeRunnerError::ExecNotAttached)
            },
            RequestView::ReadChunk => match reply {
                EngineReply::Chunk(text) => match block_count_of(json_integer(text@)) {
                    Ok(height) => succeeded(OutcomeView::BlockCount(height)),
                    Err(error) => failed(error),
                },
                _ => failed(NodeRunnerError::ExecNotAttached),
            },
            _ => step_after(node, operation, position),
        },
    }
}

/// One container of the engine, known by its name: the image it runs and the
/// host directory that holds its data. Nothing of the container's state is
/// kept here; every operation asks the engine anew.
#[derive(Debug, Clone, PartialEq, Eq)]
pub struct DefiNode {
    image: String,
    cname: String,
    host_datadir_path: String,
}

impl View for DefiNode {
    type V = NodeView;

    closed spec fn view(&self) -> NodeView {
        NodeView { image: self.image@, cname: self.cname@, datadir: self.host_datadir_path@ }
    }
}

impl DefiNode {
    /// A handle for the container `cname`, or `defi-node` where no name is
    /// given, running `image` over the host directory `datadir`.
    pub fn new(image: String, cname: Option<String>, datadir: &str) -> (node: Self)
        ensures
            node@.image == image@,
            node@.cname == match cname {
                Some(name) => name@,
                None => "defi-node"@,
            },
            node@.datadir == datadir@,
    {
        let cname = match cname {
            Some(name) => name,
            None => String::from_str("defi-node"),
        };
        DefiNode { image, cname, host_datadir_path: String::from_str(datadir) }
    }

    /// The image reference.
    pub fn image(&self) -> (image: &str)
        ensures
            image@ == self@.image,
    {
        self.image.as_str()
    }

    /// The container's name.
    pub fn cname(&self) -> (name: &str)
        ensures
            name@ == self@.cname,
    {
        self.cname.as_str()
    }

    /// The host directory that is bound into the container.
    pub fn host_datadir_path(&self) -> (path: &str)
        ensures
            path@ == self@.datadir,
    {
        self.host_datadir_path.as_str()
    }

    fn request_at(&self, operation: Operation, position: usize) -> (request: EngineRequest)
        requires
            position < script_len(operation),
        ensures
            request@ == script_request(self@, operation, position as int),
    {
        if position == 0 {
            return EngineRequest::Connect;
        }
        match operation {
            Operation::Start => {
                if position == 1 {
                    EngineRequest::PullImage { image: self.image.clone() }
                } else if position == 2 {
                    let mut command: Vec<String> = Vec::new();
                    command.push(String::from_str("defid"));
                    assert(words(command@) =~= seq!["defid"@]);
                    EngineRequest::CreateContainer {
                        name: self.cname.clone(),
                        image: self.image.clone(),
                        command,
                        attach_stdout: true,
                        mount_source: self.host_datadir_path.clone(),
                        mount_target: String::from_str("/data"),
                    }
                } else if position == 3 {
                    EngineRequest::StartContainer { name: self.cname.clone() }
                } else {
                    EngineRequest::AttachContainer {
                        name: self.cname.clone(),
                        stdout: true,
                        stderr: true,
                        stream: true,
                    }
                }
            },
            Operation::Stop => EngineRequest::StopContainer { name: self.cname.clone() },
            Operation::GetBlockCount => {
                if position == 1 {
                    let mut command: Vec<String> = Vec::new();
                    command.push(String::from_str("defi-cli"));
                    command.push(String::from_str("getblockcount"));
                    assert(words(command@) =~= seq!["defi-cli"@, "getblockcount"@]);
                    EngineRequest::CreateExec {
                        name: self.cname.clone(),
                        command,
                        attach_stdout: true,
                        attach_stderr: true,
                    }
                } else if position == 2 {
                    EngineRequest::StartExec
                } else {
                    EngineRequest::ReadChunk
                }
            },
            Operation::Remove => EngineRequest::RemoveContainer {
                name: self.cname.clone(),
                force: true,
            },
        }
    }

    /// Opens `operation`: its first request goes out.
    pub fn begin(&self, operation: Operation) -> (step: Step)
        ensures
            step@ == (StepView::Perform {
                operation,
                position: 0,
                request: RequestView::Connect,
            }),
    {
        Step::Perform(Session { operation, position: 0 }, self.request_at(operation, 0))
    }

    /// Begins to start the container: pull the image, create the container
    /// with the data directory bound into it, start it, attach to its output.
    pub fn start(&self) -> (step: Step)
        ensures
            step@ == (StepView::Perform {
                operation: Operation::Start,
                position: 0,
                request: RequestView::Connect,
            }),
    {
        self.begin(Operation::Start)
    }

    /// Begins to stop the container.
    pub fn stop(&self) -> (step: Step)
        ensures
            step@ == (StepView::Perform {
                operation: Operation::Stop,
                position: 0,
                request: RequestView::Connect,
            }),
    {
        self.begin(Operation::Stop)
    }

    /// Begins to query the block height through the diagnostic command.
    pub fn getblockcount(&self) -> (step: Step)
        ensures
            step@ == (StepView::Perform {
                operation: Operation::GetBlockCount,
                position: 0,
                request: RequestView::Connect,
            }),
    {
        self.begin(Operation::GetBlockCount)
    }

    /// Begins to remove the container by force.
    pub fn remove(&self) -> (step: Step)
        ensures
            step@ == (StepView::Perform {
                operation: Operation::Remove,
                position: 0,
                request: RequestView::Connect,
            }),
    {
        self.begin(Operation::Remove)
    }

    fn proceed(&self, session: Session) -> (step: Step)
        ensures
            step@ == step_after(self@, session.operation(), session.position()),
    {
        proof {
            use_type_invariant(&session);
        }
        let operation = session.operation;
        let length: usize = match operation {
            Operation::Start => 5,
            Operation::Stop => 2,
            Operation::GetBlockCount => 4,
            Operation::Remove => 2,
        };
        let position: usize = session.position + 1;
        if position < length {
            Step::Perform(Session { operation, position }, self.request_at(operation, position))
        } else {
            match operation {
                Operation::Start => Step::Finished(Ok(Outcome::Attached(LogListener { open: true }))),
                _ => Step::Finished(Ok(Outcome::Completed)),
            }
        }
    }

    /// Takes the engine's reply to the request of `session` and decides how
    /// the operation goes on.
    pub fn advance(&self, session: Session, reply: EngineReply) -> (step: Step)
        ensures
            step@ == next_step(self@, session.operation(), session.position(), reply),
    {
        proof {
            use_type_invariant(&session);
        }
        let position = session.position;
        let exec_query = match session.operation {
            Operation::GetBlockCount => true,
            _ => false,
        };
        match reply {
            EngineReply::Failed(cause) => {
                if position == 0 {
                    Step::Finished(Err(NodeRunnerError::EngineUnavailable(cause)))
                } else {
                    Step::Finished(Err(NodeRunnerError::EngineOperationFailed(cause)))
                }
            },
            EngineReply::Attached => {
                if exec_query && position == 3 {
                    Step::Finished(Err(NodeRunnerError::ExecNotAttached))
                } else {
                    self.proceed(session)
                }
            },
            EngineReply::Chunk(text) => {
                if exec_query && position == 3 {
                    match block_count_from_output(text.as_str()) {
                        Ok(height) => Step::Finished(Ok(Outcome::BlockCount(height))),
                        Err(error) => Step::Finished(Err(error)),
                    }
                } else if exec_query && position == 2 {
                    Step::Finished(Err(NodeRunnerError::ExecNotAttached))
                } else {
                    self.proceed(session)
                }
            },
            _ => {
                if exec_query && position >= 2 {
                    Step::Finished(Err(NodeRunnerError::ExecNotAttached))
                } else {
                    self.proceed(session)
                }
            },
        }
    }
}

/// The requests that go out, in order, from the one at `position` of the
/// script of `operation` on, when the engine answers them with `replies`.
pub open spec fn requests_put(
    node: NodeView,
    operation: Operation,
    position: int,
    replies: Seq<EngineReply>,
) -> Seq<RequestView>
    decreases replies.len(),
{
    let first = seq![script_request(node, operation, position)];
    if replies.len() == 0 {
        first
    } else {
        match next_step(node, operation, position, replies.first()) {
            StepView::Perform { position: next, .. } => first + requests_put(
                node,
                operation,
                next,
                replies.drop_first(),
            ),
            StepView::Finished { .. } => first,
        }
    }
}

/// Whatever the engine replies, the requests that go out are the script's,
/// in the script's order and without a gap: no request is put twice, none is
/// skipped, and none follows the script's last.
pub proof fn lemma_requests_follow_script(
    node: NodeView,
    operation: Operation,
    position: int,
    replies: Seq<EngineReply>,
)
    requires
        0 <= position < script_len(operation),
    ensures
        requests_put(node, operation, position, replies).len() <= script_len(operation) - position,
        forall|i: int|
            0 <= i < requests_put(node, operation, position, replies).len() ==> #[trigger] requests_put(
                node,
                operation,
                position,
                replies,
            )[i] == script(node, operation)[position + i],
    decreases replies.len(),
{
    if replies.len() > 0 {
        match next_step(node, operation, position, replies.first()) {
            StepView::Perform { position: next, .. } => {
                lemma_requests_follow_script(node, operation, next, replies.drop_first());
            },
            StepView::Finished { .. } => {},
        }
    }
}

/// A failure of the engine ends any operation at once, with the engine's
/// cause: as `EngineUnavailable` where the connection could not be opened,
/// as `EngineOperationFailed` after that. Nothing is retried.
pub proof fn lemma_failures_surface(node: NodeView, operation: Operation, position: int, cause: String)
    requires
        0 <= position < script_len(operation),
    ensures
        position == 0 ==> next_step(node, operation, position, EngineReply::Failed(cause))
            == failed(NodeRunnerError::EngineUnavailable(cause)),
        position > 0 ==> next_step(node, operation, position, EngineReply::Failed(cause))
            == failed(NodeRunnerError::EngineOperationFailed(cause)),
{
}

/// Removal is not idempotent: the one request after the connection is the
/// forced removal, put without looking whether the container exists, and
/// where the engine refuses it, as it does when no container has the name,
/// the operation ends in `EngineOperationFailed` with the engine's cause.
pub proof fn lemma_refused_removal_is_an_error(node: NodeView, cause: String)
    ensures
        script(node, Operation::Remove) == seq![
            RequestView::Connect,
            RequestView::RemoveContainer { name: node.cname, force: true },
        ],
        next_step(node, Operation::Remove, 1, EngineReply::Failed(cause)) == failed(
            NodeRunnerError::EngineOperationFailed(cause),
        ),
{
    assert(script(node, Operation::Remove) =~= seq![
        RequestView::Connect,
        RequestView::RemoveContainer { name: node.cname, force: true },
    ]);
}

/// Starting pulls the image every time, whether it is present or not, and
/// a pull that the engine fulfils, as it does for an image that is present,
/// is no error: creating the container comes next.
pub proof fn lemma_pull_is_unconditional(node: NodeView, reply: EngineReply)
    requires
        !(reply is Failed),
    ensures
        script(node, Operation::Start)[1] == (RequestView::PullImage { image: node.image }),
        next_step(node, Operation::Start, 1, reply) == (StepView::Perform {
            operation: Operation::Start,
            position: 2,
            request: script(node, Operation::Start)[2],
        }),
        script(node, Operation::Start)[2] is CreateContainer,
{
}

/// Where no reply ends the operation before its last request, every request
/// of the script goes out, from the one at `position` to the last.
pub proof fn lemma_whole_script_goes_out(
    node: NodeView,
    operation: Operation,
    position: int,
    replies: Seq<EngineReply>,
)
    requires
        0 <= position < script_len(operation),
        replies.len() >= script_len(operation) - position - 1,
        forall|i: int|
            0 <= i < script_len(operation) - position - 1 ==> next_step(
                node,
                operation,
                position + i,
                #[trigger] replies[i],
            ) is Perform,
    ensures
        requests_put(node, operation, position, replies) == script(node, operation).skip(position),
    decreases replies.len(),
{
    let put = requests_put(node, operation, position, replies);
    if position + 1 < script_len(operation) {
        let rest = replies.drop_first();
        assert(next_step(node, operation, position + 0, replies[0]) is Perform);
        assert forall|i: int| 0 <= i < script_len(operation) - (position + 1) - 1 implies next_step(
            node,
            operation,
            position + 1 + i,
            #[trigger] rest[i],
        ) is Perform by {
            assert(rest[i] == replies[i + 1]);
            assert(next_step(node, operation, position + (i + 1), replies[i + 1]) is Perform);
        }
        lemma_whole_script_goes_out(node, operation, position + 1, rest);
    }
    assert(put =~= script(node, operation).skip(position));
}

/// An engine that fulfils every request lets a start end with the
/// container's output attached and open, and a stop or a removal end in
/// success; each has then put its whole script.
pub proof fn lemma_fulfilled_operations_succeed(
    node: NodeView,
    operation: Operation,
    replies: Seq<EngineReply>,
)
    requires
        operation != Operation::GetBlockCount,
        replies.len() == script_len(operation),
        forall|i: int| 0 <= i < replies.len() ==> !(#[trigger] replies[i] is Failed),
    ensures
        requests_put(node, operation, 0, replies) == script(node, operation),
        next_step(node, operation, script_len(operation) - 1, replies.last()) == succeeded(
            outcome_of(operation),
        ),
{
    assert forall|i: int| 0 <= i < script_len(operation) - 1 implies next_step(
        node,
        operation,
        0 + i,
        #[trigger] replies[i],
    ) is Perform by {
        assert(!(replies[i] is Failed));
    }
    lemma_whole_script_goes_out(node, operation, 0, replies);
    assert(script(node, operation).skip(0) =~= script(node, operation));
    assert(!(replies[script_len(operation) - 1] is Failed));
}

/// The height query stands and falls with one chunk: once the exec session
/// is attached, the first chunk of its output alone decides the result, a
/// height where the chunk is one JSON integer and `MalformedOutput` where it
/// is anything else. A session that is not attached, and an output that
/// ends without a chunk, give `ExecNotAttached`.
pub proof fn lemma_height_query_reads_one_chunk(node: NodeView, reply: EngineReply)
    ensures
        script(node, Operation::GetBlockCount)[2] == RequestView::StartExec,
        script(node, Operation::GetBlockCount)[3] == RequestView::ReadChunk,
        reply is Attached ==> next_step(node, Operation::GetBlockCount, 2, reply)
            == (StepView::Perform {
            operation: Operation::GetBlockCount,
            position: 3,
            request: RequestView::ReadChunk,
        }),
        !(reply is Attached) && !(reply is Failed) ==> next_step(
            node,
            Operation::GetBlockCount,
            2,
            reply,
        ) == failed(NodeRunnerError::ExecNotAttached),
        !(reply is Chunk) && !(reply is Failed) ==> next_step(
            node,
            Operation::GetBlockCount,
            3,
            reply,
        ) == failed(NodeRunnerError::ExecNotAttached),
        reply matches EngineReply::Chunk(text) ==> next_step(
            node,
            Operation::GetBlockCount,
            3,
            reply,
        ) == (match json_integer(text@) {
            Some(Some(height)) => succeeded(OutcomeView::BlockCount(height)),
            _ => failed(NodeRunnerError::MalformedOutput),
        }),
{
}

/// Stopping and removing need nothing of what went before: each depends on
/// the node's name alone, and each succeeds as soon as the engine fulfils its
/// two requests, whatever sessions were opened and abandoned earlier.
pub proof fn lemma_stop_and_remove_complete(node: NodeView, first: EngineReply, second: EngineReply)
    requires
        !(first is Failed),
        !(second is Failed),
    ensures
        requests_put(node, Operation::Stop, 0, seq![first, second]) == script(node, Operation::Stop),
        requests_put(node, Operation::Remove, 0, seq![first, second]) == script(
            node,
            Operation::Remove,
        ),
        next_step(node, Operation::Stop, 1, second) == succeeded(OutcomeView::Completed),
        next_step(node, Operation::Remove, 1, second) == succeeded(OutcomeView::Completed),
{
    let replies = seq![first, second];
    lemma_fulfilled_operations_succeed(node, Operation::Stop, replies);
    lemma_fulfilled_operations_succeed(node, Operation::Remove, replies);
}

/// The names under which the engine holds a container once it has fulfilled
/// `request`, where `before` were the names before: creating adds the name,
/// removing takes it away, and no other request touches the names.
pub open spec fn names_after(before: Set<Seq<char>>, request: RequestView) -> Set<Seq<char>> {
    match request {
        RequestView::CreateContainer { name, .. } => before.insert(name),
        RequestView::RemoveContainer { name, .. } => before.remove(name),
        _ => before,
    }
}

/// The names under which the engine holds a container once it has fulfilled
/// `requests` in order.
pub open spec fn names_after_all(before: Set<Seq<char>>, requests: Seq<RequestView>) -> Set<
    Seq<char>,
>
    decreases requests.len(),
{
    if requests.len() == 0 {
        before
    } else {
        names_after(names_after_all(before, requests.drop_last()), requests.last())
    }
}

/// Where the engine fulfils every request of a start and then every request
/// of a removal, it holds no container under the node's name afterwards,
/// whatever it held before. The engine is taken to add a name when it
/// creates and to drop it when it removes, as `names_after` says.
pub proof fn lemma_start_then_remove_leaves_no_container(node: NodeView, before: Set<Seq<char>>)
    ensures
        !names_after_all(
            before,
            script(node, Operation::Start) + script(node, Operation::Remove),
        ).contains(node.cname),
{
    let requests = script(node, Operation::Start) + script(node, Operation::Remove);
    assert(requests.len() == 7);
    assert(requests.last() == script(node, Operation::Remove)[1]);
}

} // verus!
