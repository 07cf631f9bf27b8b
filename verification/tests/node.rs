use node_runner::engine::{EngineReply, EngineRequest};
use node_runner::error::NodeRunnerError;
use node_runner::node::{
    DefiNode, LogRecord, LogSource, Operation, Outcome, Step, StreamEvent, DEFI_IMAGE,
};

fn sample_node() -> DefiNode {
    DefiNode::new(DEFI_IMAGE.to_string(), Some("height-probe".to_string()), "defi-data")
}

/// Answers the requests of an operation with `replies`, in order, and returns
/// the requests that went out with the result, if the operation came to one.
fn drive(
    node: &DefiNode,
    first: Step,
    replies: Vec<EngineReply>,
) -> (Vec<EngineRequest>, Option<Result<Outcome, NodeRunnerError>>) {
    let mut requests = Vec::new();
    let mut step = first;
    let mut replies = replies.into_iter();
    loop {
        match step {
            Step::Perform(session, request) => {
                requests.push(request);
                match replies.next() {
                    Some(reply) => step = node.advance(session, reply),
                    None => return (requests, None),
                }
            }
            Step::Finished(result) => return (requests, Some(result)),
        }
    }
}

fn name() -> String {
    "height-probe".to_string()
}

#[test]
fn new_keeps_what_it_is_given() {
    let node = sample_node();
    assert_eq!(node.image(), "defi/defichain:latest");
    assert_eq!(node.cname(), "height-probe");
    assert_eq!(node.host_datadir_path(), "defi-data");
}

#[test]
fn new_without_a_name_uses_the_default() {
    let node = DefiNode::new("img:1".to_string(), None, "/var/lib/defi");
    assert_eq!(node.cname(), "defi-node");
    assert_eq!(node.image(), "img:1");
    assert_eq!(node.host_datadir_path(), "/var/lib/defi");
}

#[test]
fn start_puts_its_requests_in_order() {
    let node = sample_node();
    let replies = vec![
        EngineReply::Done,
        EngineReply::Done,
        EngineReply::Done,
        EngineReply::Done,
        EngineReply::Attached,
    ];
    let (requests, result) = drive(&node, node.start(), replies);
    assert_eq!(
        requests,
        vec![
            EngineRequest::Connect,
            EngineRequest::PullImage { image: "defi/defichain:latest".to_string() },
            EngineRequest::CreateContainer {
                name: name(),
                image: "defi/defichain:latest".to_string(),
                command: vec!["defid".to_string()],
                attach_stdout: true,
                mount_source: "defi-data".to_string(),
                mount_target: "/data".to_string(),
            },
            EngineRequest::StartContainer { name: name() },
            EngineRequest::AttachContainer {
                name: name(),
                stdout: true,
                stderr: true,
                stream: true,
            },
        ]
    );
    match result {
        Some(Ok(Outcome::Attached(listener))) => assert!(listener.still_open()),
        other => panic!("start ended in {:?}", other),
    }
}

#[test]
fn start_pulls_even_when_the_image_is_present() {
    let node = sample_node();
    let (requests, result) = drive(&node, node.start(), vec![EngineReply::Done, EngineReply::Done]);
    assert_eq!(requests.len(), 3);
    assert_eq!(requests[1], EngineRequest::PullImage { image: DEFI_IMAGE.to_string() });
    assert!(matches!(requests[2], EngineRequest::CreateContainer { .. }));
    assert_eq!(result, None);
}

#[test]
fn start_fails_where_the_engine_fails() {
    let node = sample_node();
    for fulfilled in 1..5usize {
        let mut replies = vec![EngineReply::Done; fulfilled];
        replies.push(EngineReply::Failed("refused".to_string()));
        let (requests, result) = drive(&node, node.start(), replies);
        assert_eq!(requests.len(), fulfilled + 1);
        assert_eq!(
            result,
            Some(Err(NodeRunnerError::EngineOperationFailed("refused".to_string())))
        );
    }
}

#[test]
fn unreachable_engine_is_unavailable() {
    let node = sample_node();
    for first in [node.start(), node.stop(), node.getblockcount(), node.remove()] {
        let (requests, result) =
            drive(&node, first, vec![EngineReply::Failed("no socket".to_string())]);
        assert_eq!(requests, vec![EngineRequest::Connect]);
        assert_eq!(
            result,
            Some(Err(NodeRunnerError::EngineUnavailable("no socket".to_string())))
        );
    }
}

#[test]
fn stop_asks_the_engine_to_stop_the_container() {
    let node = sample_node();
    let (requests, result) = drive(&node, node.stop(), vec![EngineReply::Done, EngineReply::Done]);
    assert_eq!(
        requests,
        vec![EngineRequest::Connect, EngineRequest::StopContainer { name: name() }]
    );
    assert_eq!(result, Some(Ok(Outcome::Completed)));
}

#[test]
fn remove_is_forced() {
    let node = sample_node();
    let (requests, result) =
        drive(&node, node.remove(), vec![EngineReply::Done, EngineReply::Done]);
    assert_eq!(
        requests,
        vec![
            EngineRequest::Connect,
            EngineRequest::RemoveContainer { name: name(), force: true },
        ]
    );
    assert_eq!(result, Some(Ok(Outcome::Completed)));
}

#[test]
fn remove_of_an_absent_container_fails() {
    let node = sample_node();
    let replies = vec![EngineReply::Done, EngineReply::Failed("No such container".to_string())];
    let (_, result) = drive(&node, node.remove(), replies);
    assert_eq!(
        result,
        Some(Err(NodeRunnerError::EngineOperationFailed("No such container".to_string())))
    );
}

#[test]
fn start_then_remove_ends_with_the_removal_of_the_name() {
    let node = sample_node();
    let (started, _) = drive(&node, node.start(), vec![EngineReply::Done; 5]);
    let (removed, result) = drive(&node, node.remove(), vec![EngineReply::Done; 2]);
    assert!(started.contains(&EngineRequest::CreateContainer {
        name: name(),
        image: DEFI_IMAGE.to_string(),
        command: vec!["defid".to_string()],
        attach_stdout: true,
        mount_source: "defi-data".to_string(),
        mount_target: "/data".to_string(),
    }));
    assert_eq!(
        removed.last(),
        Some(&EngineRequest::RemoveContainer { name: name(), force: true })
    );
    assert_eq!(result, Some(Ok(Outcome::Completed)));
}

#[test]
fn getblockcount_reads_the_height_from_one_chunk() {
    let node = sample_node();
    let replies = vec![
        EngineReply::Done,
        EngineReply::Done,
        EngineReply::Attached,
        EngineReply::Chunk("12345".to_string()),
    ];
    let (requests, result) = drive(&node, node.getblockcount(), replies);
    assert_eq!(
        requests,
        vec![
            EngineRequest::Connect,
            EngineRequest::CreateExec {
                name: name(),
                command: vec!["defi-cli".to_string(), "getblockcount".to_string()],
                attach_stdout: true,
                attach_stderr: true,
            },
            EngineRequest::StartExec,
            EngineRequest::ReadChunk,
        ]
    );
    assert_eq!(result, Some(Ok(Outcome::BlockCount(12345))));
}

#[test]
fn getblockcount_rejects_malformed_output() {
    let node = sample_node();
    for chunk in ["not-json", "", "3.25", "12345 6"] {
        let replies = vec![
            EngineReply::Done,
            EngineReply::Done,
            EngineReply::Attached,
            EngineReply::Chunk(chunk.to_string()),
        ];
        let (_, result) = drive(&node, node.getblockcount(), replies);
        assert_eq!(result, Some(Err(NodeRunnerError::MalformedOutput)));
    }
}

#[test]
fn getblockcount_needs_an_attached_exec() {
    let node = sample_node();
    let replies = vec![EngineReply::Done, EngineReply::Done, EngineReply::Detached];
    let (requests, result) = drive(&node, node.getblockcount(), replies);
    assert_eq!(requests.len(), 3);
    assert_eq!(result, Some(Err(NodeRunnerError::ExecNotAttached)));

    let replies = vec![
        EngineReply::Done,
        EngineReply::Done,
        EngineReply::Attached,
        EngineReply::EndOfStream,
    ];
    let (requests, result) = drive(&node, node.getblockcount(), replies);
    assert_eq!(requests.len(), 4);
    assert_eq!(result, Some(Err(NodeRunnerError::ExecNotAttached)));
}

#[test]
fn getblockcount_surfaces_a_failed_read() {
    let node = sample_node();
    let replies = vec![
        EngineReply::Done,
        EngineReply::Done,
        EngineReply::Attached,
        EngineReply::Failed("broken pipe".to_string()),
    ];
    let (_, result) = drive(&node, node.getblockcount(), replies);
    assert_eq!(
        result,
        Some(Err(NodeRunnerError::EngineOperationFailed("broken pipe".to_string())))
    );
}

#[test]
fn abandoned_query_does_not_hinder_stop_or_remove() {
    let node = sample_node();
    let (requests, result) =
        drive(&node, node.getblockcount(), vec![EngineReply::Done, EngineReply::Done]);
    assert_eq!(requests.len(), 3);
    assert_eq!(result, None);
    let (_, stopped) = drive(&node, node.stop(), vec![EngineReply::Done; 2]);
    assert_eq!(stopped, Some(Ok(Outcome::Completed)));
    let (_, removed) = drive(&node, node.remove(), vec![EngineReply::Done; 2]);
    assert_eq!(removed, Some(Ok(Outcome::Completed)));
}

#[test]
fn sessions_know_their_operation_and_place() {
    let node = sample_node();
    match node.begin(Operation::Stop) {
        Step::Perform(session, request) => {
            assert_eq!(session.kind(), Operation::Stop);
            assert_eq!(session.place(), 0);
            assert_eq!(request, EngineRequest::Connect);
            match node.advance(session, EngineReply::Done) {
                Step::Perform(session, _) => {
                    assert_eq!(session.kind(), Operation::Stop);
                    assert_eq!(session.place(), 1);
                }
                other => panic!("stop ended early in {:?}", other),
            }
        }
        other => panic!("stop began with {:?}", other),
    }
}

#[test]
fn listener_hands_records_on_until_the_stream_closes() {
    let node = sample_node();
    let (_, result) = drive(&node, node.start(), vec![EngineReply::Done; 5]);
    let mut listener = match result {
        Some(Ok(Outcome::Attached(listener))) => listener,
        other => panic!("start ended in {:?}", other),
    };
    let record = LogRecord { source: LogSource::StdOut, message: b"UpdateTip".to_vec() };
    assert_eq!(listener.next(StreamEvent::Record(record.clone())), Some(Ok(record.clone())));
    assert_eq!(
        listener.next(StreamEvent::Failed("reset".to_string())),
        Some(Err(NodeRunnerError::EngineOperationFailed("reset".to_string())))
    );
    assert!(listener.still_open());
    assert_eq!(listener.next(StreamEvent::Closed), None);
    assert!(!listener.still_open());
    assert_eq!(listener.next(StreamEvent::Record(record)), None);
    assert!(!listener.still_open());
}
