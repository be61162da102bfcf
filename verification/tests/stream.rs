use uds_engine::addr::encode;
use uds_engine::event::{
    AcceptOutcome, Event, ReadOutcome, SocketError, WriteOutcome, ERRNO_IN_PROGRESS,
};
use uds_engine::msg::{Completion, CompletionStatus, Message};
use uds_engine::stream::{StreamSocket, StreamState};

const ERRNO_WOULD_BLOCK: i32 = 11;
const ERRNO_BROKEN_PIPE: i32 = 32;

fn path(s: &str) -> Vec<u8> {
    s.as_bytes().to_vec()
}

/// Read the bytes the host's next write syscall would take: the remaining
/// part of the head message.
fn head_remaining(s: &StreamSocket) -> Vec<u8> {
    match s.head() {
        Some(Message::Stream { bytes, sent, .. }) => bytes[*sent..].to_vec(),
        Some(Message::Datagram { .. }) => panic!("stream socket queued a datagram"),
        None => Vec::new(),
    }
}

#[test]
fn short_write_never_reorders_or_duplicates_bytes() {
    let mut s = StreamSocket::create();
    s.write(b"hello world".to_vec(), Some(1)).unwrap();

    // The host plays the kernel: each attempt takes some prefix of the head
    // message's remaining bytes onto the wire.
    let mut wire: Vec<u8> = Vec::new();

    let attempt = head_remaining(&s);
    assert_eq!(attempt, b"hello world".to_vec());
    wire.extend_from_slice(&attempt[..5]);
    let outs = vec![WriteOutcome::Wrote { count: 5 }];
    let report = s.flush(&outs);
    assert!(report.completions.is_empty());
    assert_eq!(report.fatal, None);
    assert!(s.poll_interest().writable);

    let attempt = head_remaining(&s);
    assert_eq!(attempt, b" world".to_vec());
    wire.extend_from_slice(&attempt);
    let outs = vec![WriteOutcome::Wrote { count: 6 }];
    let report = s.flush(&outs);
    assert_eq!(
        report.completions,
        vec![Completion { token: Some(1), status: CompletionStatus::Sent }]
    );
    assert!(s.head().is_none());
    assert!(!s.poll_interest().writable);

    assert_eq!(wire, b"hello world".to_vec());
}

#[test]
fn short_write_stops_the_pass_before_later_messages() {
    let mut s = StreamSocket::create();
    s.write(b"abc".to_vec(), Some(1)).unwrap();
    s.write(b"def".to_vec(), Some(2)).unwrap();

    let mut wire: Vec<u8> = Vec::new();
    wire.extend_from_slice(&head_remaining(&s)[..1]);
    let outs = vec![WriteOutcome::Wrote { count: 1 }, WriteOutcome::Wrote { count: 3 }];
    let report = s.flush(&outs);
    assert!(report.completions.is_empty());
    assert_eq!(head_remaining(&s), b"bc".to_vec());

    wire.extend_from_slice(&head_remaining(&s));
    let outs = vec![WriteOutcome::Wrote { count: 2 }, WriteOutcome::Wrote { count: 3 }];
    let report = s.flush(&outs);
    wire.extend_from_slice(b"def");
    assert_eq!(
        report.completions,
        vec![
            Completion { token: Some(1), status: CompletionStatus::Sent },
            Completion { token: Some(2), status: CompletionStatus::Sent },
        ]
    );
    assert_eq!(wire, b"abcdef".to_vec());
    assert!(s.head().is_none());
}

#[test]
fn transient_write_keeps_queue_and_arms_writable() {
    let mut s = StreamSocket::create();
    s.write(b"payload".to_vec(), Some(1)).unwrap();

    let outs = vec![WriteOutcome::Failed { errno: ERRNO_WOULD_BLOCK }];
    let report = s.flush(&outs);
    assert!(report.completions.is_empty());
    assert_eq!(report.fatal, None);
    assert!(!report.did_shutdown);
    assert!(s.poll_interest().writable);
    assert_eq!(head_remaining(&s), b"payload".to_vec());
}

#[test]
fn fatal_write_error_is_connection_fatal() {
    let mut s = StreamSocket::create();
    s.write(b"doomed".to_vec(), Some(1)).unwrap();

    let outs = vec![WriteOutcome::Failed { errno: ERRNO_BROKEN_PIPE }];
    let report = s.flush(&outs);
    assert_eq!(report.fatal, Some(ERRNO_BROKEN_PIPE));
    assert!(report.completions.is_empty());
    assert!(!report.did_shutdown);
    assert!(!s.poll_interest().readable);
    assert!(!s.poll_interest().writable);
    assert_eq!(head_remaining(&s), b"doomed".to_vec());
}

#[test]
fn finished_messages_complete_even_when_a_later_write_fails() {
    let mut s = StreamSocket::create();
    s.write(b"ok".to_vec(), Some(1)).unwrap();
    s.write(b"bad".to_vec(), Some(2)).unwrap();

    let outs = vec![
        WriteOutcome::Wrote { count: 2 },
        WriteOutcome::Failed { errno: ERRNO_BROKEN_PIPE },
    ];
    let report = s.flush(&outs);
    assert_eq!(
        report.completions,
        vec![Completion { token: Some(1), status: CompletionStatus::Sent }]
    );
    assert_eq!(report.fatal, Some(ERRNO_BROKEN_PIPE));
    assert_eq!(head_remaining(&s), b"bad".to_vec());
}

#[test]
fn shutdown_with_empty_queue_is_synchronous() {
    let mut s = StreamSocket::create();
    assert_eq!(s.shutdown_when_flushed(), Ok(true));
    assert_eq!(s.current_state(), StreamState::ShutDown);
    // Asking again changes nothing.
    assert_eq!(s.shutdown_when_flushed(), Ok(false));
    assert_eq!(s.current_state(), StreamState::ShutDown);
}

#[test]
fn shutdown_with_queued_messages_waits_for_the_queue_to_drain() {
    let mut s = StreamSocket::create();
    s.write(b"tail".to_vec(), Some(1)).unwrap();
    assert_eq!(s.shutdown_when_flushed(), Ok(false));
    assert_eq!(s.current_state(), StreamState::ShuttingDown);

    // Writes are refused once the half-close is requested.
    assert_eq!(
        s.write(b"late".to_vec(), None),
        Err(SocketError::AlreadyShuttingDown)
    );

    // A pass that does not drain the queue does not shut down.
    let outs = vec![WriteOutcome::Failed { errno: ERRNO_WOULD_BLOCK }];
    let report = s.flush(&outs);
    assert!(!report.did_shutdown);
    assert_eq!(s.current_state(), StreamState::ShuttingDown);

    // The pass that drains the queue performs the half-close.
    let outs = vec![WriteOutcome::Wrote { count: 4 }];
    let report = s.flush(&outs);
    assert_eq!(
        report.completions,
        vec![Completion { token: Some(1), status: CompletionStatus::Sent }]
    );
    assert!(report.did_shutdown);
    assert_eq!(s.current_state(), StreamState::ShutDown);
}

#[test]
fn connect_lifecycle_emits_single_connected_event() {
    let mut s = StreamSocket::create();
    let raw = s.connect(&path("/tmp/server.sock")).unwrap();
    assert_eq!(uds_engine::addr::decode(&raw), path("/tmp/server.sock"));

    s.connect_issued(Some(ERRNO_IN_PROGRESS)).unwrap();
    assert_eq!(s.current_state(), StreamState::Connecting);
    assert!(s.poll_interest().writable);

    let event = s.connect_ready();
    assert_eq!(event, Event::Connected);
    assert_eq!(s.current_state(), StreamState::Connected);
    assert!(!s.poll_interest().writable);
}

#[test]
fn connect_error_other_than_in_progress_is_surfaced() {
    let mut s = StreamSocket::create();
    s.connect(&path("/tmp/server.sock")).unwrap();
    assert_eq!(s.connect_issued(Some(111)), Err(111));
    assert_eq!(s.current_state(), StreamState::New);
}

#[test]
fn listen_and_connect_are_exclusive_branches_from_fresh() {
    let mut s = StreamSocket::create();
    let req = s.listen(&path("/tmp/srv.sock"), 16).unwrap();
    assert_eq!(req.backlog, 16);
    assert_eq!(uds_engine::addr::decode(&req.addr), path("/tmp/srv.sock"));
    s.listen_confirmed();
    assert_eq!(s.current_state(), StreamState::Listening);
    assert!(s.poll_interest().readable);

    assert_eq!(
        s.connect(&path("/tmp/other.sock")),
        Err(SocketError::InvalidState)
    );
    assert_eq!(
        s.listen(&path("/tmp/other.sock"), 1),
        Err(SocketError::InvalidState)
    );
}

#[test]
fn accepted_connection_becomes_connection_event_with_peer_path() {
    let mut s = StreamSocket::create();
    s.listen(&path("/tmp/srv.sock"), 8).unwrap();
    s.listen_confirmed();

    let peer = encode(&path("/tmp/client.sock")).unwrap();
    let event = s.on_accept_outcome(AcceptOutcome::Accepted { fd: 7, peer });
    assert_eq!(
        event,
        Some(Event::Connection { fd: 7, peer: path("/tmp/client.sock") })
    );

    let quiet = s.on_accept_outcome(AcceptOutcome::Failed { errno: ERRNO_WOULD_BLOCK });
    assert_eq!(quiet, None);

    let failed = s.on_accept_outcome(AcceptOutcome::Failed { errno: 24 });
    assert_eq!(failed, Some(Event::Error { errno: 24 }));
    assert!(!s.poll_interest().readable);
}

#[test]
fn read_events_follow_the_read_loop_protocol() {
    let mut s = StreamSocket::create();
    s.start_recv().unwrap();
    assert!(s.poll_interest().readable);

    let (event, go) = s.on_read_outcome(ReadOutcome::Data { bytes: b"chunk".to_vec() });
    assert_eq!(event, Some(Event::Data { bytes: b"chunk".to_vec(), sender: None }));
    assert!(go);

    let (event, go) = s.on_read_outcome(ReadOutcome::Failed { errno: ERRNO_WOULD_BLOCK });
    assert_eq!(event, None);
    assert!(!go);
    assert!(s.poll_interest().readable);

    let (event, go) = s.on_read_outcome(ReadOutcome::Data { bytes: Vec::new() });
    assert_eq!(event, Some(Event::End));
    assert!(!go);
    assert!(!s.poll_interest().readable);
}

#[test]
fn read_error_stops_polling_with_one_error_event() {
    let mut s = StreamSocket::create();
    s.start_recv().unwrap();
    let (event, go) = s.on_read_outcome(ReadOutcome::Failed { errno: 5 });
    assert_eq!(event, Some(Event::Error { errno: 5 }));
    assert!(!go);
    assert!(!s.poll_interest().readable);
    assert!(!s.poll_interest().writable);
}

#[test]
fn close_releases_tokens_and_is_idempotent() {
    let mut s = StreamSocket::create();
    s.write(b"a".to_vec(), Some(3)).unwrap();
    s.write(b"b".to_vec(), None).unwrap();
    s.write(b"c".to_vec(), Some(4)).unwrap();

    let actions = s.close();
    assert!(actions.stop_poller);
    assert!(actions.close_fd);
    assert!(actions.emit_closed);
    assert_eq!(actions.released_tokens, vec![3, 4]);
    assert_eq!(s.current_state(), StreamState::Closed);
    assert!(s.head().is_none());
    assert!(!s.syscall_allowed());

    let again = s.close();
    assert!(!again.stop_poller);
    assert!(!again.close_fd);
    assert!(!again.emit_closed);
    assert!(again.released_tokens.is_empty());

    assert_eq!(s.write(b"x".to_vec(), None), Err(SocketError::Closed));
    assert_eq!(s.shutdown_when_flushed(), Err(SocketError::Closed));
    assert_eq!(s.start_recv(), Err(SocketError::Closed));
}

#[test]
fn read_buffer_size_is_configurable() {
    let mut s = StreamSocket::create();
    assert_eq!(s.read_buf_size(), 65535);
    s.set_read_buf_size(1024);
    assert_eq!(s.read_buf_size(), 1024);
}
