use uds_engine::addr::{decode, encode, PATH_CAPACITY};
use uds_engine::dgram::DgramSocket;
use uds_engine::event::{Event, RecvOutcome, SendOutcome, SocketError};
use uds_engine::msg::{Completion, CompletionStatus, Message};

const ERRNO_WOULD_BLOCK: i32 = 11;
const ERRNO_CONNECTION_REFUSED: i32 = 111;

fn path(s: &str) -> Vec<u8> {
    s.as_bytes().to_vec()
}

#[test]
fn sends_complete_in_enqueue_order_without_backpressure() {
    let mut s = DgramSocket::create();
    s.send_to(b"one".to_vec(), &path("/tmp/d1.sock"), Some(1)).unwrap();
    s.send_to(b"two".to_vec(), &path("/tmp/d2.sock"), Some(2)).unwrap();
    s.send_to(b"three".to_vec(), &path("/tmp/d3.sock"), Some(3)).unwrap();

    let outs = vec![SendOutcome::Sent, SendOutcome::Sent, SendOutcome::Sent];
    let comps = s.flush(&outs);
    assert_eq!(
        comps,
        vec![
            Completion { token: Some(1), status: CompletionStatus::Sent },
            Completion { token: Some(2), status: CompletionStatus::Sent },
            Completion { token: Some(3), status: CompletionStatus::Sent },
        ]
    );
    assert!(s.head().is_none());
    assert!(!s.poll_interest().writable);
}

#[test]
fn each_packet_keeps_its_destination() {
    let mut s = DgramSocket::create();
    s.send_to(b"a".to_vec(), &path("/tmp/dest-a.sock"), Some(1)).unwrap();
    s.send_to(b"b".to_vec(), &path("/tmp/dest-b.sock"), Some(2)).unwrap();

    match s.head().unwrap() {
        Message::Datagram { bytes, dest, token } => {
            assert_eq!(bytes, &b"a".to_vec());
            assert_eq!(decode(dest), path("/tmp/dest-a.sock"));
            assert_eq!(*token, Some(1));
        }
        _ => panic!("datagram socket queued a stream message"),
    }
    let outs = vec![SendOutcome::Sent, SendOutcome::Sent];
    s.flush(&outs);
}

#[test]
fn backpressure_requeues_head_and_arms_writable() {
    let mut s = DgramSocket::create();
    s.send_to(b"first".to_vec(), &path("/tmp/q1.sock"), Some(10)).unwrap();
    s.send_to(b"second".to_vec(), &path("/tmp/q2.sock"), Some(20)).unwrap();

    let outs = vec![
        SendOutcome::Failed { errno: ERRNO_WOULD_BLOCK },
        SendOutcome::Sent,
    ];
    let comps = s.flush(&outs);
    assert!(comps.is_empty());
    assert!(s.poll_interest().writable);
    match s.head().unwrap() {
        Message::Datagram { bytes, token, .. } => {
            assert_eq!(bytes, &b"first".to_vec());
            assert_eq!(*token, Some(10));
        }
        _ => panic!("datagram socket queued a stream message"),
    }

    let retry = vec![SendOutcome::Sent, SendOutcome::Sent];
    let comps = s.flush(&retry);
    assert_eq!(
        comps,
        vec![
            Completion { token: Some(10), status: CompletionStatus::Sent },
            Completion { token: Some(20), status: CompletionStatus::Sent },
        ]
    );
    assert!(!s.poll_interest().writable);
}

#[test]
fn no_buffer_space_is_backpressure_too() {
    let mut s = DgramSocket::create();
    s.send_to(b"burst".to_vec(), &path("/tmp/full.sock"), Some(1)).unwrap();

    let outs = vec![SendOutcome::Failed { errno: 105 }];
    let comps = s.flush(&outs);
    assert!(comps.is_empty());
    assert!(s.poll_interest().writable);
    assert!(s.head().is_some());
}

#[test]
fn flushing_an_empty_queue_disarms_writable() {
    let mut s = DgramSocket::create();
    s.send_to(b"x".to_vec(), &path("/tmp/w.sock"), None).unwrap();
    let outs = vec![SendOutcome::Failed { errno: ERRNO_WOULD_BLOCK }];
    s.flush(&outs);
    assert!(s.poll_interest().writable);

    let retry = vec![SendOutcome::Sent];
    s.flush(&retry);
    assert!(!s.poll_interest().writable);
    let done: Vec<SendOutcome> = Vec::new();
    let comps = s.flush(&done);
    assert!(comps.is_empty());
    assert!(!s.poll_interest().writable);
}

#[test]
fn fatal_send_error_retires_message_and_queue_drains_on() {
    let mut s = DgramSocket::create();
    s.send_to(b"bad".to_vec(), &path("/tmp/gone.sock"), Some(1)).unwrap();
    s.send_to(b"good".to_vec(), &path("/tmp/live.sock"), Some(2)).unwrap();

    let outs = vec![
        SendOutcome::Failed { errno: ERRNO_CONNECTION_REFUSED },
        SendOutcome::Sent,
    ];
    let comps = s.flush(&outs);
    assert_eq!(
        comps,
        vec![
            Completion { token: Some(1), status: CompletionStatus::Failed(ERRNO_CONNECTION_REFUSED) },
            Completion { token: Some(2), status: CompletionStatus::Sent },
        ]
    );
    assert!(s.head().is_none());
}

#[test]
fn send_to_unreachable_peer_leaves_socket_usable() {
    let mut s = DgramSocket::create();
    s.bind(&path("/tmp/a.sock")).unwrap();
    s.send_to(b"ping".to_vec(), &path("/tmp/b.sock"), Some(1)).unwrap();

    let outs = vec![SendOutcome::Failed { errno: ERRNO_CONNECTION_REFUSED }];
    let comps = s.flush(&outs);
    assert_eq!(
        comps,
        vec![Completion { token: Some(1), status: CompletionStatus::Failed(ERRNO_CONNECTION_REFUSED) }]
    );
    assert!(s.head().is_none());

    s.send_to(b"ping".to_vec(), &path("/tmp/b.sock"), Some(2)).unwrap();
    let retry = vec![SendOutcome::Sent];
    let comps = s.flush(&retry);
    assert_eq!(comps, vec![Completion { token: Some(2), status: CompletionStatus::Sent }]);
}

#[test]
fn send_to_rejects_oversized_destination() {
    let mut s = DgramSocket::create();
    let long: Vec<u8> = vec![b'p'; PATH_CAPACITY];
    assert_eq!(
        s.send_to(b"x".to_vec(), &long, None),
        Err(SocketError::PathTooLong)
    );
    assert!(s.head().is_none());
}

#[test]
fn close_releases_each_token_once_and_is_idempotent() {
    let mut s = DgramSocket::create();
    s.send_to(b"a".to_vec(), &path("/tmp/x.sock"), Some(7)).unwrap();
    s.send_to(b"b".to_vec(), &path("/tmp/y.sock"), None).unwrap();
    s.send_to(b"c".to_vec(), &path("/tmp/z.sock"), Some(8)).unwrap();

    let actions = s.close();
    assert!(actions.stop_poller);
    assert!(actions.close_fd);
    assert!(actions.emit_closed);
    assert_eq!(actions.released_tokens, vec![7, 8]);
    assert!(s.head().is_none());
    assert!(!s.syscall_allowed());
    assert!(!s.poll_interest().readable);
    assert!(!s.poll_interest().writable);

    let again = s.close();
    assert!(!again.stop_poller);
    assert!(!again.close_fd);
    assert!(!again.emit_closed);
    assert!(again.released_tokens.is_empty());
}

#[test]
fn closed_socket_refuses_every_operation() {
    let mut s = DgramSocket::create();
    s.close();
    assert_eq!(
        s.send_to(b"x".to_vec(), &path("/tmp/x.sock"), None),
        Err(SocketError::Closed)
    );
    assert_eq!(s.start_recv(), Err(SocketError::Closed));
    assert_eq!(s.bind(&path("/tmp/x.sock")), Err(SocketError::Closed));
}

#[test]
fn received_packet_becomes_data_event_with_decoded_sender() {
    let mut s = DgramSocket::create();
    s.start_recv().unwrap();
    assert!(s.poll_interest().readable);

    let sender = encode(&path("/tmp/peer.sock")).unwrap();
    let (event, go) = s.on_recv_outcome(RecvOutcome::Packet { bytes: b"hi".to_vec(), sender });
    assert_eq!(
        event,
        Some(Event::Data { bytes: b"hi".to_vec(), sender: Some(path("/tmp/peer.sock")) })
    );
    assert!(go);
}

#[test]
fn recv_would_block_ends_cycle_quietly() {
    let s = DgramSocket::create();
    let (event, go) = s.on_recv_outcome(RecvOutcome::Failed { errno: ERRNO_WOULD_BLOCK });
    assert_eq!(event, None);
    assert!(!go);
}

#[test]
fn recv_error_becomes_error_event_and_stops_cycle() {
    let s = DgramSocket::create();
    let (event, go) = s.on_recv_outcome(RecvOutcome::Failed { errno: 5 });
    assert_eq!(event, Some(Event::Error { errno: 5 }));
    assert!(!go);
}
