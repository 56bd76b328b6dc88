use fq::cid::ConnectionId;
use fq::connection::{Connection, RemoteConnectionId, RemoteConnectionIdStash};
use fq::path::{Path, Tuple};
use fq::quic::CWIN_INITIAL;
use fq::tp::TransportParameters;
use fq::types::{Alpn, CloseReason, Error, InternalError, PacketContext, PathStatus, SocketAddr, State};
use fq::output_queue::enqueue_output_stream_token;
use fq::stream::{compare_stream_priority, StreamHead};
use std::cmp::Ordering;

fn addr(port: u16) -> SocketAddr {
    SocketAddr::V4 { ip4: 0xc0a8_0001, port }
}

fn connection() -> Connection {
    Connection::new(
        ConnectionId::clone_from_slice(&[1, 1, 1, 1]).unwrap(),
        ConnectionId::clone_from_slice(&[2, 2]).unwrap(),
        addr(443),
        TransportParameters::default(),
        10,
        true,
        CWIN_INITIAL,
        1252,
    )
}

fn remote(seq: u64, b: u8) -> RemoteConnectionId {
    RemoteConnectionId {
        sequence: seq,
        connection_id: ConnectionId::clone_from_slice(&[b; 4]).unwrap(),
        reset_secret: [b; 16],
        nb_path_references: 0,
    }
}

#[test]
fn new_connection_state() {
    let c = connection();
    assert_eq!(c.state(), State::ClientInit);
    assert!(c.is_client());
    assert_eq!(c.nb_paths(), 1);
    assert_eq!(c.peer_addr(), addr(443));
    assert_eq!(c.close_reason(), None);
    assert_eq!(c.tls_negotiated_alpn(), Alpn::Undef);
}

#[test]
fn close_reasons_by_priority() {
    let mut c = connection();
    assert_eq!(c.close(42), Ok(()));
    assert_eq!(c.state(), State::Disconnecting);
    assert_eq!(c.close_reason(), Some(CloseReason::LocalApp(42)));
    c.remote_error = 7;
    assert_eq!(c.close_reason(), Some(CloseReason::LocalApp(42)));
    c.local_error = 3;
    assert_eq!(c.close_reason(), Some(CloseReason::Local(3)));
    assert_eq!(c.close_with_reason(5, Some("bye")), Ok(()));
    assert_eq!(c.local_error_reason.as_deref(), Some("bye"));
    c.close_immediate();
    assert_eq!(c.state(), State::Disconnected);
}

#[test]
fn negotiated_alpn_from_bytes() {
    let mut c = connection();
    c.alpn = Some(b"h3".to_vec());
    assert_eq!(c.tls_negotiated_alpn(), Alpn::Http3);
    c.alpn = Some(b"zz".to_vec());
    assert_eq!(c.tls_negotiated_alpn(), Alpn::Undef);
}

#[test]
fn path_status_by_unique_id() {
    let mut c = connection();
    assert_eq!(c.set_path_status(0, PathStatus::Backup), Ok(()));
    assert!(c.path_is_backup(0));
    assert_eq!(c.set_path_status(9, PathStatus::Available), Err(Error::InvalidArgument));
    assert_eq!(c.set_path_status(0, PathStatus::Available), Ok(()));
    assert!(!c.path_is_backup(0));
}

#[test]
fn misc_frames_queue() {
    let mut c = connection();
    assert!(!c.has_misc_frames());
    assert_eq!(c.queue_misc_frame(&[1, 2, 3], false, PacketContext::Application), Ok(()));
    assert!(c.has_misc_frames());
    assert!(c.misc_frames_is_singleton());
    assert_eq!(c.misc_frames[0].bytes, vec![1, 2, 3]);
    c.delete_last_misc_frame();
    assert!(!c.has_misc_frames());
}

#[test]
fn wake_delay_capped() {
    let mut c = connection();
    c.next_wake_time = 1000;
    assert_eq!(c.wake_delay(400, 10_000), 600);
    assert_eq!(c.wake_delay(400, 100), 100);
    assert_eq!(c.wake_delay(2000, 100), 0);
}

#[test]
fn initial_remote_cid_lookup() {
    let mut c = connection();
    // No stash: the empty ID.
    assert!(c.initial_remote_connection_id().is_empty());
    c.remote_connection_id_stashes.push(RemoteConnectionIdStash {
        unique_path_id: 5,
        connection_ids: vec![remote(0, 0xaa)],
    });
    // No stash of path 0: the first entry of the first stash.
    assert_eq!(c.initial_remote_connection_id().as_bytes(), &[0xaa; 4]);
    c.remote_connection_id_stashes.push(RemoteConnectionIdStash {
        unique_path_id: 0,
        connection_ids: vec![remote(0, 0xbb), remote(1, 0xcc)],
    });
    assert_eq!(c.initial_remote_connection_id().as_bytes(), &[0xbb; 4]);
    c.paths[0].tuples[0].remote_connection_id_index = Some(1);
    assert_eq!(c.initial_remote_connection_id().as_bytes(), &[0xcc; 4]);
    c.paths[0].tuples[0].remote_connection_id_index = Some(7);
    assert_eq!(c.initial_remote_connection_id().as_bytes(), &[0xaa; 4]);
    assert_eq!(c.path_remote_cnxid_sequence(0), 0);
}

#[test]
fn second_path() {
    let mut c = connection();
    let t = Tuple::new(addr(8443), addr(9000), 3);
    c.paths.push(Path::new(4, t, CWIN_INITIAL, 1252));
    assert_eq!(c.nb_paths(), 2);
    assert_eq!(c.path_unique_id(1), 4);
    assert_eq!(c.path_peer_addr_by_index(1), addr(8443));
}

#[test]
fn new_path_allowance() {
    let mut c = connection();
    assert_eq!(c.check_new_path_allowed(false), Err(Error::Internal(InternalError::PathNotReady)));
    c.connection_state = State::Ready;
    // No remote ID for a second path, the peer allows no more path ids.
    assert_eq!(c.check_new_path_allowed(false), Err(Error::Internal(InternalError::PathIdBlocked)));
    c.max_path_id_remote = 4;
    assert_eq!(c.check_new_path_allowed(false), Err(Error::Internal(InternalError::PathCidBlocked)));
    let mut used = remote(0, 1);
    used.nb_path_references = 1;
    c.remote_connection_id_stashes.push(RemoteConnectionIdStash { unique_path_id: 0, connection_ids: vec![used] });
    assert_eq!(c.check_new_path_allowed(false), Err(Error::Internal(InternalError::PathCidBlocked)));
    c.remote_connection_id_stashes[0].connection_ids.push(remote(1, 2));
    assert_eq!(c.check_new_path_allowed(false), Ok(()));
    assert_eq!(c.remote_connection_id_stashes[0].get_connection_id_from_stash(), Some(1));
    c.remote_parameters.migration_disabled = true;
    assert_eq!(c.check_new_path_allowed(false), Err(Error::Internal(InternalError::MigrationDisabled)));
    assert_eq!(c.check_new_path_allowed(true), Ok(()));
}

#[test]
fn subscribe_to_new_paths() {
    let mut c = connection();
    c.is_notified_that_path_is_allowed = true;
    assert_eq!(c.subscribe_new_path_allowed(), Ok(false));
    assert!(c.is_subscribed_to_path_allowed);
    assert!(!c.is_notified_that_path_is_allowed);
    c.connection_state = State::Ready;
    c.remote_connection_id_stashes.push(RemoteConnectionIdStash { unique_path_id: 0, connection_ids: vec![remote(0, 1)] });
    assert_eq!(c.subscribe_new_path_allowed(), Ok(true));
    assert!(!c.is_subscribed_to_path_allowed);
    c.local_parameters.migration_disabled = true;
    assert_eq!(c.subscribe_new_path_allowed(), Err(Error::Internal(InternalError::MigrationDisabled)));
}

#[test]
fn stream_priority_order() {
    let a = StreamHead { stream_id: 4, stream_priority: 1 };
    let b = StreamHead { stream_id: 0, stream_priority: 2 };
    let c = StreamHead { stream_id: 8, stream_priority: 1 };
    assert_eq!(compare_stream_priority(&a, &b), Ordering::Less);
    assert_eq!(compare_stream_priority(&b, &a), Ordering::Greater);
    assert_eq!(compare_stream_priority(&a, &c), Ordering::Less);
    assert_eq!(compare_stream_priority(&a, &a), Ordering::Equal);
}

#[test]
fn output_queue_in_serving_order() {
    let mut c = connection();
    c.streams = vec![
        StreamHead { stream_id: 0, stream_priority: 8 },
        StreamHead { stream_id: 4, stream_priority: 2 },
        StreamHead { stream_id: 8, stream_priority: 8 },
        StreamHead { stream_id: 12, stream_priority: 2 },
    ];
    enqueue_output_stream_token(&mut c, 2);
    enqueue_output_stream_token(&mut c, 0);
    enqueue_output_stream_token(&mut c, 3);
    enqueue_output_stream_token(&mut c, 1);
    enqueue_output_stream_token(&mut c, 0);
    assert_eq!(c.output_streams, vec![1, 3, 0, 2]);
    // A token without a stream goes last.
    enqueue_output_stream_token(&mut c, 9);
    assert_eq!(c.output_streams, vec![1, 3, 0, 2, 9]);
}

#[test]
fn path_remote_connection_id_lookup() {
    let mut c = connection();
    assert_eq!(c.path_remote_connection_id(0), None);
    c.remote_connection_id_stashes.push(RemoteConnectionIdStash {
        unique_path_id: 0,
        connection_ids: vec![remote(0, 0xa0), remote(1, 0xa1)],
    });
    // No remote index on the tuple: the first entry.
    assert_eq!(c.path_remote_connection_id(0), Some(ConnectionId::clone_from_slice(&[0xa0; 4]).unwrap()));
    c.paths[0].tuples[0].remote_connection_id_index = Some(1);
    assert_eq!(c.path_remote_connection_id(0), Some(ConnectionId::clone_from_slice(&[0xa1; 4]).unwrap()));
    c.paths[0].tuples[0].remote_connection_id_index = Some(2);
    assert_eq!(c.path_remote_connection_id(0), None);
    assert_eq!(c.path_remote_connection_id(1), None);
}
