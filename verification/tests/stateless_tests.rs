use fq::cid::ConnectionId;
use fq::header::{PacketHeader, PacketType, QUIC_V1_VERSION, QUIC_V2_DRAFT_VERSION, QUIC_V2_VERSION};
use fq::quic::Quic;
use fq::stateless::{offered_versions, version_negotiation_packet_bytes, OfferedVersions, StatelessPacket};
use fq::tp::TransportParameters;
use fq::types::{Error, InternalError, SocketAddr, State};

fn quic() -> Quic {
    Quic::new(8, None, None, None, false, [0; 16], 0, None, Vec::new(), [0; 16], TransportParameters::default())
}

fn cid(b: &[u8]) -> ConnectionId {
    ConnectionId::clone_from_slice(b).unwrap()
}

fn addr(port: u16) -> SocketAddr {
    SocketAddr::V4 { ip4: 0x7f00_0001, port }
}

fn packet(bytes: Vec<u8>, port: u16) -> StatelessPacket {
    StatelessPacket {
        bytes,
        packet_type: PacketType::Retry,
        addr_to: addr(port),
        addr_local: addr(1),
        if_index_local: 3,
        connection_id_log64: 0,
        initial_connection_id: cid(&[5, 5]),
    }
}

#[test]
fn version_negotiation_packet_layout() {
    let mut ph = PacketHeader::default();
    ph.dest_connection_id = cid(&[1, 2, 3]);
    ph.src_connection_id = cid(&[9, 8]);
    let b = version_negotiation_packet_bytes(&ph);
    assert_eq!(
        b,
        vec![
            0x80, 0, 0, 0, 0, 2, 9, 8, 3, 1, 2, 3, 0, 0, 0, 1, 0x6b, 0x33, 0x43, 0xcf, 0x70, 0x9a, 0x50, 0xc4
        ]
    );
}

#[test]
fn queue_version_negotiation_packet_addresses() {
    let mut q = quic();
    let mut ph = PacketHeader::default();
    ph.dest_connection_id = cid(&[1, 2, 3, 4, 5, 6, 7, 8]);
    ph.src_connection_id = cid(&[9]);
    q.queue_version_negotiation_packet(&addr(4433), &addr(5555), 2, &ph);
    assert_eq!(q.pending_stateless_packets.len(), 1);
    let sp = &q.pending_stateless_packets[0];
    assert_eq!(sp.packet_type, PacketType::VersionNegotiation);
    assert_eq!(sp.addr_to, addr(4433));
    assert_eq!(sp.addr_local, addr(5555));
    assert_eq!(sp.if_index_local, 2);
    assert_eq!(sp.connection_id_log64, 0x0102_0304_0506_0708);
    assert_eq!(sp.bytes.len(), 5 + 2 + 8 + 1 + 12);
    assert_eq!(sp.initial_connection_id, ConnectionId::empty());
}

#[test]
fn stateless_packets_leave_in_order() {
    let mut q = quic();
    assert!(q.dequeue_stateless_packet().is_none());
    q.queue_stateless_packet(packet(vec![1], 10));
    q.queue_stateless_packet(packet(vec![2], 20));
    assert_eq!(q.dequeue_stateless_packet().unwrap().bytes, vec![1]);
    q.queue_stateless_packet(packet(vec![3], 30));
    assert_eq!(q.dequeue_stateless_packet().unwrap().bytes, vec![2]);
    assert_eq!(q.dequeue_stateless_packet().unwrap().bytes, vec![3]);
    assert!(q.dequeue_stateless_packet().is_none());
}

#[test]
fn prepare_stateless_packet_copies_and_drops() {
    let mut q = quic();
    let mut buf = [0xeeu8; 4];
    assert!(q.prepare_stateless_packet(&mut buf).is_none());
    q.queue_stateless_packet(packet(vec![1, 2, 3], 10));
    q.queue_stateless_packet(packet(vec![1, 2, 3, 4, 5], 20));
    let p = q.prepare_stateless_packet(&mut buf).unwrap();
    assert_eq!(buf, [1, 2, 3, 0xee]);
    assert_eq!(p.send_length, 3);
    assert_eq!(p.addr_to, addr(10));
    assert_eq!(p.addr_from, addr(1));
    assert_eq!(p.if_index, 3);
    assert_eq!(p.log_cid, cid(&[5, 5]));
    assert_eq!(p.last_connection, None);
    // Too long for the buffer: dropped, nothing sent.
    let p = q.prepare_stateless_packet(&mut buf).unwrap();
    assert_eq!(p.send_length, 0);
    assert_eq!(p.if_index, -1);
    assert_eq!(p.addr_to, SocketAddr::unspecified());
    assert_eq!(buf, [1, 2, 3, 0xee]);
    assert!(q.pending_stateless_packets.is_empty());
}

#[test]
fn offered_versions_scan() {
    let table = [QUIC_V1_VERSION, QUIC_V2_VERSION];
    let list = [0xaa, 0, 0, 0, 0x07, 0x6b, 0x33, 0x43, 0xcf, 0, 0, 0, 1, 9];
    assert_eq!(offered_versions(&list, 1, 7, &table), OfferedVersions::Spoofed);
    assert_eq!(offered_versions(&list, 1, 0x55, &table), OfferedVersions::Supported(QUIC_V2_VERSION));
    // The proposed version after a supported one is never reached.
    assert_eq!(offered_versions(&list, 1, 1, &table), OfferedVersions::Supported(QUIC_V2_VERSION));
    assert_eq!(offered_versions(&list, 1, 0x55, &[QUIC_V2_DRAFT_VERSION]), OfferedVersions::Unsupported);
    assert_eq!(offered_versions(&list, 40, 7, &table), OfferedVersions::Unsupported);
    // A partial entry at the end is not read.
    assert_eq!(offered_versions(&[0, 0, 1], 0, 7, &table), OfferedVersions::Unsupported);
}

fn client(q: &mut Quic) -> (usize, ConnectionId) {
    let icid = cid(&[4, 4, 4, 4]);
    let a = q.create_connection(icid, ConnectionId::empty(), addr(443), 0, true);
    let local = cid(&[6; 8]);
    let tok = q.create_local_cnxid(a, 0, &[local], 0).unwrap();
    q.connections[a].paths[0].tuples[0].local_connection_id = Some(tok);
    q.connections[a].connection_state = State::ClientInitSent;
    q.connections[a].proposed_version = 0x0a0a_0a0a;
    (a, local)
}

fn vn_header(dcid: ConnectionId, scid: ConnectionId) -> PacketHeader {
    let mut ph = PacketHeader::default();
    ph.version = 0;
    ph.dest_connection_id = dcid;
    ph.src_connection_id = scid;
    ph.offset = 0;
    ph
}

#[test]
fn incoming_version_negotiation_outcomes() {
    let table = [QUIC_V1_VERSION, QUIC_V2_VERSION];
    let mut q = quic();
    let ph0 = vn_header(ConnectionId::empty(), ConnectionId::empty());
    assert_eq!(
        q.incoming_version_negotiation(0, &[], &ph0, &table),
        Err(Error::Internal(InternalError::UnexpectedPacket))
    );
    let (a, local) = client(&mut q);
    let icid = cid(&[4, 4, 4, 4]);
    let ph = vn_header(local, icid);
    // The proposed version listed: forged.
    assert_eq!(
        q.incoming_version_negotiation(a, &[0x0a, 0x0a, 0x0a, 0x0a, 0, 0, 0, 1], &ph, &table),
        Err(Error::Internal(InternalError::VersionNegotiationSpoofed))
    );
    assert_eq!(
        q.incoming_version_negotiation(a, &[0xff, 0, 0, 0x1d], &ph, &table),
        Err(Error::Internal(InternalError::VersionNotSupported))
    );
    // Not an answer to this client's first packet.
    let wrong = vn_header(cid(&[7; 8]), icid);
    assert_eq!(
        q.incoming_version_negotiation(a, &[0, 0, 0, 1], &wrong, &table),
        Err(Error::Internal(InternalError::Detected))
    );
    assert_eq!(q.connections[a].connection_state, State::ClientInitSent);
    assert_eq!(
        q.incoming_version_negotiation(a, &[0xff, 0, 0, 0x1d, 0x6b, 0x33, 0x43, 0xcf, 0, 0, 0, 1], &ph, &table),
        Err(Error::Internal(InternalError::VersionNegotiation))
    );
    assert_eq!(q.connections[a].connection_state, State::ClientRenegotiate);
    assert_eq!(q.connections[a].desired_version, QUIC_V2_VERSION);
    // Once renegotiating, a further one is ignored.
    assert_eq!(q.incoming_version_negotiation(a, &[0, 0, 0, 1], &ph, &table), Ok(()));
    assert_eq!(q.connections[a].desired_version, QUIC_V2_VERSION);
}

#[test]
fn reply_of_this_stack_leads_to_version_one() {
    let mut q = quic();
    let (a, local) = client(&mut q);
    let icid = cid(&[4, 4, 4, 4]);
    // The client's Initial went from `local` to `icid`; the reply swaps them.
    let mut sent = PacketHeader::default();
    sent.dest_connection_id = icid;
    sent.src_connection_id = local;
    let bytes = version_negotiation_packet_bytes(&sent);
    let mut ph = vn_header(local, icid);
    ph.offset = 7 + 4 + 8;
    assert_eq!(
        q.incoming_version_negotiation(a, &bytes, &ph, &[QUIC_V1_VERSION]),
        Err(Error::Internal(InternalError::VersionNegotiation))
    );
    assert_eq!(q.connections[a].desired_version, QUIC_V1_VERSION);
}

#[test]
fn silent_drop_statuses() {
    assert!(Quic::is_silent_drop_status(InternalError::AeadCheck));
    assert!(Quic::is_silent_drop_status(InternalError::Duplicate));
    assert!(!Quic::is_silent_drop_status(InternalError::VersionNegotiation));
    assert!(!Quic::is_silent_drop_status(InternalError::PathNotReady));
    assert!(Quic::silent_drop_status_returns_zero(InternalError::Retry));
    assert!(!Quic::silent_drop_status_returns_zero(InternalError::Duplicate));
}
