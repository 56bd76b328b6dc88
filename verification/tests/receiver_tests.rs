use fq::cid::ConnectionId;
use fq::connection::Connection;
use fq::header::{PacketHeader, PacketType};
use fq::quic::Quic;
use fq::cnx_table::SecretEntry;
use fq::path::{Path, Tuple};
use fq::receiver::{
    client_initial_outcome, receive_rate_count, receive_rate_record, ClientInitialRoute, OneRttRoute, SegmentAction, SegmentRoute, TRANSPORT_ERROR_PROTOCOL_VIOLATION,
    TRANSPORT_ERROR_SERVER_BUSY,
};
use fq::tp::TransportParameters;
use fq::types::{InternalError, SocketAddr, State};

fn quic() -> Quic {
    Quic::new(8, None, None, None, false, [0; 16], 0, None, Vec::new(), [0; 16], TransportParameters::default())
}

fn from(port: u16) -> SocketAddr {
    SocketAddr::V4 { ip4: 0x0a00_0002, port }
}

fn header(t: PacketType, dcid: &[u8]) -> PacketHeader {
    let mut ph = PacketHeader::default();
    ph.packet_type = t;
    ph.dest_connection_id = ConnectionId::clone_from_slice(dcid).unwrap();
    ph.payload_length = 40;
    ph
}

#[test]
fn segment_actions() {
    let q = quic();
    let first = ConnectionId::empty();
    let ph = header(PacketType::OneRttProtected, &[1; 8]);
    let d = q.segment_disposition(Ok(()), &ph, 1200, &first, Some(0), &from(4433), false);
    assert!(d.is_first_segment);
    assert_eq!(d.action, SegmentAction::Dispatch(PacketType::OneRttProtected));
    assert_eq!(d.status, Ok(()));
    // Reserved bits set, or an empty payload: a protocol violation.
    let d = q.segment_disposition(Ok(()), &ph, 1200, &first, Some(0), &from(4433), true);
    assert_eq!(d.action, SegmentAction::ProtocolViolation);
    // A later segment for another connection ID does not belong here.
    let prev = ConnectionId::clone_from_slice(&[2; 8]).unwrap();
    let d = q.segment_disposition(Ok(()), &ph, 1200, &prev, Some(0), &from(4433), false);
    assert!(!d.is_first_segment);
    assert_eq!(d.status, Err(InternalError::CnxidSegment));
    assert_eq!(d.action, SegmentAction::Drop);
    // Unsupported version: answered only in a full-size datagram from an
    // unblocked port.
    let init = header(PacketType::Initial, &[3; 8]);
    let vn = Err(InternalError::VersionNotSupported);
    assert_eq!(q.segment_disposition(vn, &init, 1200, &first, None, &from(4433), false).action, SegmentAction::QueueVersionNegotiation);
    assert_eq!(q.segment_disposition(vn, &init, 1199, &first, None, &from(4433), false).action, SegmentAction::Drop);
    assert_eq!(q.segment_disposition(vn, &init, 1200, &first, None, &from(53), false).action, SegmentAction::Drop);
    assert_eq!(q.segment_disposition(Err(InternalError::RetryNeeded), &init, 1250, &first, None, &from(4433), false).action, SegmentAction::QueueRetry);
    assert_eq!(q.segment_disposition(Err(InternalError::ServerBusy), &init, 1250, &first, None, &from(4433), false).action, SegmentAction::QueueBusy);
    // A good packet without a connection is answered and detected.
    let d = q.segment_disposition(Ok(()), &init, 1200, &first, None, &from(4433), false);
    assert_eq!(d.action, SegmentAction::QueueVersionNegotiation);
    assert_eq!(d.status, Err(InternalError::Detected));
    assert_eq!(q.segment_disposition(Err(InternalError::StatelessReset), &ph, 60, &first, Some(0), &from(4433), false).action, SegmentAction::StatelessReset);
}

fn connection(client: bool) -> Connection {
    Connection::new(
        ConnectionId::clone_from_slice(&[9; 8]).unwrap(),
        ConnectionId::empty(),
        from(443),
        TransportParameters::default(),
        0,
        client,
        15360,
        1252,
    )
}

#[test]
fn one_rtt_admission() {
    let mut c = connection(true);
    assert_eq!(c.incoming_1rtt_admission(0), Err(InternalError::UnexpectedPacket));
    c.connection_state = State::Ready;
    assert_eq!(c.incoming_1rtt_admission(0), Ok(OneRttRoute::Frames));
    assert_eq!(c.incoming_1rtt_admission(1), Err(InternalError::UnexpectedPacket));
    c.connection_state = State::Closing;
    assert_eq!(c.incoming_1rtt_admission(5), Ok(OneRttRoute::ClosingFrames));
    c.connection_state = State::Draining;
    assert_eq!(c.incoming_1rtt_admission(0), Err(InternalError::UnexpectedPacket));
    c.connection_state = State::Disconnected;
    assert_eq!(c.incoming_1rtt_admission(0), Err(InternalError::UnexpectedPacket));
}

#[test]
fn client_initial_admission_and_outcome() {
    let mut s = connection(false);
    assert_eq!(s.screen_client_initial(true), ClientInitialRoute::Refused(TRANSPORT_ERROR_SERVER_BUSY));
    assert_eq!(s.connection_state, State::HandshakeFailure);
    assert_eq!(s.local_error, TRANSPORT_ERROR_SERVER_BUSY);
    let mut s = Connection::new(ConnectionId::clone_from_slice(&[9; 4]).unwrap(), ConnectionId::empty(), from(443), TransportParameters::default(), 0, false, 15360, 1252);
    assert_eq!(s.screen_client_initial(false), ClientInitialRoute::Refused(TRANSPORT_ERROR_PROTOCOL_VIOLATION));
    let mut s = connection(false);
    assert_eq!(s.screen_client_initial(false), ClientInitialRoute::Decode);
    s.connection_state = State::ServerAlmostReady;
    assert_eq!(s.screen_client_initial(true), ClientInitialRoute::IgnoreHandshake);
    s.connection_state = State::Ready;
    assert_eq!(s.screen_client_initial(false), ClientInitialRoute::Unexpected);

    let o = client_initial_outcome(Err(InternalError::InvalidToken), State::HandshakeFailure, true);
    assert_eq!(o.status, Ok(()));
    assert!(o.queue_close && !o.delete_connection);
    let o = client_initial_outcome(Err(InternalError::AeadCheck), State::ServerInit, true);
    assert!(o.delete_connection);
    assert_eq!(o.status, Err(InternalError::ConnectionDeleted));
    let o = client_initial_outcome(Err(InternalError::AeadCheck), State::ServerInit, false);
    assert!(!o.delete_connection);
    assert_eq!(o.status, Err(InternalError::AeadCheck));
    let o = client_initial_outcome(Ok(()), State::Disconnected, true);
    assert!(o.delete_connection);
}

#[test]
fn segment_routes() {
    let mut q = quic();
    let raw = vec![0x40u8; 100];
    let addr = from(4433);
    // Version negotiation takes every byte that may be parsed.
    let vn = header(PacketType::VersionNegotiation, &[1; 8]);
    let r = q.segment_route(&raw, 80, Ok(None), &vn, &addr);
    assert_eq!(r.route, Ok(SegmentRoute::Raw));
    assert_eq!(r.consumed, 80);
    let r = q.segment_route(&raw, 500, Ok(None), &vn, &addr);
    assert_eq!(r.consumed, 100);
    // A header error is passed on and takes nothing.
    let r = q.segment_route(&raw, 100, Err(InternalError::PacketWrongVersion), &vn, &addr);
    assert_eq!(r.route, Err(InternalError::PacketWrongVersion));
    assert_eq!(r.consumed, 0);
    // Header and payload running past the bytes.
    let mut ph = header(PacketType::Handshake, &[1; 8]);
    ph.offset = 20;
    ph.payload_length = 81;
    let r = q.segment_route(&raw, 100, Ok(Some(3)), &ph, &addr);
    assert_eq!(r.route, Err(InternalError::PacketHeaderParsing));
    assert_eq!(r.consumed, 0);
    ph.payload_length = usize::MAX;
    assert_eq!(q.segment_route(&raw, 100, Ok(Some(3)), &ph, &addr).route, Err(InternalError::PacketHeaderParsing));
    ph.payload_length = 60;
    let r = q.segment_route(&raw, 100, Ok(Some(3)), &ph, &addr);
    assert_eq!(r.route, Ok(SegmentRoute::DecryptExisting(3)));
    assert_eq!(r.consumed, 80);
    let mut init = header(PacketType::Initial, &[1; 8]);
    init.offset = 20;
    let r = q.segment_route(&raw, 100, Ok(None), &init, &addr);
    assert_eq!(r.route, Ok(SegmentRoute::ScreenInitial));
    assert_eq!(r.consumed, 60);
    // A short packet with no connection: a reset if its last 16 bytes are
    // a registered secret.
    let mut one = header(PacketType::OneRttProtected, &[1; 8]);
    one.offset = 9;
    one.payload_length = 91;
    assert_eq!(q.segment_route(&raw, 100, Ok(None), &one, &addr).route, Err(InternalError::UnexpectedPacket));
    q.connection_by_secret.push(SecretEntry { secret: [0x40; 16], addr, cnx: 5 });
    let r = q.segment_route(&raw, 100, Ok(None), &one, &addr);
    assert_eq!(r.route, Ok(SegmentRoute::StatelessReset(5)));
    assert_eq!(r.consumed, 100);
    // From another address, or too short to hold a reset, it is unexpected.
    assert_eq!(q.segment_route(&raw, 100, Ok(None), &one, &from(4434)).route, Err(InternalError::UnexpectedPacket));
    let mut short = header(PacketType::OneRttProtected, &[1; 8]);
    short.offset = 9;
    short.payload_length = 29;
    assert_eq!(q.segment_route(&raw, 38, Ok(None), &short, &addr).route, Err(InternalError::UnexpectedPacket));
}

#[test]
fn receive_rate_samples() {
    let mut p = Path::new(0, Tuple::new(from(443), SocketAddr::unspecified(), 0), 15360, 1252);
    p.smoothed_rtt = 50_000;
    // The first packet starts a sample.
    assert_eq!(receive_rate_count(&mut p, 1200, 1_000_000, 100_000), None);
    assert_eq!(p.received, 1200);
    assert_eq!(p.received_prior, 1200);
    assert_eq!(p.receive_rate_epoch, 1_000_000);
    // Not yet longer than the minimum interval.
    assert_eq!(receive_rate_count(&mut p, 1200, 1_090_000, 100_000), None);
    assert_eq!(p.received, 2400);
    // Longer than both the smoothed RTT and the minimum interval: due.
    assert_eq!(receive_rate_count(&mut p, 1200, 1_200_000, 100_000), Some((2400, 200_000)));
    assert!(receive_rate_record(&mut p, 12_000, 1_200_000, true));
    assert_eq!(p.receive_rate_estimate, 12_000);
    assert_eq!(p.receive_rate_max, 12_000);
    assert_eq!(p.received_prior, 3600);
    assert_eq!(p.receive_rate_epoch, 1_200_000);
    // A lower rate keeps the maximum and asks for nothing.
    assert!(!receive_rate_record(&mut p, 9_000, 1_500_000, true));
    assert_eq!(p.receive_rate_estimate, 9_000);
    assert_eq!(p.receive_rate_max, 12_000);
    // A higher one on a path that does not tune the ACK frequency.
    assert!(!receive_rate_record(&mut p, 20_000, 1_800_000, false));
    assert_eq!(p.receive_rate_max, 20_000);
    // A longer smoothed RTT holds the sample back.
    p.smoothed_rtt = 1_000_000;
    assert_eq!(receive_rate_count(&mut p, 100, 2_500_000, 100_000), None);
    // The count saturates.
    p.received = u64::MAX - 10;
    receive_rate_count(&mut p, 100, 2_600_000, 100_000);
    assert_eq!(p.received, u64::MAX);
}
