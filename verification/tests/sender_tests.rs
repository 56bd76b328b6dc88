use fq::cid::ConnectionId;
use fq::header::PacketType;
use fq::quic::Quic;
use fq::sender::{
    check_send_buffer, coalesce_step, initial_padding, NextSend, PreparedCnxPacket, SegmentResult,
};
use fq::stateless::StatelessPacket;
use fq::tp::TransportParameters;
use fq::types::{Error, InternalError, SocketAddr, State};

fn quic() -> Quic {
    Quic::new(8, None, None, None, false, [0; 16], 0, None, Vec::new(), [0; 16], TransportParameters::default())
}

fn addr(port: u16) -> SocketAddr {
    SocketAddr::V4 { ip4: 0x0a00_0001, port }
}

#[test]
fn stateless_packets_go_first() {
    let mut q = quic();
    let a = q.create_connection(ConnectionId::clone_from_slice(&[1; 4]).unwrap(), ConnectionId::empty(), addr(1), 0, true);
    q.connections[a].next_wake_time = 0;
    q.queue_stateless_packet(StatelessPacket {
        bytes: vec![1, 2, 3],
        packet_type: PacketType::VersionNegotiation,
        addr_to: addr(9),
        addr_local: addr(10),
        if_index_local: 2,
        connection_id_log64: 0,
        initial_connection_id: ConnectionId::empty(),
    });
    let mut buf = [0u8; 8];
    match q.prepare_next_packet_start(100, &mut buf) {
        NextSend::Packet(p) => {
            assert_eq!(p.send_length, 3);
            assert_eq!(p.addr_to, addr(9));
        },
        NextSend::Connection(_) => panic!("a stateless packet waits"),
    }
    assert_eq!(&buf[..3], &[1, 2, 3]);
    // Then the connection that is due.
    assert!(matches!(q.prepare_next_packet_start(100, &mut buf), NextSend::Connection(0)));
    // Nothing due yet: nothing to send.
    q.connections[a].next_wake_time = 500;
    match q.prepare_next_packet_start(100, &mut buf) {
        NextSend::Packet(p) => {
            assert_eq!(p.send_length, 0);
            assert_eq!(p.if_index, -1);
        },
        NextSend::Connection(_) => panic!("no connection is due"),
    }
}

#[test]
fn connection_answers() {
    let mut q = quic();
    let icid = ConnectionId::clone_from_slice(&[7; 8]).unwrap();
    let c = q.create_connection(icid, ConnectionId::empty(), addr(1), 0, true);
    let s = q.create_connection(icid, ConnectionId::empty(), addr(2), 0, false);
    q.connections[c].paths[0].tuples[0].if_index = 5;
    let ok = PreparedCnxPacket { send_length: 1200, addr_to: addr(1), addr_from: addr(3), if_index: -1, send_msg_size: None };
    let (r, del) = q.after_connection_prepare(c, Ok(ok));
    let p = r.unwrap();
    assert_eq!(del, None);
    assert_eq!(p.send_length, 1200);
    assert_eq!(p.if_index, 5);
    assert_eq!(p.log_cid, icid);
    assert_eq!(p.last_connection, Some(c));
    // A disconnected client sleeps for ever; a server connection goes.
    let (r, del) = q.after_connection_prepare(c, Err(Error::Disconnected));
    assert_eq!(r.unwrap().send_length, 0);
    assert_eq!(del, None);
    assert_eq!(q.connections[c].next_wake_time, u64::MAX);
    let (_, del) = q.after_connection_prepare(s, Err(Error::Disconnected));
    assert_eq!(del, Some(s));
    let (r, _) = q.after_connection_prepare(s, Err(Error::Memory));
    assert_eq!(r.unwrap_err(), Error::Memory);
}

#[test]
fn datagram_building() {
    assert_eq!(check_send_buffer(1199), Err(InternalError::SendBufferTooSmall));
    assert_eq!(check_send_buffer(1200), Ok(()));
    let seg = SegmentResult::Formatted { segment_length: 400, packet_length: 380, is_one_rtt: false };
    assert_eq!(coalesce_step(0, 1500, seg, false), (400, true, false));
    let one_rtt = SegmentResult::Formatted { segment_length: 600, packet_length: 580, is_one_rtt: true };
    assert_eq!(coalesce_step(400, 1500, one_rtt, false), (1000, false, false));
    assert_eq!(coalesce_step(400, 1500, SegmentResult::Failed, false), (400, false, false));
    assert_eq!(coalesce_step(0, 1500, SegmentResult::Failed, false), (0, false, true));
    assert_eq!(initial_padding(400, 1500, true, State::ClientInitSent), 1500);
    assert_eq!(initial_padding(400, 1500, true, State::Ready), 400);
    assert_eq!(initial_padding(1300, 1500, true, State::ClientInitSent), 1300);
}
