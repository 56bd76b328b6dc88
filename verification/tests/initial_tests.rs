use fq::cid::ConnectionId;
use fq::header::PacketHeader;
use fq::initial::{TokenCheck, ENFORCED_INITIAL_MTU};
use fq::quic::Quic;
use fq::tp::TransportParameters;
use fq::types::{Error, InternalError, SocketAddr};

fn server() -> Quic {
    Quic::new(
        2,
        Some("cert.pem"),
        Some("key.pem"),
        None,
        false,
        [0; 16],
        0,
        None,
        Vec::new(),
        [0; 16],
        TransportParameters::default(),
    )
}

fn header(dcid_len: usize) -> PacketHeader {
    let mut ph = PacketHeader::default();
    ph.dest_connection_id = ConnectionId::clone_from_slice(&vec![3u8; dcid_len]).unwrap();
    ph
}

fn from(port: u16) -> SocketAddr {
    SocketAddr::V4 { ip4: 0xc0a8_0001, port }
}

#[test]
fn initial_shape_checks() {
    let mut q = server();
    assert_eq!(ENFORCED_INITIAL_MTU, 1200);
    assert_eq!(q.screen_initial_shape(1199, &header(8)), Err(Error::Internal(InternalError::InitialTooShort)));
    assert_eq!(q.screen_initial_shape(1200, &header(7)), Err(Error::Internal(InternalError::InitialCidTooShort)));
    assert_eq!(q.screen_initial_shape(1200, &header(8)), Ok(()));
    q.server_busy = true;
    assert_eq!(q.screen_initial_shape(1500, &header(20)), Err(Error::Internal(InternalError::ServerBusy)));
    q.server_busy = false;
    q.current_number_connections = 2;
    assert_eq!(q.screen_initial_shape(1500, &header(20)), Err(Error::Internal(InternalError::ServerBusy)));
}

#[test]
fn client_only_context_refuses_initials() {
    let q = Quic::new(2, None, None, None, false, [0; 16], 0, None, Vec::new(), [0; 16], TransportParameters::default());
    assert_eq!(q.screen_initial_shape(1200, &header(8)), Err(Error::Internal(InternalError::ServerBusy)));
}

#[test]
fn initial_token_decisions() {
    let mut q = server();
    assert_eq!(q.screen_initial_token(TokenCheck::Invalid, &from(4433)), Err(Error::Internal(InternalError::InvalidToken)));
    assert_eq!(q.screen_initial_token(TokenCheck::Absent, &from(4433)), Ok(()));
    // DNS is a blocked source port.
    assert_eq!(q.screen_initial_token(TokenCheck::Absent, &from(53)), Err(Error::Internal(InternalError::RetryNeeded)));
    assert_eq!(q.screen_initial_token(TokenCheck::Valid, &from(53)), Ok(()));
    q.is_port_blocking_disabled = true;
    assert_eq!(q.screen_initial_token(TokenCheck::Absent, &from(53)), Ok(()));
    q.force_check_token = true;
    assert_eq!(q.screen_initial_token(TokenCheck::Absent, &from(4433)), Err(Error::Internal(InternalError::RetryNeeded)));
    q.force_check_token = false;
    q.current_number_half_open = q.max_half_open_before_retry;
    assert_eq!(q.screen_initial_token(TokenCheck::Absent, &from(4433)), Err(Error::Internal(InternalError::RetryNeeded)));
    assert_eq!(q.screen_initial_token(TokenCheck::Valid, &from(4433)), Ok(()));
}
