use fq::cc::{register_all_congestion_control_algorithms, CongestionAlgorithmRegistry};
use fq::cid::ConnectionId;
use fq::quic::{Quic, DEFAULT_HOLE_PERIOD};
use fq::tp::TransportParameters;
use fq::types::{Error, SocketAddr, SpinbitVersion};

fn quic(max: u32) -> Quic {
    Quic::new(
        max,
        None,
        None,
        Some("hq-interop"),
        false,
        [1; 16],
        1000,
        None,
        vec![2; 8],
        [3; 16],
        TransportParameters::default(),
    )
}

fn peer(port: u16) -> SocketAddr {
    SocketAddr::V4 { ip4: 0x0a00_0002, port }
}

#[test]
fn new_context_defaults() {
    let q = quic(0);
    assert_eq!(q.max_nb_connections(), 1);
    assert_eq!(q.current_number_connections(), 0);
    assert!(q.enforce_client_only);
    assert_eq!(q.default_alpn_string(), Some("hq-interop"));
    assert_eq!(q.local_cid_length(), 8);
    assert_eq!(q.sequence_hole_pseudo_period, DEFAULT_HOLE_PERIOD);
    assert_eq!(q.default_congestion_algorithm_id(), Some("newreno"));
    assert_eq!(q.reset_seed_bytes(), &[1u8; 16]);
    assert_eq!(q.stateless_reset_next_time, 1000);
}

#[test]
fn setters_read_back() {
    let mut q = quic(10);
    q.set_max_simultaneous_logs(7);
    assert_eq!(q.max_simultaneous_logs(), 7);
    q.set_cwin_max(123_456);
    assert_eq!(q.cwin_max(), 123_456);
    q.set_default_crypto_epoch_length(99);
    assert_eq!(q.default_crypto_epoch_length(), 99);
    q.set_default_connection_id_ttl(5);
    assert_eq!(q.default_connection_id_ttl(), 5);
}

#[test]
fn adjust_max_connections_never_above_max() {
    let mut q = quic(10);
    assert_eq!(q.adjust_max_connections(11), Err(Error::InvalidArgument));
    assert_eq!(q.tentative_max_number_connections, 10);
    assert_eq!(q.adjust_max_connections(4), Ok(()));
    assert_eq!(q.tentative_max_number_connections, 4);
}

#[test]
fn cid_length_only_without_connections() {
    let mut q = quic(10);
    assert!(q.set_default_connection_id_length(21).is_err());
    assert_eq!(q.set_default_connection_id_length(4), Ok(()));
    assert_eq!(q.local_cid_length(), 4);
    q.current_number_connections = 1;
    assert!(q.set_default_connection_id_length(6).is_err());
    assert_eq!(q.local_cid_length(), 4);
}

#[test]
fn spinbit_policy_on_is_accepted_as_default() {
    let mut q = quic(10);
    assert_eq!(q.set_default_spinbit_policy(SpinbitVersion::On), Ok(()));
    assert_eq!(q.default_spin_policy, SpinbitVersion::On);
    assert_eq!(q.set_default_spinbit_policy(SpinbitVersion::Null), Ok(()));
    assert_eq!(q.default_spin_policy, SpinbitVersion::Null);
}

#[test]
fn default_tp_value() {
    let mut q = quic(10);
    assert_eq!(q.set_default_tp_value(1, 30_000), Ok(()));
    assert_eq!(q.default_tp().max_idle_timeout, 30_000);
    assert_eq!(q.set_default_tp_value(0xdead, 1), Err(Error::InvalidArgument));
}

#[test]
fn cipher_suites() {
    let mut q = quic(10);
    assert_eq!(q.set_cipher_suite(0), Ok(()));
    assert_eq!(q.set_cipher_suite(0x1301), Ok(()));
    assert_eq!(q.set_cipher_suite(0x9999), Err(Error::InvalidArgument));
}

#[test]
fn congestion_algorithm_by_name() {
    let mut reg = CongestionAlgorithmRegistry::new();
    let mut q = quic(10);
    assert_eq!(q.set_default_congestion_algorithm_by_name("cubic", &reg), Err(Error::InvalidArgument));
    assert_eq!(q.default_congestion_algorithm_id(), Some("newreno"));
    register_all_congestion_control_algorithms(&mut reg);
    assert_eq!(q.set_default_congestion_algorithm_by_name("cubic", &reg), Ok(()));
    assert_eq!(q.default_congestion_algorithm_id(), Some("cubic"));
    assert!(q.default_congestion_alg_option_string.is_none());
}

#[test]
fn wake_times() {
    let mut q = quic(10);
    assert_eq!(q.next_wake_delay(100, 5000), 5000);
    assert_eq!(q.next_wake_time(100), 100);
    assert_eq!(q.earliest_cnx_to_wake(1_000_000), None);
    let a = q.create_connection(ConnectionId::empty(), ConnectionId::empty(), peer(1), 0, true);
    let b = q.create_connection(ConnectionId::empty(), ConnectionId::empty(), peer(2), 0, true);
    let c = q.create_connection(ConnectionId::empty(), ConnectionId::empty(), peer(3), 0, true);
    assert_eq!((a, b, c), (0, 1, 2));
    q.connections[0].next_wake_time = 900;
    q.connections[1].next_wake_time = 300;
    q.connections[2].next_wake_time = 300;
    assert_eq!(q.next_wake_time(0), 300);
    assert_eq!(q.next_wake_delay(100, 5000), 200);
    assert_eq!(q.next_wake_delay(100, 50), 50);
    assert_eq!(q.next_wake_delay(400, 5000), 0);
    // Ties: the first connection with the least wake time.
    assert_eq!(q.earliest_cnx_to_wake(1000), Some(1));
    assert_eq!(q.earliest_cnx_to_wake(299), None);
    // Rescheduled before every other connection: it wakes first.
    q.reinsert_by_wake_time(0, 250);
    assert_eq!(q.connections[0].next_wake_time, 250);
    assert_eq!(q.earliest_cnx_to_wake(250), Some(0));
    assert_eq!(q.next_wake_time(0), 250);
    // No such connection: nothing changes.
    q.reinsert_by_wake_time(7, 1);
    assert_eq!(q.next_wake_time(0), 250);
}

#[test]
fn created_connection_inherits_defaults() {
    let mut q = quic(10);
    q.set_default_padding(64, 128);
    let i = q.create_connection(ConnectionId::empty(), ConnectionId::empty(), peer(9), 55, false);
    let c = &q.connections[i];
    assert!(!c.is_client());
    assert_eq!(c.start_time(), 55);
    assert_eq!(c.padding_multiple, 64);
    assert_eq!(c.padding_minsize, 128);
    assert_eq!(c.peer_addr(), peer(9));
}
