use fq::cid::ConnectionId;
use fq::siphash::siphash;
use fq::tp::{set_tp_value_by_type, TransportParameters};
use fq::types::{
    check_addr_blocked, check_port_blocked, fourcc, is_handshake_error, mtu_overhead, Alpn, Error, SocketAddr,
};

#[test]
fn fourcc_little_endian() {
    assert_eq!(fourcc(b'a', b'b', b'c', b'd'), 0x6463_6261);
}

#[test]
fn handshake_error_range() {
    assert!(is_handshake_error(0x100));
    assert!(is_handshake_error(0x1ff));
    assert!(!is_handshake_error(0xff));
    assert!(!is_handshake_error(0x200));
}

#[test]
fn blocked_ports() {
    assert!(check_port_blocked(53));
    assert!(check_port_blocked(0));
    assert!(check_port_blocked(27015));
    assert!(!check_port_blocked(443));
    assert!(check_addr_blocked(&SocketAddr::V4 { ip4: 1, port: 123 }));
    assert!(!check_addr_blocked(&SocketAddr::V6 { ip6: 1, port: 4433 }));
}

#[test]
fn overhead_by_family() {
    assert_eq!(mtu_overhead(&SocketAddr::V4 { ip4: 0, port: 0 }), 28);
    assert_eq!(mtu_overhead(&SocketAddr::V6 { ip6: 0, port: 0 }), 48);
}

#[test]
fn alpn_roundtrip() {
    for a in [Alpn::Http0_9, Alpn::Http3, Alpn::Quicperf] {
        assert_eq!(Alpn::from_str(a.as_str().unwrap()), Ok(a));
    }
    assert_eq!(Alpn::Http3.as_str(), Some("h3"));
    assert_eq!(Alpn::from_bytes(b"perf"), Ok(Alpn::Quicperf));
    assert_eq!(Alpn::from_str("hq-interop"), Ok(Alpn::Http0_9));
    assert_eq!(Alpn::from_str("h2"), Err(()));
    assert_eq!(Alpn::Undef.as_str(), None);
    assert_eq!(Alpn::from_bytes(b"h2"), Err(()));
}

#[test]
fn connection_id_roundtrip() {
    let c = ConnectionId::clone_from_slice(&[1, 2, 3]).unwrap();
    assert_eq!(c.as_bytes(), &[1, 2, 3]);
    assert_eq!(c.len(), 3);
    assert!(!c.is_empty());
    assert!(ConnectionId::clone_from_slice(&[0; 21]).is_none());
    assert!(ConnectionId::clone_from_slice(&[0; 20]).is_some());
    assert!(ConnectionId::empty().is_empty());
    assert_eq!(ConnectionId::with_size(5).unwrap().as_bytes(), &[0; 5]);
    assert!(ConnectionId::with_size(21).is_none());
}

#[test]
fn connection_id_equality_by_bytes() {
    let a = ConnectionId::clone_from_slice(&[9, 8, 7]).unwrap();
    let b = ConnectionId::clone_from_slice(&[9, 8, 7]).unwrap();
    let c = ConnectionId::clone_from_slice(&[9, 8]).unwrap();
    assert!(a.same_as(&b));
    assert!(!a.same_as(&c));
    assert_eq!(a, b);
}

#[test]
fn connection_id_val64() {
    let c = ConnectionId::clone_from_slice(&[1, 2, 3, 4, 5, 6, 7, 8, 9]).unwrap();
    assert_eq!(c.val64(), 0x0102_0304_0506_0708);
    let d = ConnectionId::clone_from_slice(&[0xff]).unwrap();
    assert_eq!(d.val64(), 0xff00_0000_0000_0000);
}

#[test]
fn siphash_reference_vectors() {
    // SipHash-2-4 reference: key 00..0f, messages 00..(n-1).
    let key: [u8; 16] = [0, 1, 2, 3, 4, 5, 6, 7, 8, 9, 10, 11, 12, 13, 14, 15];
    assert_eq!(siphash(&[], &key), 0x726f_db47_dd0e_0e31);
    let msg: Vec<u8> = (0u8..15).collect();
    assert_eq!(siphash(&msg, &key), 0xa129_ca61_49be_45e5);
    let msg8: Vec<u8> = (0u8..8).collect();
    assert_eq!(siphash(&msg8, &key), 0x93f5_f579_9a93_2462);
    assert_eq!(siphash(&[0], &key), 0x74f8_39c5_93dc_67fd);
    assert_eq!(siphash(&[0, 1], &key), 0x0d6c_8009_d9a9_4f5a);
}

#[test]
fn cid_hash_uses_siphash() {
    let key = [7u8; 16];
    let c = ConnectionId::clone_from_slice(&[1, 2, 3, 4]).unwrap();
    assert_eq!(c.hash_with_seed(&key), siphash(&[1, 2, 3, 4], &key));
    let other = [8u8; 16];
    assert_ne!(c.hash_with_seed(&key), c.hash_with_seed(&other));
}

#[test]
fn tp_set_by_type() {
    let mut tp = TransportParameters::default();
    assert_eq!(set_tp_value_by_type(&mut tp, 1, 30_000), Ok(()));
    assert_eq!(tp.max_idle_timeout, 30_000);
    assert_eq!(set_tp_value_by_type(&mut tp, 4, 1 << 20), Ok(()));
    assert_eq!(tp.initial_max_data, 1 << 20);
    assert_eq!(set_tp_value_by_type(&mut tp, 2, 5), Err(Error::InvalidArgument));
    assert_eq!(tp.max_idle_timeout, 30_000);
}
