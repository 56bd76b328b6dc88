use fq::cid::ConnectionId;
use fq::connection::Connection;
use fq::header::PacketHeader;
use fq::quic::CWIN_INITIAL;
use fq::random::{public_random_64, PublicRandomState};
use fq::spinbit::{picoquic_spinbit_random_outgoing, BasicSpinBit, NullSpinBit, RandomSpinBit};
use fq::tp::TransportParameters;
use fq::types::SocketAddr;

fn connection(client: bool) -> Connection {
    Connection::new(
        ConnectionId::empty(),
        ConnectionId::empty(),
        SocketAddr::V4 { ip4: 1, port: 2 },
        TransportParameters::default(),
        0,
        client,
        CWIN_INITIAL,
        1252,
    )
}

#[test]
fn basic_server_reflects_client_inverts() {
    for (client, spin, expected) in [(false, true, 0x20u8), (false, false, 0), (true, true, 0), (true, false, 0x20)] {
        let mut c = connection(client);
        let mut ph = PacketHeader::default();
        ph.spin = spin;
        let mut p = std::mem::replace(&mut c.paths[0], fq::path::Path::new(0, fq::path::Tuple::new(SocketAddr::unspecified(), SocketAddr::unspecified(), 0), 0, 0));
        BasicSpinBit.incoming(&c, &mut p, &ph);
        c.paths[0] = p;
        assert_eq!(BasicSpinBit.outgoing(&c), expected);
    }
}

#[test]
fn null_policy() {
    let c = connection(true);
    let mut p = fq::path::Path::new(0, fq::path::Tuple::new(SocketAddr::unspecified(), SocketAddr::unspecified(), 0), 0, 0);
    let mut ph = PacketHeader::default();
    ph.spin = true;
    NullSpinBit.incoming(&c, &mut p, &ph);
    assert!(!p.current_spin);
    assert_eq!(NullSpinBit.outgoing(&c), 0);
}

#[test]
fn random_policy_uses_bit_five_of_stream() {
    let c = connection(true);
    let mut a = PublicRandomState::new();
    let mut b = PublicRandomState::new();
    for _ in 0..20 {
        let r = picoquic_spinbit_random_outgoing(&c, &mut a);
        let x = public_random_64(&mut b);
        assert_eq!(r, (x as u8) & 0x20);
        assert_eq!(r & !0x20, 0);
    }
    let r2 = RandomSpinBit.outgoing(&c, &mut a);
    assert_eq!(r2 & !0x20, 0);
}
