use fq::cid::ConnectionId;
use fq::cnx_table::{CidEntry, NetEntry};
use fq::connection::{RemoteConnectionId, RemoteConnectionIdStash};
use fq::quic::Quic;
use fq::tp::TransportParameters;
use fq::types::{Error, SocketAddr};

fn quic() -> Quic {
    Quic::new(8, None, None, None, false, [0; 16], 0, None, Vec::new(), [0; 16], TransportParameters::default())
}

fn peer(port: u16) -> SocketAddr {
    SocketAddr::V4 { ip4: 0x0a00_0009, port }
}

fn add(q: &mut Quic, icid: u8, p: SocketAddr) -> usize {
    q.create_connection(ConnectionId::clone_from_slice(&[icid; 8]).unwrap(), ConnectionId::empty(), p, 0, false)
}

#[test]
fn register_and_unregister_peer_address() {
    let mut q = quic();
    let a = add(&mut q, 1, peer(1000));
    let b = add(&mut q, 2, peer(1000));
    assert_eq!(q.register_net_id(a, 0), Ok(()));
    assert_eq!(q.connection_by_net, vec![NetEntry { addr: peer(1000), cnx: a }]);
    assert!(q.connections[a].paths[0].is_registered_by_net);
    assert_eq!(q.connections[a].paths[0].registered_peer_addr, peer(1000));
    // The same address for another connection is refused.
    assert_eq!(q.register_net_id(b, 0), Err(Error::Generic));
    assert!(!q.connections[b].paths[0].is_registered_by_net);
    // Registering again replaces the earlier registration.
    assert_eq!(q.register_net_id(a, 0), Ok(()));
    assert_eq!(q.connection_by_net.len(), 1);
    q.unregister_net_id(a, 0);
    assert!(q.connection_by_net.is_empty());
    assert!(!q.connections[a].paths[0].is_registered_by_net);
    assert_eq!(q.register_net_id(b, 0), Ok(()));
    assert_eq!(q.connection_by_net, vec![NetEntry { addr: peer(1000), cnx: b }]);
}

#[test]
fn register_net_id_errors() {
    let mut q = quic();
    assert_eq!(q.register_net_id(0, 0), Err(Error::InvalidArgument));
    let a = add(&mut q, 1, SocketAddr::unspecified());
    assert_eq!(q.register_net_id(a, 1), Err(Error::InvalidArgument));
    assert_eq!(q.register_net_id(a, 0), Ok(()));
    assert!(q.connection_by_net.is_empty());
    q.connections[a].paths[0].tuples.clear();
    assert_eq!(q.register_net_id(a, 0), Err(Error::InvalidArgument));
}

#[test]
fn register_initial_cid() {
    let mut q = quic();
    let a = add(&mut q, 1, peer(2000));
    let b = add(&mut q, 1, peer(2000));
    assert_eq!(q.register_net_icid(a), Ok(()));
    assert_eq!(q.connection_by_icid.len(), 1);
    assert!(q.connections[a].is_registered_by_icid);
    assert_eq!(q.register_net_icid(a), Err(Error::Generic));
    assert_eq!(q.register_net_icid(b), Err(Error::Generic));
    q.unregister_net_icid(a);
    assert!(q.connection_by_icid.is_empty());
    assert!(!q.connections[a].is_registered_by_icid);
    assert_eq!(q.register_net_icid(b), Ok(()));
    assert_eq!(q.register_net_icid(7), Err(Error::InvalidArgument));
}

#[test]
fn register_reset_secret() {
    let mut q = quic();
    let a = add(&mut q, 1, peer(3000));
    // No remote ID: the zero secret.
    assert_eq!(q.register_net_secret(a), Ok(()));
    assert_eq!(q.connection_by_secret.len(), 1);
    assert_eq!(q.connection_by_secret[0].secret, [0; 16]);
    q.connections[a].remote_connection_id_stashes.push(RemoteConnectionIdStash {
        unique_path_id: 0,
        connection_ids: vec![RemoteConnectionId {
            sequence: 0,
            connection_id: ConnectionId::clone_from_slice(&[5; 8]).unwrap(),
            reset_secret: [9; 16],
            nb_path_references: 1,
        }],
    });
    assert_eq!(q.register_net_secret(a), Ok(()));
    assert_eq!(q.connection_by_secret.len(), 1);
    assert_eq!(q.connection_by_secret[0].secret, [9; 16]);
    assert_eq!(q.connections[a].registered_reset_secret, [9; 16]);
    q.unregister_net_secret(a);
    assert!(q.connection_by_secret.is_empty());
    assert_eq!(q.connections[a].registered_reset_secret, [0; 16]);
}

#[test]
fn connection_lookups() {
    let mut q = quic();
    assert_eq!(q.first_connection(), None);
    let a = add(&mut q, 1, peer(1));
    let b = add(&mut q, 2, peer(2));
    assert_eq!(q.first_connection(), Some(a));
    assert_eq!(q.next_cnx(a), Some(b));
    assert_eq!(q.next_cnx(b), None);
    let cid = ConnectionId::clone_from_slice(&[7, 7, 7, 7]).unwrap();
    assert!(!q.is_local_cid(&cid));
    q.connection_by_id.push(CidEntry { cid, cnx: b });
    assert!(q.is_local_cid(&cid));
    assert_eq!(q.connection_ref_by_id(cid), Some(b));
    q.connection_by_id.push(CidEntry { cid: ConnectionId::empty(), cnx: 99 });
    assert_eq!(q.connection_ref_by_id(ConnectionId::empty()), None);
    assert_eq!(q.connection_in_progress(), None);
    q.connection_in_progress = Some(a);
    assert_eq!(q.connection_in_progress(), Some(a));
}

#[test]
fn create_local_connection_ids() {
    let mut q = quic();
    assert_eq!(q.create_local_cnxid(0, 0, &[], 5), Err(Error::InvalidArgument));
    let a = add(&mut q, 1, peer(4000));
    let c1 = ConnectionId::clone_from_slice(&[1; 8]).unwrap();
    let c2 = ConnectionId::clone_from_slice(&[2; 8]).unwrap();
    let c3 = ConnectionId::clone_from_slice(&[3; 8]).unwrap();
    let n0 = q.connections[a].local_connection_ids.len();
    assert_eq!(q.create_local_cnxid(a, 0, &[c1], 10), Ok(n0));
    assert_eq!(q.connection_by_id.len(), 1);
    assert_eq!(q.connection_by_id[0].cid, c1);
    assert_eq!(q.connection_by_id[0].cnx, a);
    let e = &q.connections[a].local_connection_ids[n0];
    assert_eq!(e.connection_id, c1);
    assert_eq!(e.create_time, 10);
    assert_eq!(e.path_id, 0);
    assert!(!e.is_acked);
    let s0 = e.sequence;
    // A candidate that is already a local ID is passed over.
    assert_eq!(q.create_local_cnxid(a, 0, &[c1, c2, c3], 11), Ok(n0 + 1));
    assert_eq!(q.connections[a].local_connection_ids[n0 + 1].connection_id, c2);
    assert_eq!(q.connections[a].local_connection_ids[n0 + 1].sequence, s0 + 1);
    assert_eq!(q.connection_by_id.len(), 2);
    // Each issued ID leads back to its connection.
    assert_eq!(q.connection_ref_by_id(c2), Some(a));
    assert_eq!(q.connection_ref_by_id(c1), Some(a));
    assert_eq!(q.connection_ref_by_id(c3), None);
    // Every candidate taken.
    assert_eq!(q.create_local_cnxid(a, 0, &[c1, c2], 12), Err(Error::Generic));
    assert_eq!(q.connection_by_id.len(), 2);
    assert_eq!(q.connections[a].local_connection_ids.len(), n0 + 2);
}

#[test]
fn create_empty_local_connection_id() {
    let mut q = quic();
    assert_eq!(q.set_default_connection_id_length(0), Ok(()));
    let a = add(&mut q, 1, peer(4001));
    let n0 = q.connections[a].local_connection_ids.len();
    assert_eq!(q.create_local_cnxid(a, 0, &[], 3), Ok(n0));
    assert!(q.connection_by_id.is_empty());
    assert_eq!(q.connections[a].local_connection_ids[n0].connection_id, ConnectionId::empty());
}
