//! Registration of connections in the context's lookup tables: a path by
//! its peer address, a connection by its initial connection ID, and by
//! the stateless-reset secret of its peer.  Each registration is recorded
//! both in the table and on the path or connection, so that it can be
//! undone.

use vstd::prelude::*;
use crate::cid::ConnectionId;
use crate::cnx_table::{
    cid_find, cid_lookup, icid_find, icid_lookup, law_cid_insert_then_find, law_net_insert_then_find, law_net_remove_forgets, lemma_net_find,
    net_find, net_keys_unique, net_lookup, secret_find, secret_lookup, CidEntry, IcidEntry, NetEntry, SecretEntry,
};
use crate::connection::{next_local_cid_sequence, stash_index_from, Connection};
use crate::path::Path;
use crate::quic::Quic;
use crate::types::{spec_addr_is_unspecified, spec_unspecified_addr, Error, Instant, SocketAddr};

verus! {

/// `new` is `old` with the registration of path `pi` of connection `ci`
/// set to `addr` and `reg`.
pub open spec fn net_reg_update(old: Seq<Connection>, new: Seq<Connection>, ci: int, pi: int, addr: SocketAddr, reg: bool) -> bool {
    &&& new.len() == old.len()
    &&& forall|j: int| 0 <= j < old.len() && j != ci ==> #[trigger] new[j] == old[j]
    &&& new[ci].paths@ == old[ci].paths@.update(
        pi,
        Path { registered_peer_addr: addr, is_registered_by_net: reg, ..old[ci].paths@[pi] },
    )
    &&& new[ci] == Connection { paths: new[ci].paths, ..old[ci] }
}

/// `new` is `old` with the initial-ID registration of connection `ci` set.
pub open spec fn icid_reg_update(old: Seq<Connection>, new: Seq<Connection>, ci: int, addr: SocketAddr, reg: bool) -> bool {
    &&& new.len() == old.len()
    &&& forall|j: int| 0 <= j < old.len() && j != ci ==> #[trigger] new[j] == old[j]
    &&& new[ci] == Connection { registered_icid_addr: addr, is_registered_by_icid: reg, ..old[ci] }
}

/// `new` is `old` with the reset-secret registration of connection `ci`
/// set.
pub open spec fn secret_reg_update(
    old: Seq<Connection>,
    new: Seq<Connection>,
    ci: int,
    addr: SocketAddr,
    secret: Seq<u8>,
    reg: bool,
) -> bool {
    &&& new.len() == old.len()
    &&& forall|j: int| 0 <= j < old.len() && j != ci ==> #[trigger] new[j] == old[j]
    &&& new[ci].registered_reset_secret@ == secret
    &&& new[ci] == Connection {
        registered_secret_addr: addr,
        registered_reset_secret: new[ci].registered_reset_secret,
        is_registered_by_secret: reg,
        ..old[ci]
    }
}

/// The all-zero secret.
pub open spec fn zero_secret() -> Seq<u8> {
    Seq::new(16, |i: int| 0u8)
}

/// Connection `ci` has a path `pi`.
pub open spec fn has_path(q: Quic, ci: int, pi: int) -> bool {
    0 <= ci < q.connections@.len() && 0 <= pi < q.connections@[ci].paths@.len()
}

/// Peer address of the first tuple of path `pi` of connection `ci`.
pub open spec fn path_peer(q: Quic, ci: int, pi: int) -> Option<SocketAddr> {
    if has_path(q, ci, pi) && q.connections@[ci].paths@[pi].tuples@.len() > 0 {
        Some(q.connections@[ci].paths@[pi].tuples@[0].peer_addr)
    } else {
        None
    }
}

/// The address table once path `pi` of connection `ci` is unregistered:
/// its entry goes when the path holds one, or when the entry for the
/// address it was registered under belongs to the connection.
pub open spec fn net_after_unregister(q: Quic, ci: int, pi: int) -> Seq<NetEntry> {
    net_table_after_unregister(q.connection_by_net@, q.connections@, ci, pi)
}

/// The initial-ID table once connection `ci` is unregistered.
pub open spec fn icid_after_unregister(q: Quic, ci: int) -> Seq<IcidEntry> {
    icid_table_after_unregister(q.connection_by_icid@, q.connections@, ci)
}

/// The initial-ID table once connection `ci` is unregistered: its entry
/// goes when it holds one.
pub open spec fn icid_table_after_unregister(t: Seq<IcidEntry>, conns: Seq<Connection>, ci: int) -> Seq<IcidEntry> {
    let c = conns[ci];
    let k = icid_find(t, c.initial_connection_id@, c.registered_icid_addr, 0);
    if c.is_registered_by_icid && k != -1 {
        t.remove(k)
    } else {
        t
    }
}

/// The reset-secret table once connection `ci` is unregistered.
pub open spec fn secret_after_unregister(q: Quic, ci: int) -> Seq<SecretEntry> {
    secret_table_after_unregister(q.connection_by_secret@, q.connections@, ci)
}

/// The reset-secret table once connection `ci` is unregistered: its
/// entry goes when it holds one.
pub open spec fn secret_table_after_unregister(t: Seq<SecretEntry>, conns: Seq<Connection>, ci: int) -> Seq<SecretEntry> {
    let c = conns[ci];
    let k = secret_find(t, c.registered_reset_secret@, c.registered_secret_addr, 0);
    if c.is_registered_by_secret && k != -1 {
        t.remove(k)
    } else {
        t
    }
}

/// The reset secret the peer gave with the remote ID that the primary
/// tuple uses (all zero when there is none).
pub open spec fn spec_registered_secret(c: Connection) -> Seq<u8> {
    let path = c.paths@[0];
    let upid: u64 = if c.is_multipath_enabled { path.unique_path_id } else { 0 };
    let idx: int = match path.tuples@[0].remote_connection_id_index {
        Some(i) => i as int,
        None => 0,
    };
    let stashes = c.remote_connection_id_stashes@;
    let s = stash_index_from(stashes, upid, 0);
    if s != -1 && 0 <= idx < stashes[s].connection_ids@.len() {
        stashes[s].connection_ids@[idx].reset_secret@
    } else {
        zero_secret()
    }
}

/// Set the registration of path `pi` of connection `ci`.
fn conns_set_path_net_registration(conns: &mut Vec<Connection>, ci: usize, pi: usize, addr: SocketAddr, reg: bool)
    requires
        ci < old(conns)@.len(),
        pi < old(conns)@[ci as int].paths@.len(),
    ensures
        net_reg_update(old(conns)@, final(conns)@, ci as int, pi as int, addr, reg),
{
    let mut c = conns.remove(ci);
    c.set_path_net_registration(pi, addr, reg);
    conns.insert(ci, c);
}

/// Set the initial-ID registration of connection `ci`.
fn conns_set_icid_registration(conns: &mut Vec<Connection>, ci: usize, addr: SocketAddr, reg: bool)
    requires
        ci < old(conns)@.len(),
    ensures
        icid_reg_update(old(conns)@, final(conns)@, ci as int, addr, reg),
{
    let mut c = conns.remove(ci);
    c.set_icid_registration(addr, reg);
    conns.insert(ci, c);
}

/// Set the reset-secret registration of connection `ci`.
fn conns_set_secret_registration(conns: &mut Vec<Connection>, ci: usize, addr: SocketAddr, secret: [u8; 16], reg: bool)
    requires
        ci < old(conns)@.len(),
    ensures
        secret_reg_update(old(conns)@, final(conns)@, ci as int, addr, secret@, reg),
{
    let mut c = conns.remove(ci);
    c.set_secret_registration(addr, secret, reg);
    conns.insert(ci, c);
}

/// The address table once path `pi` of connection `ci` is unregistered
/// (see `net_after_unregister`).
pub open spec fn net_table_after_unregister(t: Seq<NetEntry>, conns: Seq<Connection>, ci: int, pi: int) -> Seq<NetEntry> {
    let p = conns[ci].paths@[pi];
    let k = net_find(t, p.registered_peer_addr, 0);
    if k != -1 && (p.is_registered_by_net || (!spec_addr_is_unspecified(p.registered_peer_addr) && t[k].cnx == ci)) {
        t.remove(k)
    } else {
        t
    }
}

/// Drop the address-table entry of path `pi` of connection `ci`.
fn net_remove_for_path(t: &mut Vec<NetEntry>, conns: &Vec<Connection>, ci: usize, pi: usize)
    requires
        ci < conns@.len(),
        pi < conns@[ci as int].paths@.len(),
    ensures
        final(t)@ == net_table_after_unregister(old(t)@, conns@, ci as int, pi as int),
{
    let reg_addr = conns[ci].paths[pi].registered_peer_addr;
    let member = conns[ci].paths[pi].is_registered_by_net;
    match net_lookup(t, &reg_addr) {
        Some(k) => {
            if member || (!reg_addr.is_unspecified() && t[k].cnx == ci) {
                t.remove(k);
            }
        },
        None => {},
    }
}

/// Drop the initial-ID entry of connection `ci`.
fn icid_remove_for(t: &mut Vec<IcidEntry>, conns: &Vec<Connection>, ci: usize)
    requires
        ci < conns@.len(),
    ensures
        final(t)@ == icid_table_after_unregister(old(t)@, conns@, ci as int),
{
    if conns[ci].is_registered_by_icid {
        match icid_lookup(t, &conns[ci].initial_connection_id, &conns[ci].registered_icid_addr) {
            Some(k) => {
                t.remove(k);
            },
            None => {},
        }
    }
}

/// Drop the reset-secret entry of connection `ci`.
fn secret_remove_for(t: &mut Vec<SecretEntry>, conns: &Vec<Connection>, ci: usize)
    requires
        ci < conns@.len(),
    ensures
        final(t)@ == secret_table_after_unregister(old(t)@, conns@, ci as int),
{
    if conns[ci].is_registered_by_secret {
        match secret_lookup(t, &conns[ci].registered_reset_secret, &conns[ci].registered_secret_addr) {
            Some(k) => {
                t.remove(k);
            },
            None => {},
        }
    }
}

/// Peer address of the first tuple of path `pi` of connection `ci`.
fn peer_of_path(conns: &Vec<Connection>, ci: usize, pi: usize) -> (r: Option<SocketAddr>)
    requires
        ci < conns@.len(),
        pi < conns@[ci as int].paths@.len(),
    ensures
        conns@[ci as int].paths@[pi as int].tuples@.len() == 0 ==> r is None,
        conns@[ci as int].paths@[pi as int].tuples@.len() > 0 ==> r == Some(
            conns@[ci as int].paths@[pi as int].tuples@[0].peer_addr),
{
    if conns[ci].paths[pi].tuples.len() == 0 {
        None
    } else {
        Some(conns[ci].paths[pi].tuples[0].peer_addr)
    }
}

/// Add the address entry of path `pi` of connection `ci` when its peer
/// address is specified and free; yields the result and the registration
/// to record on the path.
fn net_add_for_path(t: &mut Vec<NetEntry>, conns: &Vec<Connection>, ci: usize, pi: usize) -> (r: (
    Result<(), Error>,
    SocketAddr,
    bool,
))
    requires
        ci < conns@.len(),
        pi < conns@[ci as int].paths@.len(),
    ensures
        ({
            let p = conns@[ci as int].paths@[pi as int];
            if p.tuples@.len() == 0 {
                r == (Err::<(), Error>(Error::InvalidArgument), spec_unspecified_addr(), false) && final(t)@ == old(t)@
            } else {
                let peer = p.tuples@[0].peer_addr;
                if spec_addr_is_unspecified(peer) {
                    r == (Ok::<(), Error>(()), spec_unspecified_addr(), false) && final(t)@ == old(t)@
                } else if net_find(old(t)@, peer, 0) != -1 {
                    r == (Err::<(), Error>(Error::Generic), spec_unspecified_addr(), false) && final(t)@ == old(t)@
                } else {
                    r == (Ok::<(), Error>(()), peer, true) && final(t)@ == old(t)@.push(NetEntry { addr: peer, cnx: ci })
                }
            }
        }),
{
    match peer_of_path(conns, ci, pi) {
        None => (Err(Error::InvalidArgument), SocketAddr::unspecified(), false),
        Some(peer) => {
            if peer.is_unspecified() {
                (Ok(()), SocketAddr::unspecified(), false)
            } else if net_lookup(t, &peer).is_some() {
                (Err(Error::Generic), SocketAddr::unspecified(), false)
            } else {
                t.push(NetEntry { addr: peer, cnx: ci });
                (Ok(()), peer, true)
            }
        },
    }
}

/// The reset secret the peer gave with the remote ID that the primary
/// tuple of connection `ci` uses; all zero when there is none.
fn registered_secret_of(conns: &Vec<Connection>, ci: usize) -> (r: [u8; 16])
    requires
        ci < conns@.len(),
        conns@[ci as int].paths@.len() > 0,
        conns@[ci as int].paths@[0].tuples@.len() > 0,
    ensures
        r@ == spec_registered_secret(conns@[ci as int]),
{
    let c = &conns[ci];
    let upid: u64 = if c.is_multipath_enabled { c.paths[0].unique_path_id } else { 0 };
    let idx: usize = match c.paths[0].tuples[0].remote_connection_id_index {
        Some(i) => i,
        None => 0,
    };
    let mut k: usize = 0;
    while k < c.remote_connection_id_stashes.len() && c.remote_connection_id_stashes[k].unique_path_id != upid
        invariant
            k <= c.remote_connection_id_stashes@.len(),
            stash_index_from(c.remote_connection_id_stashes@, upid, 0)
                == stash_index_from(c.remote_connection_id_stashes@, upid, k as int),
        decreases c.remote_connection_id_stashes.len() - k,
    {
        k = k + 1;
    }
    if k < c.remote_connection_id_stashes.len() && idx < c.remote_connection_id_stashes[k].connection_ids.len() {
        c.remote_connection_id_stashes[k].connection_ids[idx].reset_secret
    } else {
        let zero: [u8; 16] = [0u8; 16];
        assert(zero@ =~= zero_secret());
        zero
    }
}

/// Add the reset-secret entry of connection `ci` unless the pair is
/// taken; yields the result and the registration to record.
fn secret_add(t: &mut Vec<SecretEntry>, secret: [u8; 16], peer: SocketAddr, ci: usize) -> (r: (
    Result<(), Error>,
    SocketAddr,
    [u8; 16],
    bool,
))
    ensures
        secret_find(old(t)@, secret@, peer, 0) != -1 ==> r.0 == Err::<(), Error>(Error::Generic)
            && r.1 == spec_unspecified_addr() && r.2@ == zero_secret() && !r.3 && final(t)@ == old(t)@,
        secret_find(old(t)@, secret@, peer, 0) == -1 ==> r.0 is Ok && r.1 == peer && r.2 == secret && r.3
            && final(t)@ == old(t)@.push(SecretEntry { secret, addr: peer, cnx: ci }),
{
    if secret_lookup(t, &secret, &peer).is_some() {
        let zero: [u8; 16] = [0u8; 16];
        assert(zero@ =~= zero_secret());
        (Err(Error::Generic), SocketAddr::unspecified(), zero, false)
    } else {
        t.push(SecretEntry { secret, addr: peer, cnx: ci });
        (Ok(()), peer, secret, true)
    }
}

/// Registering a path keeps the addresses of the address table distinct:
/// the entry that unregistering drops leaves them distinct, and the entry
/// added is for an address no entry had.
pub proof fn law_net_registration_keeps_addresses_distinct(q: Quic, ci: int, pi: int, peer: SocketAddr)
    requires
        net_keys_unique(q.connection_by_net@),
        has_path(q, ci, pi),
    ensures
        net_keys_unique(net_after_unregister(q, ci, pi)),
        net_find(net_after_unregister(q, ci, pi), peer, 0) == -1 ==> net_keys_unique(
            net_after_unregister(q, ci, pi).push(NetEntry { addr: peer, cnx: ci as usize }),
        ),
{
    let t = q.connection_by_net@;
    let p = q.connections@[ci].paths@[pi];
    let k = net_find(t, p.registered_peer_addr, 0);
    if k != -1 {
        lemma_net_find(t, p.registered_peer_addr, 0);
        let t2 = t.remove(k);
        assert forall|i: int, j: int| 0 <= i < j < t2.len() implies t2[i].addr != t2[j].addr by {
            let ii = if i < k { i } else { i + 1 };
            let jj = if j < k { j } else { j + 1 };
            assert(t2[i] == t[ii]);
            assert(t2[j] == t[jj]);
        }
    }
    if net_find(net_after_unregister(q, ci, pi), peer, 0) == -1 {
        law_net_insert_then_find(net_after_unregister(q, ci, pi), peer, ci as usize);
    }
}

/// Unregistering a registered path undoes its registration: the address
/// it held leads nowhere any more.
pub proof fn law_net_unregister_undoes_register(t: Seq<NetEntry>, conns: Seq<Connection>, ci: int, pi: int)
    requires
        net_keys_unique(t),
        0 <= ci < conns.len(),
        0 <= pi < conns[ci].paths@.len(),
        conns[ci].paths@[pi].is_registered_by_net,
        net_find(t, conns[ci].paths@[pi].registered_peer_addr, 0) != -1,
    ensures
        net_find(net_table_after_unregister(t, conns, ci, pi), conns[ci].paths@[pi].registered_peer_addr, 0) == -1,
{
    law_net_remove_forgets(t, conns[ci].paths@[pi].registered_peer_addr);
}

/// Index of the first of the first 32 candidates, from `k` on, whose
/// bytes no local-ID entry has, or -1.
pub open spec fn first_free_candidate(t: Seq<CidEntry>, c: Seq<ConnectionId>, k: int) -> int
    decreases c.len() - k,
{
    if k < 0 || k >= c.len() || k >= 32 {
        -1
    } else if cid_find(t, c[k]@, 0) == -1 {
        k
    } else {
        first_free_candidate(t, c, k + 1)
    }
}

/// `new` is `old` with one more local ID, of path `path_id` with bytes
/// `cid`, created at `t` with the path's next sequence number.
pub open spec fn local_cid_added(old: Connection, new: Connection, path_id: u64, cid: Seq<u8>, t: u64) -> bool {
    let e = new.local_connection_ids@.last();
    &&& new.local_connection_ids@.len() == old.local_connection_ids@.len() + 1
    &&& new.local_connection_ids@.drop_last() == old.local_connection_ids@
    &&& e.path_id == path_id && e.sequence == next_local_cid_sequence(old, path_id) && e.create_time == t
    &&& !e.is_acked && e.connection_id@ == cid
    &&& next_local_cid_sequence(new, path_id) == next_local_cid_sequence(old, path_id) + 1
    &&& new == Connection {
        local_connection_ids: new.local_connection_ids,
        local_connection_id_lists: new.local_connection_id_lists,
        max_path_id_in_connection_id_lists: new.max_path_id_in_connection_id_lists,
        ..old
    }
}

/// The first free candidate is one of the first 32, and no entry of the
/// local-ID table has its bytes.
proof fn lemma_first_free_candidate(t: Seq<CidEntry>, c: Seq<ConnectionId>, k: int)
    requires
        0 <= k,
    ensures
        first_free_candidate(t, c, k) != -1 ==> k <= first_free_candidate(t, c, k) < c.len()
            && first_free_candidate(t, c, k) < 32 && cid_find(t, c[first_free_candidate(t, c, k)]@, 0) == -1,
    decreases c.len() - k,
{
    if k < c.len() && k < 32 && cid_find(t, c[k]@, 0) != -1 {
        lemma_first_free_candidate(t, c, k + 1);
    }
}

/// Add a local ID to connection `ci`.
fn conns_add_local_cnxid(conns: &mut Vec<Connection>, ci: usize, path_id: u64, cid: ConnectionId, t: u64) -> (r: usize)
    requires
        ci < old(conns)@.len(),
        next_local_cid_sequence(old(conns)@[ci as int], path_id) < u64::MAX,
    ensures
        r == old(conns)@[ci as int].local_connection_ids@.len(),
        final(conns)@.len() == old(conns)@.len(),
        forall|j: int| 0 <= j < old(conns)@.len() && j != ci ==> #[trigger] final(conns)@[j] == old(conns)@[j],
        local_cid_added(old(conns)@[ci as int], final(conns)@[ci as int], path_id, cid@, t),
{
    let mut c = conns.remove(ci);
    let r = c.add_local_cnxid(path_id, cid, t);
    proof {
        assert(c.local_connection_ids@.drop_last() =~= old(conns)@[ci as int].local_connection_ids@);
    }
    conns.insert(ci, c);
    r
}

/// The first of the first 32 candidates that is not a local ID yet.
fn select_free_candidate(t: &Vec<CidEntry>, candidates: &[ConnectionId]) -> (r: Option<usize>)
    ensures
        first_free_candidate(t@, candidates@, 0) == -1 ==> r is None,
        first_free_candidate(t@, candidates@, 0) != -1 ==> r == Some(first_free_candidate(t@, candidates@, 0) as usize),
        r matches Some(i) ==> i < candidates@.len() && i as int == first_free_candidate(t@, candidates@, 0),
{
    let mut k: usize = 0;
    while k < candidates.len() && k < 32
        invariant
            k <= candidates@.len(),
            first_free_candidate(t@, candidates@, 0) == first_free_candidate(t@, candidates@, k as int),
        decreases candidates.len() - k,
    {
        if cid_lookup(t, &candidates[k]).is_none() {
            return Some(k);
        }
        k = k + 1;
    }
    None
}

/// The local ID to issue: the empty one when local IDs are empty, else
/// the first free candidate (none when all are taken).
fn choose_local_cid(length: u8, t: &Vec<CidEntry>, candidates: &[ConnectionId]) -> (r: Option<ConnectionId>)
    ensures
        length == 0 ==> r is Some && r.unwrap()@ == Seq::<u8>::empty(),
        length > 0 && first_free_candidate(t@, candidates@, 0) == -1 ==> r is None,
        length > 0 && first_free_candidate(t@, candidates@, 0) != -1 ==> r == Some(
            candidates@[first_free_candidate(t@, candidates@, 0)],
        ),
{
    if length == 0 {
        Some(ConnectionId::empty())
    } else {
        match select_free_candidate(t, candidates) {
            Some(i) => Some(candidates[i]),
            None => None,
        }
    }
}

/// What issuing a local ID on path `path_id` of connection `ci` does to
/// the connections (`c0` to `c1`) and to the local-ID table (`t0` to `t1`),
/// with local IDs of `length` bytes, the first 32 of `candidates` to pick
/// from and `now` as the time; `r` is the result.
pub open spec fn local_cnxid_created(
    c0: Seq<Connection>,
    c1: Seq<Connection>,
    t0: Seq<CidEntry>,
    t1: Seq<CidEntry>,
    length: u8,
    ci: usize,
    path_id: u64,
    candidates: Seq<ConnectionId>,
    now: u64,
    r: Result<usize, Error>,
) -> bool {
    let k = first_free_candidate(t0, candidates, 0);
    if ci >= c0.len() {
        r == Err::<usize, Error>(Error::InvalidArgument) && c1 == c0 && t1 == t0
    } else if length > 0 && k == -1 {
        r == Err::<usize, Error>(Error::Generic) && c1 == c0 && t1 == t0
    } else {
        let cid: Seq<u8> = if length == 0 { Seq::empty() } else { candidates[k]@ };
        &&& r == Ok::<usize, Error>(c0[ci as int].local_connection_ids@.len() as usize)
        &&& c1.len() == c0.len()
        &&& forall|j: int| 0 <= j < c0.len() && j != ci ==> #[trigger] c1[j] == c0[j]
        &&& local_cid_added(c0[ci as int], c1[ci as int], path_id, cid, now)
        &&& length == 0 ==> t1 == t0
        &&& length > 0 ==> t1 == t0.push(CidEntry { cid: candidates[k], cnx: ci })
    }
}

/// A local ID issued while local IDs are not empty is found again in the
/// local-ID table, as its newest entry, and leads back to the connection
/// it was issued to.
pub proof fn law_issued_local_id_is_found(
    c0: Seq<Connection>,
    c1: Seq<Connection>,
    t0: Seq<CidEntry>,
    t1: Seq<CidEntry>,
    length: u8,
    ci: usize,
    path_id: u64,
    candidates: Seq<ConnectionId>,
    now: u64,
    r: Result<usize, Error>,
)
    requires
        local_cnxid_created(c0, c1, t0, t1, length, ci, path_id, candidates, now, r),
        r is Ok,
        length > 0,
    ensures
        cid_find(t1, c1[ci as int].local_connection_ids@.last().connection_id@, 0) == t0.len(),
        t1[t0.len() as int].cnx == ci,
{
    let k = first_free_candidate(t0, candidates, 0);
    lemma_first_free_candidate(t0, candidates, 0);
    law_cid_insert_then_find(t0, CidEntry { cid: candidates[k], cnx: ci });
}

/// Issue a local ID on connection `ci` of `conns`, entering it in `ids`.
fn add_local_cnxid_to(
    conns: &mut Vec<Connection>,
    ids: &mut Vec<CidEntry>,
    length: u8,
    ci: usize,
    path_id: u64,
    candidates: &[ConnectionId],
    now: u64,
) -> (r: Result<usize, Error>)
    requires
        ci < old(conns)@.len() ==> next_local_cid_sequence(old(conns)@[ci as int], path_id) < u64::MAX,
    ensures
        local_cnxid_created(old(conns)@, final(conns)@, old(ids)@, final(ids)@, length, ci, path_id, candidates@, now, r),
{
    if ci >= conns.len() {
        return Err(Error::InvalidArgument);
    }
    let cid = match choose_local_cid(length, ids, candidates) {
        Some(c) => c,
        None => {
            return Err(Error::Generic);
        },
    };
    let token = conns_add_local_cnxid(conns, ci, path_id, cid, now);
    if length > 0 {
        ids.push(CidEntry { cid, cnx: ci });
    }
    Ok(token)
}

impl Quic {
    /// Whether `cid` is one of the local connection IDs of this context.
    pub fn is_local_cid(&self, cid: &ConnectionId) -> (r: bool)
        ensures
            r == (cid_find(self.connection_by_id@, cid@, 0) != -1),
    {
        match cid_lookup(&self.connection_by_id, cid) {
            Some(_) => true,
            None => false,
        }
    }

    /// The connection that has the local ID `id`, if it is still there.
    pub fn connection_ref_by_id(&self, id: ConnectionId) -> (r: Option<usize>)
        ensures
            ({
                let k = cid_find(self.connection_by_id@, id@, 0);
                &&& k == -1 ==> r is None
                &&& k != -1 && self.connection_by_id@[k].cnx < self.connections@.len() ==> r == Some(
                    self.connection_by_id@[k].cnx)
                &&& k != -1 && self.connection_by_id@[k].cnx >= self.connections@.len() ==> r is None
            }),
    {
        match cid_lookup(&self.connection_by_id, &id) {
            Some(k) => {
                let c = self.connection_by_id[k].cnx;
                if c < self.connections.len() {
                    Some(c)
                } else {
                    None
                }
            },
            None => None,
        }
    }

    /// The first connection of the context.
    pub fn first_connection(&self) -> (r: Option<usize>)
        ensures
            self.connections@.len() == 0 ==> r is None,
            self.connections@.len() > 0 ==> r == Some(0usize),
    {
        if self.connections.len() > 0 {
            Some(0)
        } else {
            None
        }
    }

    /// The connection after `current`, if any.
    pub fn next_cnx(&self, current: usize) -> (r: Option<usize>)
        ensures
            current + 1 < self.connections@.len() ==> r == Some((current + 1) as usize),
            current + 1 >= self.connections@.len() ==> r is None,
    {
        if current < self.connections.len() && current + 1 < self.connections.len() {
            Some(current + 1)
        } else {
            None
        }
    }

    /// The connection whose packets are being processed, if it is still
    /// there.
    pub fn connection_in_progress(&self) -> (r: Option<usize>)
        ensures
            r == (match self.connection_in_progress {
                Some(c) => if c < self.connections@.len() { Some(c) } else { None },
                None => None,
            }),
    {
        match self.connection_in_progress {
            Some(c) => {
                if c < self.connections.len() {
                    Some(c)
                } else {
                    None
                }
            },
            None => None,
        }
    }

    /// Remove the peer-address registration of path `path_index` of
    /// connection `connection` (nothing happens for a missing path).
    pub fn unregister_net_id(&mut self, connection: usize, path_index: usize)
        ensures
            !has_path(*old(self), connection as int, path_index as int) ==> *final(self) == *old(self),
            has_path(*old(self), connection as int, path_index as int) ==> {
                &&& final(self).connection_by_net@ == net_after_unregister(*old(self), connection as int, path_index as int)
                &&& net_reg_update(old(self).connections@, final(self).connections@, connection as int,
                    path_index as int, spec_unspecified_addr(), false)
                &&& *final(self) == (Quic {
                    connections: final(self).connections,
                    connection_by_net: final(self).connection_by_net,
                    ..*old(self)
                })
            },
    {
        if connection >= self.connections.len() || path_index >= self.connections[connection].paths.len() {
            return;
        }
        net_remove_for_path(&mut self.connection_by_net, &self.connections, connection, path_index);
        conns_set_path_net_registration(&mut self.connections, connection, path_index, SocketAddr::unspecified(), false);
    }

    /// Register path `path_index` of connection `connection` under the
    /// peer address of its first tuple, after undoing any earlier
    /// registration.  `InvalidArgument` when there is no such path or
    /// tuple; an unspecified address registers nothing; `Generic` when
    /// another registration holds the address.
    pub fn register_net_id(&mut self, connection: usize, path_index: usize) -> (r: Result<(), Error>)
        ensures
            !has_path(*old(self), connection as int, path_index as int) ==> r == Err::<(), Error>(Error::InvalidArgument)
                && *final(self) == *old(self),
            has_path(*old(self), connection as int, path_index as int) ==> {
                let t1 = net_after_unregister(*old(self), connection as int, path_index as int);
                &&& *final(self) == (Quic {
                    connections: final(self).connections,
                    connection_by_net: final(self).connection_by_net,
                    ..*old(self)
                })
                &&& match path_peer(*old(self), connection as int, path_index as int) {
                    None => r == Err::<(), Error>(Error::InvalidArgument) && final(self).connection_by_net@ == t1
                        && net_reg_update(old(self).connections@, final(self).connections@, connection as int,
                        path_index as int, spec_unspecified_addr(), false),
                    Some(peer) => if spec_addr_is_unspecified(peer) {
                        r is Ok && final(self).connection_by_net@ == t1 && net_reg_update(old(self).connections@,
                            final(self).connections@, connection as int, path_index as int, spec_unspecified_addr(), false)
                    } else if net_find(t1, peer, 0) != -1 {
                        r == Err::<(), Error>(Error::Generic) && final(self).connection_by_net@ == t1
                            && net_reg_update(old(self).connections@, final(self).connections@, connection as int,
                            path_index as int, spec_unspecified_addr(), false)
                    } else {
                        r is Ok && final(self).connection_by_net@ == t1.push(NetEntry { addr: peer, cnx: connection })
                            && net_reg_update(old(self).connections@, final(self).connections@, connection as int,
                            path_index as int, peer, true)
                    },
                }
            },
    {
        if connection >= self.connections.len() || path_index >= self.connections[connection].paths.len() {
            return Err(Error::InvalidArgument);
        }
        net_remove_for_path(&mut self.connection_by_net, &self.connections, connection, path_index);
        let (r, addr, reg) = net_add_for_path(&mut self.connection_by_net, &self.connections, connection, path_index);
        conns_set_path_net_registration(&mut self.connections, connection, path_index, addr, reg);
        r
    }

    /// Remove the initial-ID registration of connection `connection`.
    pub fn unregister_net_icid(&mut self, connection: usize)
        ensures
            connection >= old(self).connections@.len() ==> *final(self) == *old(self),
            connection < old(self).connections@.len() ==> {
                &&& final(self).connection_by_icid@ == icid_after_unregister(*old(self), connection as int)
                &&& icid_reg_update(old(self).connections@, final(self).connections@, connection as int,
                    spec_unspecified_addr(), false)
                &&& *final(self) == (Quic {
                    connections: final(self).connections,
                    connection_by_icid: final(self).connection_by_icid,
                    ..*old(self)
                })
            },
    {
        if connection >= self.connections.len() {
            return;
        }
        icid_remove_for(&mut self.connection_by_icid, &self.connections, connection);
        conns_set_icid_registration(&mut self.connections, connection, SocketAddr::unspecified(), false);
    }

    /// Register connection `connection` under its initial connection ID
    /// and the peer address of its primary tuple.  `InvalidArgument` when
    /// there is no such connection or tuple; `Generic` when it is already
    /// registered or another registration holds the pair.
    pub fn register_net_icid(&mut self, connection: usize) -> (r: Result<(), Error>)
        ensures
            path_peer(*old(self), connection as int, 0) is None ==> r == Err::<(), Error>(Error::InvalidArgument)
                && *final(self) == *old(self),
            path_peer(*old(self), connection as int, 0) matches Some(peer) ==> {
                let c = old(self).connections@[connection as int];
                &&& (c.is_registered_by_icid || icid_find(old(self).connection_by_icid@, c.initial_connection_id@, peer, 0)
                    != -1) ==> r == Err::<(), Error>(Error::Generic) && *final(self) == *old(self)
                &&& !(c.is_registered_by_icid || icid_find(old(self).connection_by_icid@, c.initial_connection_id@, peer, 0)
                    != -1) ==> r is Ok
                    && final(self).connection_by_icid@ == old(self).connection_by_icid@.push(
                    IcidEntry { icid: c.initial_connection_id, addr: peer, cnx: connection })
                    && icid_reg_update(old(self).connections@, final(self).connections@, connection as int, peer, true)
                    && *final(self) == (Quic {
                    connections: final(self).connections,
                    connection_by_icid: final(self).connection_by_icid,
                    ..*old(self)
                })
            },
    {
        if connection >= self.connections.len() || self.connections[connection].paths.len() == 0 {
            return Err(Error::InvalidArgument);
        }
        let peer = match peer_of_path(&self.connections, connection, 0) {
            Some(p) => p,
            None => {
                return Err(Error::InvalidArgument);
            },
        };
        let icid = self.connections[connection].initial_connection_id;
        if self.connections[connection].is_registered_by_icid {
            return Err(Error::Generic);
        }
        if icid_lookup(&self.connection_by_icid, &icid, &peer).is_some() {
            return Err(Error::Generic);
        }
        self.connection_by_icid.push(IcidEntry { icid, addr: peer, cnx: connection });
        conns_set_icid_registration(&mut self.connections, connection, peer, true);
        Ok(())
    }

    /// Remove the reset-secret registration of connection `connection`.
    pub fn unregister_net_secret(&mut self, connection: usize)
        ensures
            connection >= old(self).connections@.len() ==> *final(self) == *old(self),
            connection < old(self).connections@.len() ==> {
                &&& final(self).connection_by_secret@ == secret_after_unregister(*old(self), connection as int)
                &&& secret_reg_update(old(self).connections@, final(self).connections@, connection as int,
                    spec_unspecified_addr(), zero_secret(), false)
                &&& *final(self) == (Quic {
                    connections: final(self).connections,
                    connection_by_secret: final(self).connection_by_secret,
                    ..*old(self)
                })
            },
    {
        if connection >= self.connections.len() {
            return;
        }
        secret_remove_for(&mut self.connection_by_secret, &self.connections, connection);
        let zero: [u8; 16] = [0u8; 16];
        assert(zero@ =~= zero_secret());
        conns_set_secret_registration(&mut self.connections, connection, SocketAddr::unspecified(), zero, false);
    }
    /// Register connection `connection` for stateless resets under the
    /// reset secret of its primary remote ID and the peer address of its
    /// primary tuple, after undoing any earlier registration.
    /// `InvalidArgument` when there is no such connection or tuple; an
    /// unspecified address registers nothing; `Generic` when another
    /// registration holds the pair.
    pub fn register_net_secret(&mut self, connection: usize) -> (r: Result<(), Error>)
        ensures
            path_peer(*old(self), connection as int, 0) is None ==> r == Err::<(), Error>(Error::InvalidArgument)
                && *final(self) == *old(self),
            path_peer(*old(self), connection as int, 0) matches Some(peer) && spec_addr_is_unspecified(peer)
                ==> r is Ok && *final(self) == *old(self),
            path_peer(*old(self), connection as int, 0) matches Some(p) && !spec_addr_is_unspecified(p) ==> {
                let peer = path_peer(*old(self), connection as int, 0).unwrap();
                let t1 = secret_after_unregister(*old(self), connection as int);
                let sec = spec_registered_secret(old(self).connections@[connection as int]);
                &&& *final(self) == (Quic {
                    connections: final(self).connections,
                    connection_by_secret: final(self).connection_by_secret,
                    ..*old(self)
                })
                &&& secret_find(t1, sec, peer, 0) != -1 ==> r == Err::<(), Error>(Error::Generic)
                    && final(self).connection_by_secret@ == t1
                    && secret_reg_update(old(self).connections@, final(self).connections@, connection as int,
                    spec_unspecified_addr(), zero_secret(), false)
                &&& secret_find(t1, sec, peer, 0) == -1 ==> r is Ok
                    && final(self).connection_by_secret@.len() == t1.len() + 1
                    && final(self).connection_by_secret@.drop_last() == t1
                    && final(self).connection_by_secret@.last().secret@ == sec
                    && final(self).connection_by_secret@.last().addr == peer
                    && final(self).connection_by_secret@.last().cnx == connection
                    && secret_reg_update(old(self).connections@, final(self).connections@, connection as int, peer,
                    sec, true)
            },
    {
        if connection >= self.connections.len() || self.connections[connection].paths.len() == 0 {
            return Err(Error::InvalidArgument);
        }
        let peer = match peer_of_path(&self.connections, connection, 0) {
            Some(p) => p,
            None => {
                return Err(Error::InvalidArgument);
            },
        };
        if peer.is_unspecified() {
            return Ok(());
        }
        let secret = registered_secret_of(&self.connections, connection);
        secret_remove_for(&mut self.connection_by_secret, &self.connections, connection);
        let (r, addr, sec, reg) = secret_add(&mut self.connection_by_secret, secret, peer, connection);
        conns_set_secret_registration(&mut self.connections, connection, addr, sec, reg);
        r
    }
    /// Issue a local connection ID on path `unique_path_id` of connection
    /// `connection`: the empty ID when local IDs are empty, else the first
    /// of the first 32 `candidates` (the suggested value first, then
    /// random ones) that is not a local ID already, which is also entered
    /// in the local-ID table.  Yields its index in the connection's local
    /// ID list; `InvalidArgument` without such a connection, `Generic` when
    /// every candidate is taken.
    pub fn create_local_cnxid(
        &mut self,
        connection: usize,
        unique_path_id: u64,
        candidates: &[ConnectionId],
        current_time: Instant,
    ) -> (r: Result<usize, Error>)
        requires
            connection < old(self).connections@.len() ==> next_local_cid_sequence(
                old(self).connections@[connection as int],
                unique_path_id,
            ) < u64::MAX,
        ensures
            local_cnxid_created(
                old(self).connections@,
                final(self).connections@,
                old(self).connection_by_id@,
                final(self).connection_by_id@,
                old(self).local_connection_id_length,
                connection,
                unique_path_id,
                candidates@,
                current_time,
                r,
            ),
            *final(self) == (Quic {
                connections: final(self).connections,
                connection_by_id: final(self).connection_by_id,
                ..*old(self)
            }),
    {
        let length = self.local_connection_id_length;
        add_local_cnxid_to(&mut self.connections, &mut self.connection_by_id, length, connection, unique_path_id,
            candidates, current_time)
    }
}

} // verus!
