//! The context's lookup tables from network identifiers to connections:
//! by peer address, by initial connection ID and peer address, by
//! stateless-reset secret and peer address, and by local connection ID.
//! Each entry names a connection by its index in the context.

use vstd::prelude::*;
use crate::cid::ConnectionId;
use crate::types::SocketAddr;

verus! {

/// A connection reachable at a peer address.
#[derive(Debug, Copy, Clone, PartialEq, Eq, Structural)]
pub struct NetEntry {
    pub addr: SocketAddr,
    pub cnx: usize,
}

/// A connection by its initial connection ID and peer address.
#[derive(Debug, Copy, Clone)]
pub struct IcidEntry {
    pub icid: ConnectionId,
    pub addr: SocketAddr,
    pub cnx: usize,
}

/// A connection by the stateless-reset secret of its peer and the peer
/// address.
#[derive(Debug, Copy, Clone)]
pub struct SecretEntry {
    pub secret: [u8; 16],
    pub addr: SocketAddr,
    pub cnx: usize,
}

/// A connection by one of its local connection IDs.
#[derive(Debug, Copy, Clone)]
pub struct CidEntry {
    pub cid: ConnectionId,
    pub cnx: usize,
}

/// First entry, from `k` on, for `addr`, or -1.
pub open spec fn net_find(t: Seq<NetEntry>, addr: SocketAddr, k: int) -> int
    decreases t.len() - k,
{
    if k < 0 || k >= t.len() {
        -1
    } else if t[k].addr == addr {
        k
    } else {
        net_find(t, addr, k + 1)
    }
}

/// First entry, from `k` on, for the initial ID `icid` and `addr`, or -1.
pub open spec fn icid_find(t: Seq<IcidEntry>, icid: Seq<u8>, addr: SocketAddr, k: int) -> int
    decreases t.len() - k,
{
    if k < 0 || k >= t.len() {
        -1
    } else if t[k].icid@ == icid && t[k].addr == addr {
        k
    } else {
        icid_find(t, icid, addr, k + 1)
    }
}

/// First entry, from `k` on, for `secret` and `addr`, or -1.
pub open spec fn secret_find(t: Seq<SecretEntry>, secret: Seq<u8>, addr: SocketAddr, k: int) -> int
    decreases t.len() - k,
{
    if k < 0 || k >= t.len() {
        -1
    } else if t[k].secret@ == secret && t[k].addr == addr {
        k
    } else {
        secret_find(t, secret, addr, k + 1)
    }
}

/// First entry, from `k` on, for the local ID `cid`, or -1.
pub open spec fn cid_find(t: Seq<CidEntry>, cid: Seq<u8>, k: int) -> int
    decreases t.len() - k,
{
    if k < 0 || k >= t.len() {
        -1
    } else if t[k].cid@ == cid {
        k
    } else {
        cid_find(t, cid, k + 1)
    }
}

/// No two entries have the same address.
pub open spec fn net_keys_unique(t: Seq<NetEntry>) -> bool {
    forall|i: int, j: int| 0 <= i < j < t.len() ==> t[i].addr != t[j].addr
}

/// The entry found is the one with the key, and none before it has it.
pub proof fn lemma_net_find(t: Seq<NetEntry>, addr: SocketAddr, k: int)
    requires
        0 <= k,
    ensures
        net_find(t, addr, k) == -1 <==> forall|i: int| k <= i < t.len() ==> t[i].addr != addr,
        net_find(t, addr, k) != -1 ==> k <= net_find(t, addr, k) < t.len() && t[net_find(t, addr, k)].addr == addr,
    decreases t.len() - k,
{
    if k < t.len() {
        lemma_net_find(t, addr, k + 1);
    }
}

/// Index of the entry for `addr`.
pub fn net_lookup(t: &Vec<NetEntry>, addr: &SocketAddr) -> (r: Option<usize>)
    ensures
        r matches Some(k) ==> k < t@.len(),
        net_find(t@, *addr, 0) == -1 ==> r is None,
        net_find(t@, *addr, 0) != -1 ==> r is Some,
        r matches Some(k) ==> k as int == net_find(t@, *addr, 0),
{
    let mut k: usize = 0;
    while k < t.len()
        invariant
            k <= t@.len(),
            net_find(t@, *addr, 0) == net_find(t@, *addr, k as int),
        decreases t.len() - k,
    {
        if t[k].addr == *addr {
            return Some(k);
        }
        k = k + 1;
    }
    None
}

/// Byte-wise equality of two secrets.
fn secret_equal(a: &[u8; 16], b: &[u8; 16]) -> (r: bool)
    ensures
        r == (a@ == b@),
{
    let mut i: usize = 0;
    while i < 16
        invariant
            i <= 16,
            a@.len() == 16,
            b@.len() == 16,
            forall|j: int| 0 <= j < i ==> a@[j] == b@[j],
        decreases 16 - i,
    {
        if a[i] != b[i] {
            return false;
        }
        i = i + 1;
    }
    assert(a@ =~= b@);
    true
}

/// Index of the entry for the initial ID `icid` and `addr`.
pub fn icid_lookup(t: &Vec<IcidEntry>, icid: &ConnectionId, addr: &SocketAddr) -> (r: Option<usize>)
    ensures
        r matches Some(k) ==> k < t@.len(),
        icid_find(t@, icid@, *addr, 0) == -1 ==> r is None,
        icid_find(t@, icid@, *addr, 0) != -1 ==> r is Some,
        r matches Some(k) ==> k as int == icid_find(t@, icid@, *addr, 0),
{
    let mut k: usize = 0;
    while k < t.len()
        invariant
            k <= t@.len(),
            icid_find(t@, icid@, *addr, 0) == icid_find(t@, icid@, *addr, k as int),
        decreases t.len() - k,
    {
        if t[k].icid.same_as(icid) && t[k].addr == *addr {
            return Some(k);
        }
        k = k + 1;
    }
    None
}

/// Index of the entry for `secret` and `addr`.
pub fn secret_lookup(t: &Vec<SecretEntry>, secret: &[u8; 16], addr: &SocketAddr) -> (r: Option<usize>)
    ensures
        r matches Some(k) ==> k < t@.len(),
        secret_find(t@, secret@, *addr, 0) == -1 ==> r is None,
        secret_find(t@, secret@, *addr, 0) != -1 ==> r is Some,
        r matches Some(k) ==> k as int == secret_find(t@, secret@, *addr, 0),
{
    let mut k: usize = 0;
    while k < t.len()
        invariant
            k <= t@.len(),
            secret_find(t@, secret@, *addr, 0) == secret_find(t@, secret@, *addr, k as int),
        decreases t.len() - k,
    {
        if secret_equal(&t[k].secret, secret) && t[k].addr == *addr {
            return Some(k);
        }
        k = k + 1;
    }
    None
}

/// Index of the entry for the local ID `cid`.
pub fn cid_lookup(t: &Vec<CidEntry>, cid: &ConnectionId) -> (r: Option<usize>)
    ensures
        r matches Some(k) ==> k < t@.len(),
        cid_find(t@, cid@, 0) == -1 ==> r is None,
        cid_find(t@, cid@, 0) != -1 ==> r is Some,
        r matches Some(k) ==> k as int == cid_find(t@, cid@, 0),
{
    let mut k: usize = 0;
    while k < t.len()
        invariant
            k <= t@.len(),
            cid_find(t@, cid@, 0) == cid_find(t@, cid@, k as int),
        decreases t.len() - k,
    {
        if t[k].cid.same_as(cid) {
            return Some(k);
        }
        k = k + 1;
    }
    None
}

/// A new address entry is found again, and leads to its connection, when
/// no entry had the address before.
pub proof fn law_net_insert_then_find(t: Seq<NetEntry>, addr: SocketAddr, cnx: usize)
    requires
        net_find(t, addr, 0) == -1,
    ensures
        net_find(t.push(NetEntry { addr, cnx }), addr, 0) == t.len(),
        t.push(NetEntry { addr, cnx })[t.len() as int].cnx == cnx,
        net_keys_unique(t) ==> net_keys_unique(t.push(NetEntry { addr, cnx })),
{
    let t2 = t.push(NetEntry { addr, cnx });
    lemma_net_find(t, addr, 0);
    lemma_net_find(t2, addr, 0);
    assert(forall|i: int| 0 <= i < t.len() ==> t2[i] == t[i]);
    assert(t2[t.len() as int].addr == addr);
}

/// Removing the entry of an address from a table without repeated
/// addresses leaves no entry for it, and keeps the addresses distinct.
pub proof fn law_net_remove_forgets(t: Seq<NetEntry>, addr: SocketAddr)
    requires
        net_keys_unique(t),
        net_find(t, addr, 0) != -1,
    ensures
        net_find(t.remove(net_find(t, addr, 0)), addr, 0) == -1,
        net_keys_unique(t.remove(net_find(t, addr, 0))),
{
    let k = net_find(t, addr, 0);
    lemma_net_find(t, addr, 0);
    let t2 = t.remove(k);
    lemma_net_find(t2, addr, 0);
    assert forall|i: int| 0 <= i < t2.len() implies t2[i].addr != addr by {
        if i < k {
            assert(t2[i] == t[i]);
        } else {
            assert(t2[i] == t[i + 1]);
        }
    }
    assert forall|i: int, j: int| 0 <= i < j < t2.len() implies t2[i].addr != t2[j].addr by {
        let ii = if i < k { i } else { i + 1 };
        let jj = if j < k { j } else { j + 1 };
        assert(t2[i] == t[ii]);
        assert(t2[j] == t[jj]);
    }
}

/// The entry found for a local ID is one with its bytes, none before it.
pub proof fn lemma_cid_find(t: Seq<CidEntry>, cid: Seq<u8>, k: int)
    requires
        0 <= k,
    ensures
        cid_find(t, cid, k) == -1 <==> forall|i: int| k <= i < t.len() ==> t[i].cid@ != cid,
        cid_find(t, cid, k) != -1 ==> k <= cid_find(t, cid, k) < t.len() && t[cid_find(t, cid, k)].cid@ == cid,
        forall|i: int| k <= i < t.len() && i < cid_find(t, cid, k) ==> #[trigger] t[i].cid@ != cid,
    decreases t.len() - k,
{
    if k < t.len() {
        lemma_cid_find(t, cid, k + 1);
    }
}

/// A new local-ID entry is found again, and leads to its connection, when
/// no entry had those bytes before.
pub proof fn law_cid_insert_then_find(t: Seq<CidEntry>, e: CidEntry)
    requires
        cid_find(t, e.cid@, 0) == -1,
    ensures
        cid_find(t.push(e), e.cid@, 0) == t.len(),
        t.push(e)[t.len() as int].cnx == e.cnx,
{
    let t2 = t.push(e);
    lemma_cid_find(t, e.cid@, 0);
    lemma_cid_find(t2, e.cid@, 0);
    assert(forall|i: int| 0 <= i < t.len() ==> t2[i] == t[i]);
    assert(t2[t.len() as int].cid@ == e.cid@);
    if cid_find(t2, e.cid@, 0) < t.len() {
        let k = cid_find(t2, e.cid@, 0);
        assert(t2[k] == t[k]);
    }
}

} // verus!
