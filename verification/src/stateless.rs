//! Packets outside any connection: the queue of stateless packets on the
//! QUIC context and how the sender takes them, version negotiation in both
//! directions, and the processing outcomes on which a packet is dropped
//! without notice.

use vstd::prelude::*;
use crate::cid::ConnectionId;
use crate::header::{PacketHeader, PacketType, QUIC_V1_VERSION, QUIC_V2_DRAFT_VERSION, QUIC_V2_VERSION};
use crate::quic::Quic;
use crate::connection::{local_cid_at, tuple_at, Connection};
use crate::types::{Error, InternalError, SocketAddr, State};

verus! {

/// A packet that belongs to no connection, ready to be sent.
#[derive(Debug)]
pub struct StatelessPacket {
    /// The packet's bytes, all of them to be sent.
    pub bytes: Vec<u8>,
    pub packet_type: PacketType,
    /// Where the packet goes.
    pub addr_to: SocketAddr,
    /// The local address it leaves from.
    pub addr_local: SocketAddr,
    pub if_index_local: i32,
    /// Connection ID folded to 64 bits, for the logs.
    pub connection_id_log64: u64,
    /// Connection ID under which the packet is logged when sent.
    pub initial_connection_id: ConnectionId,
}

/// What the sender hands to the socket layer for one datagram.
#[derive(Debug)]
pub struct PreparedPacket {
    /// Number of bytes written into the send buffer.
    pub send_length: usize,
    pub addr_to: SocketAddr,
    pub addr_from: SocketAddr,
    pub if_index: i32,
    /// Connection ID to log for this packet.
    pub log_cid: ConnectionId,
    /// Index of the connection that produced the packet, if one did.
    pub last_connection: Option<usize>,
    /// Segment size when the datagram is a coalesced train.
    pub send_msg_size: Option<usize>,
}

/// `p` sends nothing: no length, no addresses, interface -1, logged under
/// `log_cid`, from no connection.
pub open spec fn is_empty_packet(p: PreparedPacket, log_cid: Seq<u8>) -> bool {
    &&& p.send_length == 0
    &&& p.addr_to == crate::types::spec_unspecified_addr()
    &&& p.addr_from == crate::types::spec_unspecified_addr()
    &&& p.if_index == -1
    &&& p.log_cid@ == log_cid
    &&& p.last_connection is None
    &&& p.send_msg_size is None
}

/// Sending stateless packet `sp` from a buffer holding `before` leaves it
/// holding `after` and answers `p`: the packet is copied to the front of
/// the buffer and sent to its addresses, or, when longer than the buffer,
/// dropped with nothing sent.
pub open spec fn stateless_sent(sp: StatelessPacket, before: Seq<u8>, after: Seq<u8>, p: PreparedPacket) -> bool {
    let n = sp.bytes@.len();
    if n > before.len() {
        after == before && is_empty_packet(p, Seq::empty())
    } else {
        &&& after == sp.bytes@ + before.subrange(n as int, before.len() as int)
        &&& p.send_length == n && p.addr_to == sp.addr_to && p.addr_from == sp.addr_local
        &&& p.if_index == sp.if_index_local && p.log_cid == sp.initial_connection_id
        &&& p.last_connection is None && p.send_msg_size is None
    }
}

/// The four bytes of `v`, most significant first.
pub open spec fn be32_bytes(v: u32) -> Seq<u8> {
    seq![(v >> 24u32) as u8, (v >> 16u32) as u8, (v >> 8u32) as u8, v as u8]
}

/// A version negotiation packet in reply to a packet whose destination ID
/// is `dcid` and source ID is `scid`: the long-header flag byte, a zero
/// version, the IDs swapped (each after its length), then the versions
/// this stack offers: version 1, version 2 and the draft of version 2.
pub open spec fn version_negotiation_bytes(dcid: Seq<u8>, scid: Seq<u8>) -> Seq<u8> {
    seq![0x80u8, 0u8, 0u8, 0u8, 0u8] + seq![scid.len() as u8] + scid + seq![dcid.len() as u8] + dcid
        + be32_bytes(QUIC_V1_VERSION) + be32_bytes(QUIC_V2_VERSION) + be32_bytes(QUIC_V2_DRAFT_VERSION)
}

/// A queue after `sp` was queued on it.
pub open spec fn queued(q: Seq<StatelessPacket>, sp: StatelessPacket) -> Seq<StatelessPacket> {
    q.push(sp)
}

/// What taking the next packet from queue `q` gives, and the queue after.
pub open spec fn dequeued(q: Seq<StatelessPacket>) -> (Option<StatelessPacket>, Seq<StatelessPacket>) {
    if q.len() == 0 {
        (None, q)
    } else {
        (Some(q[0]), q.drop_first())
    }
}

/// Packets leave the queue in the order they were queued: a packet queued
/// on an empty queue is the next one out, and one queued behind others
/// leaves the first of them in front.
pub proof fn law_stateless_queue_is_fifo(q: Seq<StatelessPacket>, sp: StatelessPacket)
    ensures
        q.len() == 0 ==> dequeued(queued(q, sp)) == (Some(sp), Seq::<StatelessPacket>::empty()),
        q.len() > 0 ==> dequeued(queued(q, sp)) == (Some(q[0]), queued(dequeued(q).1, sp)),
{
    if q.len() == 0 {
        assert(queued(q, sp).drop_first() =~= Seq::<StatelessPacket>::empty());
    } else {
        assert(queued(q, sp).drop_first() =~= q.drop_first().push(sp));
    }
}

/// Take the oldest packet of queue `q`.
fn take_oldest(q: &mut Vec<StatelessPacket>) -> (r: Option<StatelessPacket>)
    ensures
        (r, final(q)@) == dequeued(old(q)@),
{
    if q.len() == 0 {
        None
    } else {
        let sp = q.remove(0);
        proof {
            assert(q@ =~= old(q)@.drop_first());
        }
        Some(sp)
    }
}

/// Append `b` to `out`.
fn push_slice(out: &mut Vec<u8>, b: &[u8])
    ensures
        final(out)@ == old(out)@ + b@,
{
    let mut i: usize = 0;
    while i < b.len()
        invariant
            i <= b@.len(),
            out@ == old(out)@ + b@.subrange(0, i as int),
        decreases b.len() - i,
    {
        out.push(b[i]);
        i = i + 1;
        assert(b@.subrange(0, i as int) =~= b@.subrange(0, i - 1 as int).push(b@[i - 1]));
        assert(out@ =~= old(out)@ + b@.subrange(0, i as int));
    }
    assert(b@.subrange(0, b@.len() as int) =~= b@);
}

/// Append the four bytes of `v`, most significant first.
fn push_be32(out: &mut Vec<u8>, v: u32)
    ensures
        final(out)@ == old(out)@ + be32_bytes(v),
{
    out.push((v >> 24u32) as u8);
    out.push((v >> 16u32) as u8);
    out.push((v >> 8u32) as u8);
    out.push(v as u8);
    assert(out@ =~= old(out)@ + be32_bytes(v));
}

/// The bytes of a version negotiation packet that answers the packet
/// whose header is `ph`.
pub fn version_negotiation_packet_bytes(ph: &PacketHeader) -> (r: Vec<u8>)
    ensures
        r@ == version_negotiation_bytes(ph.dest_connection_id@, ph.src_connection_id@),
{
    let mut out: Vec<u8> = Vec::new();
    out.push(0x80u8);
    out.push(0u8);
    out.push(0u8);
    out.push(0u8);
    out.push(0u8);
    let slen = ph.src_connection_id.len();
    out.push(slen as u8);
    push_slice(&mut out, ph.src_connection_id.as_bytes());
    let dlen = ph.dest_connection_id.len();
    out.push(dlen as u8);
    push_slice(&mut out, ph.dest_connection_id.as_bytes());
    push_be32(&mut out, QUIC_V1_VERSION);
    push_be32(&mut out, QUIC_V2_VERSION);
    push_be32(&mut out, QUIC_V2_DRAFT_VERSION);
    proof {
        let scid = ph.src_connection_id@;
        let dcid = ph.dest_connection_id@;
        assert(out@ =~= version_negotiation_bytes(dcid, scid));
    }
    out
}

impl Quic {
    /// Queue `sp` behind the stateless packets already waiting.
    pub fn queue_stateless_packet(&mut self, sp: StatelessPacket)
        ensures
            final(self).pending_stateless_packets@ == queued(old(self).pending_stateless_packets@, sp),
            *final(self) == (Quic { pending_stateless_packets: final(self).pending_stateless_packets, ..*old(self) }),
    {
        self.pending_stateless_packets.push(sp);
    }

    /// Take the stateless packet that has waited longest, if any.
    pub fn dequeue_stateless_packet(&mut self) -> (r: Option<StatelessPacket>)
        ensures
            (r, final(self).pending_stateless_packets@) == dequeued(old(self).pending_stateless_packets@),
            *final(self) == (Quic { pending_stateless_packets: final(self).pending_stateless_packets, ..*old(self) }),
    {
        take_oldest(&mut self.pending_stateless_packets)
    }

    /// Queue a version negotiation packet in reply to the packet with header
    /// `ph` that came from `addr_from` to `addr_to` on interface
    /// `if_index_to`: it goes back to `addr_from`, leaving from `addr_to`.
    pub fn queue_version_negotiation_packet(
        &mut self,
        addr_from: &SocketAddr,
        addr_to: &SocketAddr,
        if_index_to: i32,
        ph: &PacketHeader,
    )
        ensures
            ({
                let q0 = old(self).pending_stateless_packets@;
                let q1 = final(self).pending_stateless_packets@;
                let sp = q1.last();
                &&& q1.len() == q0.len() + 1
                &&& q1.drop_last() == q0
                &&& sp.bytes@ == version_negotiation_bytes(ph.dest_connection_id@, ph.src_connection_id@)
                &&& sp.packet_type == PacketType::VersionNegotiation
                &&& sp.addr_to == *addr_from
                &&& sp.addr_local == *addr_to
                &&& sp.if_index_local == if_index_to
                &&& sp.connection_id_log64 == crate::cid::spec_val64(ph.dest_connection_id@)
                &&& sp.initial_connection_id@ == Seq::<u8>::empty()
            }),
            *final(self) == (Quic { pending_stateless_packets: final(self).pending_stateless_packets, ..*old(self) }),
    {
        let bytes = version_negotiation_packet_bytes(ph);
        let sp = StatelessPacket {
            bytes,
            packet_type: PacketType::VersionNegotiation,
            addr_to: *addr_from,
            addr_local: *addr_to,
            if_index_local: if_index_to,
            connection_id_log64: ph.dest_connection_id.val64(),
            initial_connection_id: ConnectionId::empty(),
        };
        self.queue_stateless_packet(sp);
    }

    /// A version negotiation packet `bytes` with header `ph` arrived for
    /// client connection `connection`; `versions` is the table of supported
    /// versions.  A connection that has not just sent its first packets
    /// ignores it.  One that does not answer that first packet is
    /// `Detected`; one listing the proposed version is
    /// `VersionNegotiationSpoofed`; one without a supported version is
    /// `VersionNotSupported`.  Otherwise the connection takes the first
    /// supported version listed as desired version and renegotiates, which
    /// is reported as `VersionNegotiation`.  Without such a connection the
    /// packet is `UnexpectedPacket`.
    pub fn incoming_version_negotiation(
        &mut self,
        connection: usize,
        bytes: &[u8],
        ph: &PacketHeader,
        versions: &[u32],
    ) -> (r: Result<(), Error>)
        ensures
            connection >= old(self).connections@.len() ==> r == Err::<(), Error>(
                Error::Internal(InternalError::UnexpectedPacket),
            ) && *final(self) == *old(self),
            connection < old(self).connections@.len() ==> ({
                let (res, c) = version_negotiation_outcome(old(self).connections@[connection as int], bytes@, *ph, versions@);
                &&& r == res
                &&& c is None ==> *final(self) == *old(self)
                &&& c matches Some(c1) ==> *final(self) == (Quic {
                    connections: final(self).connections,
                    ..*old(self)
                }) && final(self).connections@ == old(self).connections@.update(connection as int, c1)
            }),
    {
        if connection >= self.connections.len() {
            return Err(Error::Internal(InternalError::UnexpectedPacket));
        }
        if self.connections[connection].connection_state != State::ClientInitSent {
            return Ok(());
        }
        let local_ok = match self.connections[connection].path_local_connection_id(0) {
            Some(id) => id.same_as(&ph.dest_connection_id),
            None => false,
        };
        if !local_ok || ph.version != 0 || !ph.src_connection_id.same_as(&self.connections[connection].initial_connection_id) {
            return Err(Error::Internal(InternalError::Detected));
        }
        match offered_versions(bytes, ph.offset, self.connections[connection].proposed_version, versions) {
            OfferedVersions::Spoofed => Err(Error::Internal(InternalError::VersionNegotiationSpoofed)),
            OfferedVersions::Unsupported => Err(Error::Internal(InternalError::VersionNotSupported)),
            OfferedVersions::Supported(v) => {
                conns_start_renegotiation(&mut self.connections, connection, v);
                Err(Error::Internal(InternalError::VersionNegotiation))
            },
        }
    }

    /// Whether a packet whose processing ended in `e` is dropped without
    /// further notice.
    pub fn is_silent_drop_status(e: InternalError) -> (r: bool)
        ensures
            r == silent_drop(e),
    {
        match e {
            InternalError::AeadCheck | InternalError::InitialTooShort | InternalError::PacketWrongVersion
            | InternalError::InitialCidTooShort | InternalError::PortBlocked | InternalError::UnexpectedPacket
            | InternalError::CnxidCheck | InternalError::Retry | InternalError::Detected | InternalError::ServerBusy
            | InternalError::ConnectionDeleted | InternalError::CnxidSegment | InternalError::VersionNotSupported
            | InternalError::PacketTooLong | InternalError::Duplicate | InternalError::AeadNotReady
            | InternalError::Redirected => true,
            _ => false,
        }
    }

    /// Whether a silently dropped packet that ended in `e` still counts as
    /// handled, so that the caller sees success.
    pub fn silent_drop_status_returns_zero(e: InternalError) -> (r: bool)
        ensures
            r == silent_drop_counts_as_handled(e),
    {
        match e {
            InternalError::AeadCheck | InternalError::PacketWrongVersion | InternalError::AeadNotReady
            | InternalError::PacketTooLong | InternalError::VersionNotSupported | InternalError::Retry
            | InternalError::ServerBusy | InternalError::Redirected => true,
            _ => false,
        }
    }

    /// The first step of sending: the stateless packet that has waited
    /// longest, copied to the front of `send_buffer`.  `None` when no such
    /// packet waits.  A packet longer than the buffer is dropped, and the
    /// answer then has nothing to send, no addresses and interface -1.
    pub fn prepare_stateless_packet(&mut self, send_buffer: &mut [u8]) -> (r: Option<PreparedPacket>)
        ensures
            *final(self) == (Quic { pending_stateless_packets: final(self).pending_stateless_packets, ..*old(self) }),
            final(self).pending_stateless_packets@ == dequeued(old(self).pending_stateless_packets@).1,
            old(self).pending_stateless_packets@.len() == 0 ==> r is None && final(send_buffer)@ == old(send_buffer)@,
            old(self).pending_stateless_packets@.len() > 0 ==> (r matches Some(p) && stateless_sent(
                old(self).pending_stateless_packets@[0],
                old(send_buffer)@,
                final(send_buffer)@,
                p,
            )),
    {
        match self.dequeue_stateless_packet() {
            None => None,
            Some(sp) => {
                if sp.bytes.len() > send_buffer.len() {
                    return Some(PreparedPacket {
                        send_length: 0,
                        addr_to: SocketAddr::unspecified(),
                        addr_from: SocketAddr::unspecified(),
                        if_index: -1,
                        log_cid: ConnectionId::empty(),
                        last_connection: None,
                        send_msg_size: None,
                    });
                }
                copy_into(send_buffer, sp.bytes.as_slice());
                Some(PreparedPacket {
                    send_length: sp.bytes.len(),
                    addr_to: sp.addr_to,
                    addr_from: sp.addr_local,
                    if_index: sp.if_index_local,
                    log_cid: sp.initial_connection_id,
                    last_connection: None,
                    send_msg_size: None,
                })
            },
        }
    }
}

/// What the version list of a version negotiation packet tells a client.
#[derive(Debug, Copy, Clone, PartialEq, Eq, Structural)]
pub enum OfferedVersions {
    /// The list holds the version the client proposed: the packet is forged.
    Spoofed,
    /// The first listed version this stack supports.
    Supported(u32),
    /// No listed version is supported.
    Unsupported,
}

/// The big-endian 32-bit number in bytes `k..k+4` of `s`.
pub open spec fn be32_value(s: Seq<u8>, k: int) -> u32 {
    (s[k] as int * 0x100_0000 + s[k + 1] as int * 0x1_0000 + s[k + 2] as int * 0x100 + s[k + 3] as int) as u32
}

/// Scan the versions listed in `bytes` in four-byte steps from `k`: the
/// first that is the proposed one makes the packet a forgery, else the
/// first in the supported table `versions` is taken.
pub open spec fn scan_offered_versions(bytes: Seq<u8>, k: int, proposed: u32, versions: Seq<u32>) -> OfferedVersions
    decreases bytes.len() - k,
{
    if k < 0 || k + 4 > bytes.len() {
        OfferedVersions::Unsupported
    } else if be32_value(bytes, k) == proposed {
        OfferedVersions::Spoofed
    } else if versions.contains(be32_value(bytes, k)) {
        OfferedVersions::Supported(be32_value(bytes, k))
    } else {
        scan_offered_versions(bytes, k + 4, proposed, versions)
    }
}

/// Whether `v` is in `versions`.
fn has_version(versions: &[u32], v: u32) -> (r: bool)
    ensures
        r == versions@.contains(v),
{
    let mut i: usize = 0;
    while i < versions.len()
        invariant
            i <= versions@.len(),
            forall|j: int| 0 <= j < i ==> versions@[j] != v,
        decreases versions.len() - i,
    {
        if versions[i] == v {
            return true;
        }
        i = i + 1;
    }
    false
}

/// Scan the version list of a version negotiation packet from `offset`.
pub fn offered_versions(bytes: &[u8], offset: usize, proposed: u32, versions: &[u32]) -> (r: OfferedVersions)
    ensures
        r == scan_offered_versions(bytes@, offset as int, proposed, versions@),
{
    let mut k: usize = offset;
    while k <= bytes.len() && bytes.len() - k >= 4
        invariant
            scan_offered_versions(bytes@, offset as int, proposed, versions@) == scan_offered_versions(
                bytes@,
                k as int,
                proposed,
                versions@,
            ),
        decreases bytes.len() + 4 - k,
    {
        let v: u32 = (bytes[k] as u32) * 0x100_0000 + (bytes[k + 1] as u32) * 0x1_0000 + (bytes[k + 2] as u32) * 0x100
            + (bytes[k + 3] as u32);
        if v == proposed {
            return OfferedVersions::Spoofed;
        }
        if has_version(versions, v) {
            return OfferedVersions::Supported(v);
        }
        k = k + 4;
    }
    OfferedVersions::Unsupported
}

/// Whether a version negotiation packet with header `ph` answers the first
/// packet of client connection `c`: sent to its local ID on the first path,
/// with version zero, from the ID the client chose as initial one.
pub open spec fn answers_first_packet(c: Connection, ph: PacketHeader) -> bool {
    &&& match tuple_at(c.paths@, 0) {
        Some(t) => local_cid_at(c, t.local_connection_id) matches Some(id) && id@ == ph.dest_connection_id@,
        None => false,
    }
    &&& ph.version == 0
    &&& ph.src_connection_id@ == c.initial_connection_id@
}

/// What a version negotiation packet does to connection `c` and what it
/// answers; `None` for the connection when it stays as it was.
pub open spec fn version_negotiation_outcome(c: Connection, bytes: Seq<u8>, ph: PacketHeader, versions: Seq<u32>) -> (
    Result<(), Error>,
    Option<Connection>,
) {
    if c.connection_state != State::ClientInitSent {
        (Ok(()), None)
    } else if !answers_first_packet(c, ph) {
        (Err(Error::Internal(InternalError::Detected)), None)
    } else {
        match scan_offered_versions(bytes, ph.offset as int, c.proposed_version, versions) {
            OfferedVersions::Spoofed => (Err(Error::Internal(InternalError::VersionNegotiationSpoofed)), None),
            OfferedVersions::Unsupported => (Err(Error::Internal(InternalError::VersionNotSupported)), None),
            OfferedVersions::Supported(v) => (
                Err(Error::Internal(InternalError::VersionNegotiation)),
                Some(renegotiating(c, v)),
            ),
        }
    }
}

/// The statuses on which a packet is dropped without further notice.
pub open spec fn silent_drop(e: InternalError) -> bool {
    e is AeadCheck || e is InitialTooShort || e is PacketWrongVersion || e is InitialCidTooShort || e is PortBlocked
        || e is UnexpectedPacket || e is CnxidCheck || e is Retry || e is Detected || e is ServerBusy
        || e is ConnectionDeleted || e is CnxidSegment || e is VersionNotSupported || e is PacketTooLong
        || e is Duplicate || e is AeadNotReady || e is Redirected
}

/// The silent-drop statuses after which the packet still counts as handled.
pub open spec fn silent_drop_counts_as_handled(e: InternalError) -> bool {
    e is AeadCheck || e is PacketWrongVersion || e is AeadNotReady || e is PacketTooLong || e is VersionNotSupported
        || e is Retry || e is ServerBusy || e is Redirected
}

/// A status after which a dropped packet counts as handled is always one
/// on which the packet is dropped silently.
pub proof fn law_handled_drops_are_silent(e: InternalError)
    ensures
        silent_drop_counts_as_handled(e) ==> silent_drop(e),
{
}

/// A version negotiation packet of this stack, read by a client that
/// proposed another version and supports version 1, leads it to version 1:
/// the list starts right after the two IDs with version 1.
pub proof fn law_version_negotiation_offers_v1(dcid: Seq<u8>, scid: Seq<u8>, proposed: u32, versions: Seq<u32>)
    requires
        proposed != QUIC_V1_VERSION,
        versions.contains(QUIC_V1_VERSION),
    ensures
        scan_offered_versions(
            version_negotiation_bytes(dcid, scid),
            (7 + dcid.len() + scid.len()) as int,
            proposed,
            versions,
        ) == OfferedVersions::Supported(QUIC_V1_VERSION),
{
    let b = version_negotiation_bytes(dcid, scid);
    let k: int = (7 + dcid.len() + scid.len()) as int;
    let v1: u32 = QUIC_V1_VERSION;
    assert((v1 >> 24u32) as u8 == 0u8 && (v1 >> 16u32) as u8 == 0u8 && (v1 >> 8u32) as u8 == 0u8 && v1 as u8 == 1u8)
        by (bit_vector)
        requires
            v1 == 1u32,
    ;
    assert(b[k] == 0u8 && b[k + 1] == 0u8 && b[k + 2] == 0u8 && b[k + 3] == 1u8);
    assert(be32_value(b, k) == QUIC_V1_VERSION);
}

/// `c` renegotiating with version `v`.
pub open spec fn renegotiating(c: Connection, v: u32) -> Connection {
    Connection { desired_version: v, connection_state: State::ClientRenegotiate, ..c }
}

impl Connection {
    /// Take `v` as desired version and go back to renegotiation.
    fn start_renegotiation(&mut self, v: u32)
        ensures
            *final(self) == renegotiating(*old(self), v),
    {
        self.desired_version = v;
        self.connection_state = State::ClientRenegotiate;
    }
}

/// Move connection `ci` of `conns` to renegotiation with version `v`.
fn conns_start_renegotiation(conns: &mut Vec<Connection>, ci: usize, v: u32)
    requires
        ci < old(conns)@.len(),
    ensures
        final(conns)@ == old(conns)@.update(ci as int, renegotiating(old(conns)@[ci as int], v)),
{
    let mut c = conns.remove(ci);
    c.start_renegotiation(v);
    conns.insert(ci, c);
    proof {
        assert(conns@ =~= old(conns)@.update(ci as int, renegotiating(old(conns)@[ci as int], v)));
    }
}

/// Copy `src` over the front of `dst`.
fn copy_into(dst: &mut [u8], src: &[u8])
    requires
        src@.len() <= old(dst)@.len(),
    ensures
        final(dst)@ == src@ + old(dst)@.subrange(src@.len() as int, old(dst)@.len() as int),
{
    let mut i: usize = 0;
    while i < src.len()
        invariant
            i <= src@.len(),
            src@.len() <= old(dst)@.len(),
            dst@.len() == old(dst)@.len(),
            forall|j: int| 0 <= j < i ==> dst@[j] == src@[j],
            forall|j: int| i <= j < dst@.len() ==> dst@[j] == old(dst)@[j],
        decreases src.len() - i,
    {
        dst[i] = src[i];
        i = i + 1;
    }
    assert(dst@ =~= src@ + old(dst)@.subrange(src@.len() as int, old(dst)@.len() as int));
}

} // verus!
