//! Choosing what the QUIC context sends next: stateless packets first,
//! then the connection due the earliest, and what becomes of a
//! connection's answer.

use vstd::prelude::*;
use crate::cid::ConnectionId;
use crate::connection::primary_tuple;
use crate::quic::{is_earliest_to_wake, waking_at, Quic};
use crate::stateless::{dequeued, is_empty_packet, stateless_sent, PreparedPacket};
use crate::initial::ENFORCED_INITIAL_MTU;
use crate::types::{state_rank, Error, Instant, InternalError, SocketAddr, State};

verus! {

/// A datagram prepared by one connection.
#[derive(Debug, Copy, Clone, PartialEq, Eq, Structural)]
pub struct PreparedCnxPacket {
    pub send_length: usize,
    pub addr_to: SocketAddr,
    pub addr_from: SocketAddr,
    pub if_index: i32,
    pub send_msg_size: Option<usize>,
}

/// The first step of sending.
#[derive(Debug)]
pub enum NextSend {
    /// This datagram is ready (possibly with nothing to send).
    Packet(PreparedPacket),
    /// This connection is due: it prepares the datagram.
    Connection(usize),
}

/// A datagram with nothing to send.
fn empty_packet(log_cid: ConnectionId) -> (r: PreparedPacket)
    ensures
        is_empty_packet(r, log_cid@),
        r.log_cid == log_cid,
{
    PreparedPacket {
        send_length: 0,
        addr_to: SocketAddr::unspecified(),
        addr_from: SocketAddr::unspecified(),
        if_index: -1,
        log_cid,
        last_connection: None,
        send_msg_size: None,
    }
}

/// Connection `cnx` logs under its initial ID; no connection under the
/// empty ID.
pub open spec fn log_cid_of(q: Quic, cnx: usize) -> Seq<u8> {
    if cnx < q.connections@.len() {
        q.connections@[cnx as int].initial_connection_id@
    } else {
        Seq::empty()
    }
}

/// The interface of the answer: the connection's own when it gives none.
pub open spec fn answer_if_index(q: Quic, cnx: usize, if_index: i32) -> i32 {
    if if_index != -1 {
        if_index
    } else if cnx < q.connections@.len() {
        (match primary_tuple(q.connections@[cnx as int].paths@) {
            Some(t) => t.if_index as u32,
            None => 0u32,
        }) as i32
    } else {
        -1i32
    }
}

impl Quic {
    /// The first step of preparing the next datagram at `current_time`:
    /// the stateless packet that has waited longest, copied into
    /// `send_buffer`; else the connection due the earliest (the first of
    /// the least wake time), which prepares the datagram itself; else a
    /// datagram with nothing to send.
    pub fn prepare_next_packet_start(&mut self, current_time: Instant, send_buffer: &mut [u8]) -> (r: NextSend)
        ensures
            old(self).pending_stateless_packets@.len() > 0 ==> ({
                &&& *final(self) == (Quic {
                    pending_stateless_packets: final(self).pending_stateless_packets,
                    ..*old(self)
                })
                &&& final(self).pending_stateless_packets@ == dequeued(old(self).pending_stateless_packets@).1
                &&& r matches NextSend::Packet(p) && stateless_sent(
                    old(self).pending_stateless_packets@[0],
                    old(send_buffer)@,
                    final(send_buffer)@,
                    p,
                )
            }),
            old(self).pending_stateless_packets@.len() == 0 ==> ({
                &&& *final(self) == *old(self)
                &&& final(send_buffer)@ == old(send_buffer)@
                &&& r matches NextSend::Connection(i) ==> is_earliest_to_wake(old(self).connections@, current_time, i as int)
                &&& r matches NextSend::Packet(p) ==> is_empty_packet(p, Seq::empty()) && forall|j: int|
                    0 <= j < old(self).connections@.len() ==> #[trigger] old(self).connections@[j].next_wake_time
                        > current_time
            }),
    {
        if self.pending_stateless_packets.len() > 0 {
            match self.prepare_stateless_packet(send_buffer) {
                Some(p) => NextSend::Packet(p),
                None => NextSend::Packet(empty_packet(ConnectionId::empty())),
            }
        } else {
            match self.earliest_cnx_to_wake(current_time) {
                Some(i) => NextSend::Connection(i),
                None => NextSend::Packet(empty_packet(ConnectionId::empty())),
            }
        }
    }

    /// What becomes of connection `cnx`'s answer `res` to preparing a
    /// datagram.  A success is the datagram, logged under the connection's
    /// initial ID and on its interface when it names none.  A disconnected
    /// connection sends nothing: a client is put to sleep for ever, and a
    /// server connection is to be deleted (its index is the second part of
    /// the answer).  Any other error is handed on.
    pub fn after_connection_prepare(&mut self, cnx: usize, res: Result<PreparedCnxPacket, Error>) -> (r: (
        Result<PreparedPacket, Error>,
        Option<usize>,
    ))
        ensures
            prepare_answer(
                log_cid_of(*old(self), cnx),
                cnx < old(self).connections@.len(),
                cnx < old(self).connections@.len() ==> old(self).connections@[cnx as int].client_mode,
                answer_if_index(*old(self), cnx, -1i32),
                cnx,
                res,
                r,
            ),
            sleeps_after_prepare(*old(self), cnx, res) ==> *final(self) == (Quic {
                connections: final(self).connections,
                ..*old(self)
            }) && final(self).connections@ == old(self).connections@.update(
                cnx as int,
                waking_at(old(self).connections@[cnx as int], u64::MAX),
            ),
            !sleeps_after_prepare(*old(self), cnx, res) ==> *final(self) == *old(self),
    {
        let info = self.send_info(cnx);
        let sleep = match res {
            Err(Error::Disconnected) => info.exists && info.is_client,
            _ => false,
        };
        let r = answer_after_prepare(info, cnx, res);
        if sleep {
            self.reinsert_by_wake_time(cnx, u64::MAX);
        }
        r
    }

    /// What the sender needs to know of connection `cnx`.
    fn send_info(&self, cnx: usize) -> (r: CnxSendInfo)
        ensures
            r.exists == (cnx < self.connections@.len()),
            r.log_cid@ == log_cid_of(*self, cnx),
            r.is_client == (cnx < self.connections@.len() ==> self.connections@[cnx as int].client_mode),
            r.own_if == answer_if_index(*self, cnx, -1i32),
    {
        if cnx < self.connections.len() {
            CnxSendInfo {
                exists: true,
                log_cid: self.connections[cnx].initial_connection_id,
                is_client: self.connections[cnx].client_mode,
                own_if: self.connections[cnx].local_if_index() as i32,
            }
        } else {
            CnxSendInfo { exists: false, log_cid: ConnectionId::empty(), is_client: true, own_if: -1 }
        }
    }
}

/// What the sender needs to know of a connection: whether it exists, the
/// ID it logs under, whether it is a client, and its own interface.
#[derive(Debug, Copy, Clone)]
pub struct CnxSendInfo {
    pub exists: bool,
    pub log_cid: ConnectionId,
    pub is_client: bool,
    pub own_if: i32,
}

/// Whether the answer puts connection `cnx` of `q` to sleep for ever: an
/// existing client that disconnected.
pub open spec fn sleeps_after_prepare(q: Quic, cnx: usize, res: Result<PreparedCnxPacket, Error>) -> bool {
    cnx < q.connections@.len() && q.connections@[cnx as int].client_mode && res == Err::<PreparedCnxPacket, Error>(
        Error::Disconnected,
    )
}

/// `r` is the answer after connection `cnx` answered `res`, for a
/// connection that logs under `log`, `exists` or not, is a client or not,
/// and has its own interface `own_if`: the datagram, and the connection
/// to delete.
pub open spec fn prepare_answer(
    log: Seq<u8>,
    exists: bool,
    is_client: bool,
    own_if: i32,
    cnx: usize,
    res: Result<PreparedCnxPacket, Error>,
    r: (Result<PreparedPacket, Error>, Option<usize>),
) -> bool {
    match res {
        Err(Error::Disconnected) => (r.0 matches Ok(p) && is_empty_packet(p, log)) && r.1 == (if exists && !is_client {
            Some(cnx)
        } else {
            None
        }),
        Err(e) => r.0 == Err::<PreparedPacket, Error>(e) && r.1 is None,
        Ok(c) => r.1 is None && (r.0 matches Ok(p) && p.send_length == c.send_length && p.addr_to == c.addr_to
            && p.addr_from == c.addr_from && p.if_index == (if c.if_index == -1 { own_if } else { c.if_index })
            && p.log_cid@ == log && p.send_msg_size == c.send_msg_size && p.last_connection == (if exists {
            Some(cnx)
        } else {
            None
        })),
    }
}

/// The answer after connection `cnx`, described by `info`, answered `res`.
fn answer_after_prepare(info: CnxSendInfo, cnx: usize, res: Result<PreparedCnxPacket, Error>) -> (r: (
    Result<PreparedPacket, Error>,
    Option<usize>,
))
    ensures
        prepare_answer(info.log_cid@, info.exists, info.is_client, info.own_if, cnx, res, r),
{
    match res {
        Err(Error::Disconnected) => (Ok(empty_packet(info.log_cid)), if info.exists && !info.is_client {
            Some(cnx)
        } else {
            None
        }),
        Err(e) => (Err(e), None),
        Ok(c) => (
            Ok(PreparedPacket {
                send_length: c.send_length,
                addr_to: c.addr_to,
                addr_from: c.addr_from,
                if_index: if c.if_index == -1 { info.own_if } else { c.if_index },
                log_cid: info.log_cid,
                last_connection: if info.exists { Some(cnx) } else { None },
                send_msg_size: c.send_msg_size,
            }),
            None,
        ),
    }
}

/// A connection refuses to prepare into a buffer smaller than the
/// smallest datagram that may carry a client's first Initial packet.
pub fn check_send_buffer(send_buffer_len: usize) -> (r: Result<(), InternalError>)
    ensures
        r == (if send_buffer_len < ENFORCED_INITIAL_MTU {
            Err::<(), InternalError>(InternalError::SendBufferTooSmall)
        } else {
            Ok(())
        }),
{
    if send_buffer_len < ENFORCED_INITIAL_MTU {
        Err(InternalError::SendBufferTooSmall)
    } else {
        Ok(())
    }
}

/// What formatting one packet of a datagram gave.
#[derive(Debug, Copy, Clone, PartialEq, Eq, Structural)]
pub enum SegmentResult {
    /// A segment of `segment_length` bytes, for a packet of
    /// `packet_length` bytes, 1-RTT or not.
    Formatted { segment_length: usize, packet_length: usize, is_one_rtt: bool },
    /// Formatting failed.
    Failed,
}

/// How coalescing goes on after a packet: the bytes coalesced so far,
/// whether another packet is tried, and whether the datagram failed.
pub open spec fn spec_coalesce_step(coalesced: usize, seg: SegmentResult, dont_coalesce_init: bool) -> (
    usize,
    bool,
    bool,
) {
    match seg {
        SegmentResult::Formatted { segment_length, packet_length, is_one_rtt } => {
            let c = (coalesced + segment_length) as usize;
            (c, !(packet_length == 0 || is_one_rtt || segment_length == 0 || dont_coalesce_init), false)
        },
        SegmentResult::Failed => (coalesced, false, coalesced == 0),
    }
}

/// One step of coalescing packets into a datagram of at most `packet_max`
/// bytes: a formatted segment is added and another packet is tried unless
/// this one was empty, 1-RTT, or coalescing is off; a failure ends the
/// datagram, and fails it only when nothing was coalesced yet.  The
/// segment fits in what is left of the datagram, so the datagram never
/// grows past `packet_max`.
pub fn coalesce_step(coalesced: usize, packet_max: usize, seg: SegmentResult, dont_coalesce_init: bool) -> (r: (
    usize,
    bool,
    bool,
))
    requires
        coalesced <= packet_max,
        seg matches SegmentResult::Formatted { segment_length, .. } ==> segment_length <= packet_max - coalesced,
    ensures
        r == spec_coalesce_step(coalesced, seg, dont_coalesce_init),
        r.0 <= packet_max,
{
    match seg {
        SegmentResult::Formatted { segment_length, packet_length, is_one_rtt } => (
            coalesced + segment_length,
            !(packet_length == 0 || is_one_rtt || segment_length == 0 || dont_coalesce_init),
            false,
        ),
        SegmentResult::Failed => (coalesced, false, coalesced == 0),
    }
}

/// The datagram's length after padding: a datagram carrying an Initial
/// packet, sent before the handshake is almost done and shorter than the
/// smallest allowed first datagram, is padded to the whole buffer.
pub open spec fn spec_initial_padding(coalesced: usize, packet_max: usize, is_initial_sent: bool, s: State) -> usize {
    if is_initial_sent && state_rank(s) < state_rank(State::ClientAlmostReady) && coalesced > 0 && coalesced
        < ENFORCED_INITIAL_MTU {
        packet_max
    } else {
        coalesced
    }
}

/// Pad a datagram holding an Initial packet (see `spec_initial_padding`).
pub fn initial_padding(coalesced: usize, packet_max: usize, is_initial_sent: bool, s: State) -> (r: usize)
    requires
        coalesced <= packet_max,
    ensures
        r == spec_initial_padding(coalesced, packet_max, is_initial_sent, s),
        r <= packet_max,
{
    if is_initial_sent && s.rank() < State::ClientAlmostReady.rank() && coalesced > 0 && coalesced
        < ENFORCED_INITIAL_MTU {
        packet_max
    } else {
        coalesced
    }
}

} // verus!
