//! The decisions taken on a received packet: what a segment of a datagram
//! leads to, whether a 1-RTT packet is taken, and how a client's Initial
//! packet is admitted and what is left of a connection created for it.

use vstd::prelude::*;
use crate::cid::ConnectionId;
use crate::cc::{sat_add, sat_sub};
use crate::connection::Connection;
use crate::header::{PacketHeader, PacketType};
use crate::initial::ENFORCED_INITIAL_MTU;
use crate::path::Path;
use crate::quic::Quic;
use crate::cnx_table::{secret_find, secret_lookup};
use crate::types::{
    blocked_ports, check_addr_blocked, spec_port, state_rank, Instant, InternalError, SocketAddr, State, RESET_PACKET_MIN_SIZE,
    RESET_SECRET_SIZE,
};

verus! {

/// Transport error code of a server that refuses connections (0x02).
pub const TRANSPORT_ERROR_SERVER_BUSY: u64 = 0x02;

/// Transport error code of a protocol violation (0x0a).
pub const TRANSPORT_ERROR_PROTOCOL_VIOLATION: u64 = 0x0a;

/// What is done with a segment of a received datagram.
#[derive(Debug, Copy, Clone, PartialEq, Eq, Structural)]
pub enum SegmentAction {
    /// Answer with a version negotiation packet.
    QueueVersionNegotiation,
    /// Answer with a retry packet.
    QueueRetry,
    /// Answer that the server is busy.
    QueueBusy,
    /// Hand the packet to its connection, by packet type.
    Dispatch(PacketType),
    /// The connection closes with a protocol violation.
    ProtocolViolation,
    /// The packet is a stateless reset of its connection.
    StatelessReset,
    /// A Handshake packet that did not decrypt on a client still sending
    /// Initial packets.
    HandshakeNotDecrypted,
    /// Nothing more is done.
    Drop,
}

/// The outcome of a segment: its status, whether it is the first segment
/// of its datagram, and what is done with it.
#[derive(Debug, Copy, Clone)]
pub struct SegmentDisposition {
    pub status: Result<(), InternalError>,
    pub is_first_segment: bool,
    pub action: SegmentAction,
}

/// Whether an answer may go to `addr_from`: the port is not blocked, or
/// port blocking is off.
pub open spec fn may_answer(q: Quic, addr_from: SocketAddr) -> bool {
    q.is_port_blocking_disabled || !blocked_ports().contains(spec_port(addr_from))
}

/// The status of a segment whose header parsed with `status`: a segment
/// after the first whose destination ID differs from the first's, or whose
/// version is not supported, does not belong to the datagram.
pub open spec fn segment_status(status: Result<(), InternalError>, dcid: Seq<u8>, previous_dcid: Seq<u8>) -> Result<
    (),
    InternalError,
> {
    if previous_dcid.len() > 0 && ((status is Ok && dcid != previous_dcid) || status == Err::<(), InternalError>(
        InternalError::VersionNotSupported,
    )) {
        Err(InternalError::CnxidSegment)
    } else {
        status
    }
}

/// What is done with a segment of status `st`, header `ph` and datagram
/// length `packet_length`, for `connection` (if one was found), from
/// `addr_from`; `reserved_bit_set` tells whether the header's reserved bits
/// were not zero.
pub open spec fn spec_segment_action(
    q: Quic,
    st: Result<(), InternalError>,
    ph: PacketHeader,
    packet_length: usize,
    connection: Option<usize>,
    addr_from: SocketAddr,
    reserved_bit_set: bool,
) -> SegmentAction {
    let answerable = packet_length >= ENFORCED_INITIAL_MTU && may_answer(q, addr_from);
    if st is Ok && connection is Some && ph.packet_type == PacketType::OneRttProtected && (ph.payload_length == 0
        || reserved_bit_set) {
        SegmentAction::ProtocolViolation
    } else if st == Err::<(), InternalError>(InternalError::VersionNotSupported) {
        if answerable { SegmentAction::QueueVersionNegotiation } else { SegmentAction::Drop }
    } else if st == Err::<(), InternalError>(InternalError::RetryNeeded) {
        if answerable { SegmentAction::QueueRetry } else { SegmentAction::Drop }
    } else if st == Err::<(), InternalError>(InternalError::ServerBusy) {
        if answerable { SegmentAction::QueueBusy } else { SegmentAction::Drop }
    } else if st is Ok {
        match connection {
            Some(_) => SegmentAction::Dispatch(ph.packet_type),
            None => if ph.dest_connection_id@.len() > 0 && may_answer(q, addr_from) {
                SegmentAction::QueueVersionNegotiation
            } else {
                SegmentAction::Drop
            },
        }
    } else if st == Err::<(), InternalError>(InternalError::StatelessReset) && connection is Some {
        SegmentAction::StatelessReset
    } else if st == Err::<(), InternalError>(InternalError::AeadCheck) && ph.packet_type == PacketType::Handshake
        && connection is Some {
        SegmentAction::HandshakeNotDecrypted
    } else {
        SegmentAction::Drop
    }
}

/// The status after the action: a packet without a connection is reported
/// as detected.
pub open spec fn status_after_action(st: Result<(), InternalError>, connection: Option<usize>) -> Result<
    (),
    InternalError,
> {
    if st is Ok && connection is None {
        Err(InternalError::Detected)
    } else {
        st
    }
}

impl Quic {
    /// Decide what a segment of a received datagram leads to.  `status` is
    /// what parsing and decrypting its header gave, `ph` the header,
    /// `packet_length` the datagram's length, `previous_dest_id` the
    /// destination ID of the datagram's first segment (empty for the first
    /// segment itself), `connection` the connection found for it, and
    /// `reserved_bit_set` whether its reserved header bits were set.
    pub fn segment_disposition(
        &self,
        status: Result<(), InternalError>,
        ph: &PacketHeader,
        packet_length: usize,
        previous_dest_id: &ConnectionId,
        connection: Option<usize>,
        addr_from: &SocketAddr,
        reserved_bit_set: bool,
    ) -> (r: SegmentDisposition)
        ensures
            r.is_first_segment == (previous_dest_id@.len() == 0),
            r.action == spec_segment_action(
                *self,
                segment_status(status, ph.dest_connection_id@, previous_dest_id@),
                *ph,
                packet_length,
                connection,
                *addr_from,
                reserved_bit_set,
            ),
            r.status == status_after_action(
                segment_status(status, ph.dest_connection_id@, previous_dest_id@),
                connection,
            ),
    {
        let is_first = previous_dest_id.is_empty();
        let mut st = status;
        if !is_first {
            let mismatch = match status {
                Ok(()) => !ph.dest_connection_id.same_as(previous_dest_id),
                Err(e) => e == InternalError::VersionNotSupported,
            };
            if mismatch {
                st = Err(InternalError::CnxidSegment);
            }
        }
        let may = self.is_port_blocking_disabled || !check_addr_blocked(addr_from);
        let answerable = packet_length >= ENFORCED_INITIAL_MTU && may;
        let action = if st.is_ok() && connection.is_some() && ph.packet_type == PacketType::OneRttProtected && (
        ph.payload_length == 0 || reserved_bit_set) {
            SegmentAction::ProtocolViolation
        } else {
            match st {
                Err(InternalError::VersionNotSupported) => if answerable {
                    SegmentAction::QueueVersionNegotiation
                } else {
                    SegmentAction::Drop
                },
                Err(InternalError::RetryNeeded) => if answerable {
                    SegmentAction::QueueRetry
                } else {
                    SegmentAction::Drop
                },
                Err(InternalError::ServerBusy) => if answerable {
                    SegmentAction::QueueBusy
                } else {
                    SegmentAction::Drop
                },
                Ok(()) => match connection {
                    Some(_) => SegmentAction::Dispatch(ph.packet_type),
                    None => if !ph.dest_connection_id.is_empty() && may {
                        SegmentAction::QueueVersionNegotiation
                    } else {
                        SegmentAction::Drop
                    },
                },
                Err(InternalError::StatelessReset) => if connection.is_some() {
                    SegmentAction::StatelessReset
                } else {
                    SegmentAction::Drop
                },
                Err(InternalError::AeadCheck) => if ph.packet_type == PacketType::Handshake && connection.is_some() {
                    SegmentAction::HandshakeNotDecrypted
                } else {
                    SegmentAction::Drop
                },
                Err(_) => SegmentAction::Drop,
            }
        };
        let final_status = if st.is_ok() && connection.is_none() {
            Err(InternalError::Detected)
        } else {
            st
        };
        SegmentDisposition { status: final_status, is_first_segment: is_first, action }
    }
}

/// How a 1-RTT packet is taken.
#[derive(Debug, Copy, Clone, PartialEq, Eq, Structural)]
pub enum OneRttRoute {
    /// A closing connection only looks for closing frames.
    ClosingFrames,
    /// The frames are decoded on the path.
    Frames,
}

/// How a connection in state `s` with `nb_paths` paths takes a 1-RTT
/// packet on path `path_id`: refused before the handshake is almost done,
/// once disconnected, and while closing except in the closing and
/// disconnecting states, which look for closing frames only; otherwise
/// refused on a path that does not exist.
pub open spec fn spec_one_rtt_route(s: State, nb_paths: int, path_id: usize) -> Result<OneRttRoute, InternalError> {
    if state_rank(s) < state_rank(State::ClientAlmostReady) || s == State::Disconnected {
        Err(InternalError::UnexpectedPacket)
    } else if state_rank(s) >= state_rank(State::Disconnecting) {
        if s == State::Closing || s == State::Disconnecting {
            Ok(OneRttRoute::ClosingFrames)
        } else {
            Err(InternalError::UnexpectedPacket)
        }
    } else if path_id >= nb_paths {
        Err(InternalError::UnexpectedPacket)
    } else {
        Ok(OneRttRoute::Frames)
    }
}

/// What a client's Initial packet does to a server connection: refused
/// (busy, or an initial ID too short) while the connection is new, taken
/// while the handshake is under way, only acknowledged later in the
/// handshake, and unexpected once ready.
#[derive(Debug, Copy, Clone, PartialEq, Eq, Structural)]
pub enum ClientInitialRoute {
    /// The connection fails its handshake with this transport error.
    Refused(u64),
    /// The packet's frames are decoded.
    Decode,
    /// The packet is acknowledged and otherwise ignored.
    IgnoreHandshake,
    /// The packet is not expected.
    Unexpected,
}

/// How a connection `c` takes a client's Initial packet, the server being
/// busy or over its connection limit when `refuse_new` holds.
pub open spec fn spec_client_initial_route(c: Connection, refuse_new: bool) -> ClientInitialRoute {
    if c.connection_state == State::ServerInit && refuse_new {
        ClientInitialRoute::Refused(TRANSPORT_ERROR_SERVER_BUSY)
    } else if c.connection_state == State::ServerInit && c.initial_connection_id@.len() < 8 {
        ClientInitialRoute::Refused(TRANSPORT_ERROR_PROTOCOL_VIOLATION)
    } else if state_rank(c.connection_state) < state_rank(State::ServerAlmostReady) {
        ClientInitialRoute::Decode
    } else if state_rank(c.connection_state) < state_rank(State::Ready) {
        ClientInitialRoute::IgnoreHandshake
    } else {
        ClientInitialRoute::Unexpected
    }
}

/// `c` after its handshake failed with transport error `code`.
pub open spec fn handshake_failed(c: Connection, code: u64) -> Connection {
    Connection { local_error: code, connection_state: State::HandshakeFailure, ..c }
}

impl Connection {
    /// How this connection takes a 1-RTT packet on path `path_id`.
    pub fn incoming_1rtt_admission(&self, path_id: usize) -> (r: Result<OneRttRoute, InternalError>)
        ensures
            r == spec_one_rtt_route(self.connection_state, self.paths@.len() as int, path_id),
    {
        let rank = self.connection_state.rank();
        if rank < State::ClientAlmostReady.rank() || self.connection_state == State::Disconnected {
            return Err(InternalError::UnexpectedPacket);
        }
        if rank >= State::Disconnecting.rank() {
            if self.connection_state == State::Closing || self.connection_state == State::Disconnecting {
                return Ok(OneRttRoute::ClosingFrames);
            }
            return Err(InternalError::UnexpectedPacket);
        }
        if path_id >= self.paths.len() {
            return Err(InternalError::UnexpectedPacket);
        }
        Ok(OneRttRoute::Frames)
    }

    /// Route a client's Initial packet on this server connection; a
    /// refusal fails the handshake with its transport error.
    /// `refuse_new` holds when the server is busy or over its connection
    /// limit.
    pub fn screen_client_initial(&mut self, refuse_new: bool) -> (r: ClientInitialRoute)
        ensures
            r == spec_client_initial_route(*old(self), refuse_new),
            r matches ClientInitialRoute::Refused(code) ==> *final(self) == handshake_failed(*old(self), code),
            !(r is Refused) ==> *final(self) == *old(self),
    {
        let route = if self.connection_state == State::ServerInit && refuse_new {
            ClientInitialRoute::Refused(TRANSPORT_ERROR_SERVER_BUSY)
        } else if self.connection_state == State::ServerInit && self.initial_connection_id.len() < 8 {
            ClientInitialRoute::Refused(TRANSPORT_ERROR_PROTOCOL_VIOLATION)
        } else if self.connection_state.rank() < State::ServerAlmostReady.rank() {
            ClientInitialRoute::Decode
        } else if self.connection_state.rank() < State::Ready.rank() {
            ClientInitialRoute::IgnoreHandshake
        } else {
            ClientInitialRoute::Unexpected
        };
        if let ClientInitialRoute::Refused(code) = route {
            self.fail_handshake(code);
        }
        route
    }

    /// Fail the handshake with transport error `code`.
    fn fail_handshake(&mut self, code: u64)
        ensures
            *final(self) == handshake_failed(*old(self), code),
    {
        self.local_error = code;
        self.connection_state = State::HandshakeFailure;
    }
}

/// The end of a client Initial packet's processing, with status `ret`, the
/// connection left in state `s`, and `new_context` when the connection was
/// created for this packet.
#[derive(Debug, Copy, Clone)]
pub struct ClientInitialOutcome {
    /// The status reported.
    pub status: Result<(), InternalError>,
    /// An immediate close is to be queued.
    pub queue_close: bool,
    /// The connection created for the packet is to be deleted.
    pub delete_connection: bool,
}

/// The end of a client Initial packet: a refused token on a connection
/// whose handshake failed is no error; a failed handshake of a new
/// connection is closed at once; and a connection created for the packet
/// is deleted exactly when the packet was refused or the connection ended
/// disconnected, the status then being `ConnectionDeleted`.
pub open spec fn spec_client_initial_outcome(ret: Result<(), InternalError>, s: State, new_context: bool) -> ClientInitialOutcome {
    let st = if ret == Err::<(), InternalError>(InternalError::InvalidToken) && s == State::HandshakeFailure {
        Ok(())
    } else {
        ret
    };
    let delete = new_context && (st is Err || s == State::Disconnected);
    ClientInitialOutcome {
        status: if delete { Err(InternalError::ConnectionDeleted) } else { st },
        queue_close: st is Ok && s == State::HandshakeFailure && new_context,
        delete_connection: delete,
    }
}

/// Only a connection created for the packet is ever deleted, and then
/// exactly when the packet was refused or the connection ended
/// disconnected; a connection that existed before keeps the status.
pub proof fn law_only_new_connections_are_deleted(ret: Result<(), InternalError>, s: State, new_context: bool)
    ensures
        spec_client_initial_outcome(ret, s, new_context).delete_connection <==> new_context && (
        spec_client_initial_outcome(ret, s, false).status is Err || s == State::Disconnected),
        !new_context ==> spec_client_initial_outcome(ret, s, new_context).status != Err::<(), InternalError>(
            InternalError::ConnectionDeleted,
        ) || ret == Err::<(), InternalError>(InternalError::ConnectionDeleted),
{
}

/// The end of a client Initial packet's processing (see
/// `spec_client_initial_outcome`).
pub fn client_initial_outcome(ret: Result<(), InternalError>, s: State, new_context: bool) -> (r: ClientInitialOutcome)
    ensures
        r == spec_client_initial_outcome(ret, s, new_context),
{
    let st = match ret {
        Err(InternalError::InvalidToken) => if s == State::HandshakeFailure {
            Ok(())
        } else {
            ret
        },
        _ => ret,
    };
    let delete = new_context && (st.is_err() || s == State::Disconnected);
    ClientInitialOutcome {
        status: if delete { Err(InternalError::ConnectionDeleted) } else { st },
        queue_close: st.is_ok() && s == State::HandshakeFailure && new_context,
        delete_connection: delete,
    }
}

/// Where a segment goes once its header is parsed.
#[derive(Debug, Copy, Clone, PartialEq, Eq, Structural)]
pub enum SegmentRoute {
    /// A version negotiation, retry or error packet: its bytes are taken
    /// as they are.
    Raw,
    /// A packet of a known connection, decrypted with that connection's keys.
    DecryptExisting(usize),
    /// An Initial packet with no connection, screened as a new client.
    ScreenInitial,
    /// A stateless reset of the connection whose reset secret ends the
    /// packet.
    StatelessReset(usize),
}

/// The route of a segment and the number of bytes of the datagram that it
/// takes up.
#[derive(Debug, Copy, Clone)]
pub struct SegmentRouting {
    pub route: Result<SegmentRoute, InternalError>,
    pub consumed: usize,
}

/// The bytes of a segment that its header may claim: the datagram's
/// declared `length`, cut to the bytes that were received.
pub open spec fn parse_length(raw: Seq<u8>, length: usize) -> int {
    if length < raw.len() { length as int } else { raw.len() as int }
}

/// Where a segment of `raw` goes, and the bytes it takes up: `parsed` is
/// what parsing its header gave (the connection it belongs to, if one was
/// found), `ph` the header.
pub open spec fn spec_segment_route(
    q: Quic,
    raw: Seq<u8>,
    length: usize,
    parsed: Result<Option<usize>, InternalError>,
    ph: PacketHeader,
    addr_from: SocketAddr,
) -> (Result<SegmentRoute, InternalError>, int) {
    let pl = parse_length(raw, length);
    match parsed {
        Err(e) => (Err(e), 0),
        Ok(connection) => if ph.packet_type == PacketType::VersionNegotiation || ph.packet_type == PacketType::Retry
            || ph.packet_type == PacketType::Error {
            (Ok(SegmentRoute::Raw), pl)
        } else if ph.offset + ph.payload_length > pl {
            (Err(InternalError::PacketHeaderParsing), 0)
        } else {
            let consumed = ph.offset + ph.payload_length;
            match connection {
                Some(c) => (Ok(SegmentRoute::DecryptExisting(c)), consumed),
                None => if ph.packet_type == PacketType::Initial {
                    (Ok(SegmentRoute::ScreenInitial), consumed)
                } else if ph.packet_type == PacketType::OneRttProtected && pl >= RESET_PACKET_MIN_SIZE {
                    let k = secret_find(q.connection_by_secret@, raw.subrange(pl - RESET_SECRET_SIZE, pl), addr_from, 0);
                    if k == -1 {
                        (Err(InternalError::UnexpectedPacket), consumed)
                    } else {
                        (Ok(SegmentRoute::StatelessReset(q.connection_by_secret@[k].cnx)), consumed)
                    }
                } else {
                    (Err(InternalError::UnexpectedPacket), consumed)
                },
            }
        },
    }
}

/// The 16 bytes of `raw` that end at `end`.
fn secret_ending_at(raw: &[u8], end: usize) -> (r: [u8; 16])
    requires
        RESET_SECRET_SIZE <= end <= raw@.len(),
    ensures
        r@ == raw@.subrange(end - RESET_SECRET_SIZE, end as int),
{
    let b = end - 16;
    let r: [u8; 16] = [
        raw[b],
        raw[b + 1],
        raw[b + 2],
        raw[b + 3],
        raw[b + 4],
        raw[b + 5],
        raw[b + 6],
        raw[b + 7],
        raw[b + 8],
        raw[b + 9],
        raw[b + 10],
        raw[b + 11],
        raw[b + 12],
        raw[b + 13],
        raw[b + 14],
        raw[b + 15],
    ];
    assert(r@ =~= raw@.subrange(end - RESET_SECRET_SIZE, end as int));
    r
}

impl Quic {
    /// Route a segment of the received bytes `raw`, of declared `length`,
    /// once its header is parsed: `parsed` is what the header parser gave
    /// (the connection found for it, or the error), `ph` the header.  A
    /// version negotiation, retry or error packet takes up every byte that
    /// may be parsed; another packet takes up its header and payload, and
    /// is refused where these run past those bytes.
    pub fn segment_route(
        &self,
        raw: &[u8],
        length: usize,
        parsed: Result<Option<usize>, InternalError>,
        ph: &PacketHeader,
        addr_from: &SocketAddr,
    ) -> (r: SegmentRouting)
        ensures
            (r.route, r.consumed as int) == spec_segment_route(*self, raw@, length, parsed, *ph, *addr_from),
            r.consumed <= length,
            r.consumed <= raw@.len(),
    {
        let pl = if length < raw.len() { length } else { raw.len() };
        let connection = match parsed {
            Err(e) => return SegmentRouting { route: Err(e), consumed: 0 },
            Ok(c) => c,
        };
        if ph.packet_type == PacketType::VersionNegotiation || ph.packet_type == PacketType::Retry
            || ph.packet_type == PacketType::Error {
            return SegmentRouting { route: Ok(SegmentRoute::Raw), consumed: pl };
        }
        if ph.offset > pl || ph.payload_length > pl - ph.offset {
            return SegmentRouting { route: Err(InternalError::PacketHeaderParsing), consumed: 0 };
        }
        let consumed = ph.offset + ph.payload_length;
        let route = match connection {
            Some(c) => Ok(SegmentRoute::DecryptExisting(c)),
            None => if ph.packet_type == PacketType::Initial {
                Ok(SegmentRoute::ScreenInitial)
            } else if ph.packet_type == PacketType::OneRttProtected && pl >= RESET_PACKET_MIN_SIZE {
                let secret = secret_ending_at(raw, pl);
                match secret_lookup(&self.connection_by_secret, &secret, addr_from) {
                    Some(k) => Ok(SegmentRoute::StatelessReset(self.connection_by_secret[k].cnx)),
                    None => Err(InternalError::UnexpectedPacket),
                }
            } else {
                Err(InternalError::UnexpectedPacket)
            },
        };
        SegmentRouting { route, consumed }
    }
}

/// The duration of the path's running receive-rate sample at `now`.
pub open spec fn rate_sample_age(p: Path, now: u64) -> u64 {
    sat_sub(now, p.receive_rate_epoch)
}

/// Count `segment_bytes` more bytes received on `path_x` at `current_time`.
/// With no sample running, one starts here.  A running sample that has
/// lasted longer than both the smoothed RTT and `interval_min` is due: its
/// bytes and its duration are given back, to be turned into a rate.
pub fn receive_rate_count(path_x: &mut Path, segment_bytes: u64, current_time: Instant, interval_min: u64) -> (r:
    Option<(u64, u64)>)
    ensures
        old(path_x).receive_rate_epoch == 0 ==> r is None && *final(path_x) == (Path {
            received: sat_add(old(path_x).received, segment_bytes),
            received_prior: sat_add(old(path_x).received, segment_bytes),
            receive_rate_epoch: current_time,
            ..*old(path_x)
        }),
        old(path_x).receive_rate_epoch != 0 ==> *final(path_x) == (Path {
            received: sat_add(old(path_x).received, segment_bytes),
            ..*old(path_x)
        }) && r == (if rate_sample_age(*old(path_x), current_time) > old(path_x).smoothed_rtt && rate_sample_age(
            *old(path_x),
            current_time,
        ) > interval_min {
            Some((sat_sub(final(path_x).received, old(path_x).received_prior), rate_sample_age(*old(path_x), current_time)))
        } else {
            None
        }),
{
    path_x.received = path_x.received.saturating_add(segment_bytes);
    if path_x.receive_rate_epoch == 0 {
        path_x.received_prior = path_x.received;
        path_x.receive_rate_epoch = current_time;
        None
    } else {
        let delta = current_time.saturating_sub(path_x.receive_rate_epoch);
        if delta > path_x.smoothed_rtt && delta > interval_min {
            Some((path_x.received.saturating_sub(path_x.received_prior), delta))
        } else {
            None
        }
    }
}

/// Record `rate`, the rate of a due sample: the estimate takes it, a new
/// sample starts at `current_time`, and a higher rate becomes the maximum.
/// Gives whether the ACK frequency is to be recomputed: on a new maximum,
/// when `tunes_ack_frequency` (the first path of a connection that did not
/// negotiate ACK frequency).
pub fn receive_rate_record(path_x: &mut Path, rate: u64, current_time: Instant, tunes_ack_frequency: bool) -> (r: bool)
    ensures
        *final(path_x) == (Path {
            receive_rate_estimate: rate,
            received_prior: old(path_x).received,
            receive_rate_epoch: current_time,
            receive_rate_max: if rate > old(path_x).receive_rate_max { rate } else { old(path_x).receive_rate_max },
            ..*old(path_x)
        }),
        r == (rate > old(path_x).receive_rate_max && tunes_ack_frequency),
        final(path_x).receive_rate_max >= old(path_x).receive_rate_max,
        final(path_x).receive_rate_estimate <= final(path_x).receive_rate_max,
{
    path_x.receive_rate_estimate = rate;
    path_x.received_prior = path_x.received;
    path_x.receive_rate_epoch = current_time;
    if rate > path_x.receive_rate_max {
        path_x.receive_rate_max = rate;
        tunes_ack_frequency
    } else {
        false
    }
}


} // verus!
