//! The connection model: transport parameters, close codes, paths and
//! their address tuples, connection identifiers and queued frames.

use vstd::prelude::*;
use crate::cc::CongestionAlgorithm;
use crate::cid::ConnectionId;
use crate::stream::StreamHead;
use crate::path::{get_path_quality_from_context, PacketContextState, spec_path_quality, spec_quality_zero, Path, PathQuality, Tuple};
use crate::tp::TransportParameters;
use crate::types::{copy_bytes, state_rank, InternalError, spec_addr_is_unspecified, spec_unspecified_addr, PathStatus, LOG_PACKET_MAX_SEQUENCE, spec_alpn_from_bytes, Alpn, CloseReason, Duration, Error, Instant, PacketContext, PmtudPolicy, SocketAddr, SpinbitVersion, State, DEFAULT_STREAM_PRIORITY};

verus! {

/// A local connection ID issued on a path.
#[derive(Debug, Copy, Clone)]
pub struct LocalConnectionId {
    pub path_id: u64,
    pub sequence: u64,
    pub create_time: Instant,
    pub connection_id: ConnectionId,
    pub is_acked: bool,
}

/// The local connection IDs issued on one path.
#[derive(Debug)]
pub struct LocalConnectionIdList {
    pub unique_path_id: u64,
    pub local_connection_id_sequence_next: u64,
    pub local_connection_id_retire_before: u64,
    pub local_connection_id_oldest_created: u64,
    pub nb_local_connection_id_expired: u64,
    pub is_demoted: bool,
    pub demotion_time: Instant,
    /// Indices of the entries in the connection's local ID list.
    pub connection_ids: Vec<usize>,
}

/// A connection ID received from the peer, with its reset secret.
#[derive(Debug, Copy, Clone)]
pub struct RemoteConnectionId {
    pub sequence: u64,
    pub connection_id: ConnectionId,
    pub reset_secret: [u8; 16],
    /// Number of paths that send with this ID.
    pub nb_path_references: u64,
}

/// The remote connection IDs the peer issued for one path.
#[derive(Debug)]
pub struct RemoteConnectionIdStash {
    pub unique_path_id: u64,
    pub connection_ids: Vec<RemoteConnectionId>,
}

/// A frame queued for transmission outside of stream data.
#[derive(Debug)]
pub struct MiscFrame {
    pub bytes: Vec<u8>,
    pub packet_context: PacketContext,
    pub is_pure_ack: bool,
}

/// State of one QUIC connection.
#[derive(Debug)]
pub struct Connection {
    pub client_mode: bool,
    pub connection_state: State,
    pub initial_connection_id: ConnectionId,
    pub original_connection_id: ConnectionId,
    pub start_time: Instant,
    pub next_wake_time: Instant,
    pub app_wake_time: Instant,
    /// Negotiated ALPN, as wire bytes.
    pub alpn: Option<Vec<u8>>,
    pub sni: Option<String>,
    pub local_error: u64,
    pub remote_error: u64,
    pub application_error: u64,
    pub remote_application_error: u64,
    pub local_error_reason: Option<String>,
    pub use_long_log: bool,
    pub nb_packets_logged: u64,
    pub local_parameters: TransportParameters,
    pub remote_parameters: TransportParameters,
    pub spin_policy: SpinbitVersion,
    pub pmtud_policy: PmtudPolicy,
    pub desired_version: u32,
    /// The version this connection proposed in its first packets.
    pub proposed_version: u32,
    pub rejected_version: u32,
    pub version_index: i32,
    pub paths: Vec<Path>,
    pub local_connection_ids: Vec<LocalConnectionId>,
    pub remote_connection_id_stashes: Vec<RemoteConnectionIdStash>,
    pub are_path_callbacks_enabled: bool,
    pub is_multipath_enabled: bool,
    pub max_path_id_local: u64,
    pub max_path_id_remote: u64,
    pub padding_multiple: u32,
    pub padding_minsize: u32,
    pub crypto_epoch_length_max: u64,
    pub psk_cipher_suite_id: u16,
    pub zero_rtt_data_accepted: bool,
    pub nb_bytes_queued: u64,
    pub misc_frames: Vec<MiscFrame>,
    pub datagrams: Vec<MiscFrame>,
    pub output_streams: Vec<usize>,
    pub datagram_priority: u64,
    pub is_datagram_ready: bool,
    pub is_preemptive_repeat_enabled: bool,
    pub nb_preemptive_repeat: u64,
    pub keep_alive_interval: Duration,
    pub data_sent: u64,
    pub data_received: u64,
    pub congestion_alg: Option<CongestionAlgorithm>,
    pub congestion_alg_option_string: Option<String>,
    pub priority_limit_for_bypass: u64,
    pub is_lost_feedback_notification_required: bool,
    pub is_forced_probe_up_required: bool,
    pub pacing_decrease_threshold: u64,
    pub pacing_increase_threshold: u64,
    pub is_pacing_update_requested: bool,
    pub ech_client_config: Option<Vec<u8>>,
    pub next_stream_id: [u64; 4],
    pub nb_crypto_key_rotations: u64,
    pub nb_packet_holes_inserted: u64,
    pub rtt_update_delta: Duration,
    pub pacing_rate_update_delta: u64,
    pub pkt_ctx: [PacketContextState; 3],
    pub is_time_stamp_enabled: bool,
    pub is_loss_bit_enabled_outgoing: bool,
    pub max_mtu_sent: usize,
    pub max_mtu_received: usize,
    pub nb_packets_received: u64,
    pub nb_trains_sent: u64,
    pub nb_trains_short: u64,
    pub nb_trains_blocked_cwin: u64,
    pub nb_trains_blocked_pacing: u64,
    pub nb_trains_blocked_others: u64,
    pub nb_packets_sent: u64,
    pub nb_retransmission_total: u64,
    pub nb_spurious: u64,
    pub is_ack_frequency_negotiated: bool,
    pub min_ack_delay_remote: Duration,
    pub max_ack_delay_remote: Duration,
    pub max_ack_gap_remote: u64,
    pub min_ack_delay_local: Duration,
    pub max_ack_delay_local: Duration,
    pub max_ack_gap_local: u64,
    pub nb_zero_rtt_received: u64,
    pub nb_zero_rtt_acked: u64,
    /// Unique id the next new path will get.
    pub unique_path_id_next: u64,
    pub is_subscribed_to_path_allowed: bool,
    pub is_notified_that_path_is_allowed: bool,
    /// Peer address under which the initial CID is registered.
    pub registered_icid_addr: SocketAddr,
    pub is_registered_by_icid: bool,
    /// Peer address and reset secret under which the connection is
    /// registered for stateless resets.
    pub registered_secret_addr: SocketAddr,
    pub registered_reset_secret: [u8; 16],
    pub is_registered_by_secret: bool,
    /// The streams of the connection, by token.
    pub streams: Vec<StreamHead>,
    /// Local connection IDs by path.
    pub local_connection_id_lists: Vec<LocalConnectionIdList>,
    /// Largest path id that has a local connection ID list.
    pub max_path_id_in_connection_id_lists: u64,
}

/// The first tuple of the first path, if any.
pub open spec fn primary_tuple(paths: Seq<Path>) -> Option<Tuple> {
    if paths.len() > 0 && paths[0].tuples@.len() > 0 {
        Some(paths[0].tuples@[0])
    } else {
        None
    }
}

/// The first tuple of the path at `index`, if any.
pub open spec fn tuple_at(paths: Seq<Path>, index: int) -> Option<Tuple> {
    if 0 <= index < paths.len() && paths[index].tuples@.len() > 0 {
        Some(paths[index].tuples@[0])
    } else {
        None
    }
}

/// Index of the first path at or after `start` whose unique id is `id`,
/// or -1.
pub open spec fn path_index_from(paths: Seq<Path>, id: u64, start: int) -> int
    decreases paths.len() - start,
{
    if start < 0 || start >= paths.len() {
        -1
    } else if paths[start].unique_path_id == id {
        start
    } else {
        path_index_from(paths, id, start + 1)
    }
}

/// Index of the first path whose unique id is `id`, or -1.
pub open spec fn path_index(paths: Seq<Path>, id: u64) -> int {
    path_index_from(paths, id, 0)
}

/// The connection ID of a local entry referenced by index.
pub open spec fn local_cid_at(c: Connection, tok: Option<usize>) -> Option<ConnectionId> {
    match tok {
        Some(t) => if t < c.local_connection_ids@.len() {
            Some(c.local_connection_ids@[t as int].connection_id)
        } else {
            None
        },
        None => None,
    }
}

/// Closing code by priority: local transport, local application,
/// remote transport, remote application.
pub open spec fn spec_close_reason(c: Connection) -> Option<CloseReason> {
    if c.local_error != 0 {
        Some(CloseReason::Local(c.local_error))
    } else if c.application_error != 0 {
        Some(CloseReason::LocalApp(c.application_error))
    } else if c.remote_error != 0 {
        Some(CloseReason::Remote(c.remote_error))
    } else if c.remote_application_error != 0 {
        Some(CloseReason::RemoteApp(c.remote_application_error))
    } else {
        None
    }
}

/// Sequence of the remote CID at `idx` in the first stash that has one.
pub open spec fn stash_sequence_from(stashes: Seq<RemoteConnectionIdStash>, idx: int, k: int) -> u64
    decreases stashes.len() - k,
{
    if k < 0 || k >= stashes.len() {
        0
    } else if 0 <= idx < stashes[k].connection_ids@.len() {
        stashes[k].connection_ids@[idx].sequence
    } else {
        stash_sequence_from(stashes, idx, k + 1)
    }
}

/// Index of the first stash of path `path_id`, from `k` on, or -1.
pub open spec fn stash_index_from(stashes: Seq<RemoteConnectionIdStash>, path_id: u64, k: int) -> int
    decreases stashes.len() - k,
{
    if k < 0 || k >= stashes.len() {
        -1
    } else if stashes[k].unique_path_id == path_id {
        k
    } else {
        stash_index_from(stashes, path_id, k + 1)
    }
}

/// The remote connection ID packets of the primary path are sent to: the
/// entry at the primary tuple's remote index in the primary path's stash,
/// else the first entry of the first stash, else the empty ID.
pub open spec fn spec_initial_remote_cid(c: Connection) -> Option<ConnectionId> {
    let stashes = c.remote_connection_id_stashes@;
    let path_id: u64 = if c.paths@.len() > 0 { c.paths@[0].unique_path_id } else { 0 };
    let remote_index: int = match primary_tuple(c.paths@) {
        Some(t) => match t.remote_connection_id_index {
            Some(i) => i as int,
            None => 0,
        },
        None => 0,
    };
    let s = stash_index_from(stashes, path_id, 0);
    if s >= 0 && remote_index < stashes[s].connection_ids@.len() {
        Some(stashes[s].connection_ids@[remote_index].connection_id)
    } else if stashes.len() > 0 && stashes[0].connection_ids@.len() > 0 {
        Some(stashes[0].connection_ids@[0].connection_id)
    } else {
        None
    }
}

/// Index of the first local ID list of path `path_id`, from `k` on, or -1.
pub open spec fn cid_list_index_from(lists: Seq<LocalConnectionIdList>, path_id: u64, k: int) -> int
    decreases lists.len() - k,
{
    if k < 0 || k >= lists.len() {
        -1
    } else if lists[k].unique_path_id == path_id {
        k
    } else {
        cid_list_index_from(lists, path_id, k + 1)
    }
}

/// Index of the first local ID of path `path_id` with bytes `cid`, from
/// `k` on, or -1.
pub open spec fn local_cid_index_from(ids: Seq<LocalConnectionId>, path_id: u64, cid: Seq<u8>, k: int) -> int
    decreases ids.len() - k,
{
    if k < 0 || k >= ids.len() {
        -1
    } else if ids[k].path_id == path_id && ids[k].connection_id@ == cid {
        k
    } else {
        local_cid_index_from(ids, path_id, cid, k + 1)
    }
}

/// Sequence number the next local ID of path `path_id` gets.
pub open spec fn next_local_cid_sequence(c: Connection, path_id: u64) -> u64 {
    next_sequence_in(c.local_connection_id_lists@, path_id)
}

/// Sequence number the next local ID of path `path_id` gets, by lists.
pub open spec fn next_sequence_in(lists: Seq<LocalConnectionIdList>, path_id: u64) -> u64 {
    let l = cid_list_index_from(lists, path_id, 0);
    if l == -1 { 0 } else { lists[l].local_connection_id_sequence_next }
}

/// Record a new local connection ID of path `unique_path_id` in the ID
/// list and the per-path lists; yields its index in the ID list.
fn add_local_cid_parts(
    ids: &mut Vec<LocalConnectionId>,
    lists: &mut Vec<LocalConnectionIdList>,
    max_path_id: &mut u64,
    unique_path_id: u64,
    connection_id: ConnectionId,
    current_time: Instant,
) -> (r: usize)
    requires
        next_sequence_in(old(lists)@, unique_path_id) < u64::MAX,
    ensures
        r == old(ids)@.len(),
        final(ids)@ == old(ids)@.push(
            LocalConnectionId {
                path_id: unique_path_id,
                sequence: next_sequence_in(old(lists)@, unique_path_id),
                create_time: current_time,
                connection_id,
                is_acked: false,
            },
        ),
        next_sequence_in(final(lists)@, unique_path_id) == next_sequence_in(old(lists)@, unique_path_id) + 1,
    {
        let mut k: usize = 0;
        while k < lists.len() && lists[k].unique_path_id != unique_path_id
            invariant
                k <= lists@.len(),
                cid_list_index_from(lists@, unique_path_id, 0) == cid_list_index_from(
                    lists@,
                    unique_path_id,
                    k as int,
                ),
                forall|j: int| 0 <= j < k ==> lists@[j].unique_path_id != unique_path_id,
            decreases lists.len() - k,
        {
            k = k + 1;
        }
        let ghost lists0 = lists@;
        if k == lists.len() {
            lists.push(
                LocalConnectionIdList {
                    unique_path_id,
                    local_connection_id_sequence_next: 0,
                    local_connection_id_retire_before: 0,
                    local_connection_id_oldest_created: current_time,
                    nb_local_connection_id_expired: 0,
                    is_demoted: false,
                    demotion_time: u64::MAX,
                    connection_ids: Vec::new(),
                },
            );
            proof {
                assert(forall|j: int| 0 <= j < lists0.len() ==> lists@[j] == lists0[j]);
                assert(cid_list_index_from(lists@, unique_path_id, 0)
                    == cid_list_index_from(lists@, unique_path_id, k as int)) by {
                    lemma_cid_list_prefix(lists0, lists@, unique_path_id, 0);
                }
            }
        }
        let ghost lists1 = lists@;
        assert(forall|j: int| 0 <= j < k ==> lists1[j].unique_path_id != unique_path_id);
        let token = ids.len();
        let mut list = lists.remove(k);
        let sequence = list.local_connection_id_sequence_next;
        ids.push(
            LocalConnectionId { path_id: unique_path_id, sequence, create_time: current_time, connection_id, is_acked: false },
        );
        list.local_connection_id_sequence_next = sequence + 1;
        list.connection_ids.push(token);
        if sequence == 0 {
            list.local_connection_id_oldest_created = current_time;
            if unique_path_id > *max_path_id {
                *max_path_id = unique_path_id;
            }
        }
        let ghost before = lists@;
        lists.insert(k, list);
        proof {
            let l1 = lists@;
            assert(forall|j: int| 0 <= j < k ==> l1[j] == lists1[j]);
            lemma_cid_list_found(l1, unique_path_id, k as int);
        }
        token
    }


/// The list index of a path is unchanged by appending another list.
proof fn lemma_cid_list_prefix(a: Seq<LocalConnectionIdList>, b: Seq<LocalConnectionIdList>, path_id: u64, k: int)
    requires
        0 <= k <= a.len(),
        b.len() == a.len() + 1,
        forall|j: int| 0 <= j < a.len() ==> b[j] == a[j],
        forall|j: int| k <= j < a.len() ==> a[j].unique_path_id != path_id,
        b[a.len() as int].unique_path_id == path_id,
    ensures
        cid_list_index_from(b, path_id, k) == a.len(),
    decreases a.len() - k,
{
    if k < a.len() {
        lemma_cid_list_prefix(a, b, path_id, k + 1);
    }
}

/// A list of the path at `k`, none before it: `k` is the path's index.
proof fn lemma_cid_list_found(l: Seq<LocalConnectionIdList>, path_id: u64, k: int)
    requires
        0 <= k < l.len(),
        l[k].unique_path_id == path_id,
        forall|j: int| 0 <= j < k ==> l[j].unique_path_id != path_id,
    ensures
        cid_list_index_from(l, path_id, 0) == k,
{
    lemma_cid_list_from(l, path_id, 0, k);
}

proof fn lemma_cid_list_from(l: Seq<LocalConnectionIdList>, path_id: u64, i: int, k: int)
    requires
        0 <= i <= k < l.len(),
        l[k].unique_path_id == path_id,
        forall|j: int| i <= j < k ==> l[j].unique_path_id != path_id,
    ensures
        cid_list_index_from(l, path_id, i) == k,
    decreases k - i,
{
    if i < k {
        lemma_cid_list_from(l, path_id, i + 1, k);
    }
}

/// Paths a connection keeps at most.
pub const NB_PATH_TARGET: usize = 8;

/// Index of the first remote ID, from `k` on, that no path uses, or -1.
pub open spec fn stash_available_from(ids: Seq<RemoteConnectionId>, k: int) -> int
    decreases ids.len() - k,
{
    if k < 0 || k >= ids.len() {
        -1
    } else if ids[k].nb_path_references == 0 {
        k
    } else {
        stash_available_from(ids, k + 1)
    }
}

/// Whether the connection may open a new path now, and if not why: the
/// peer or this endpoint disabled migration (the peer's choice does not
/// count towards its preferred address), the handshake is not far enough,
/// the path limit is reached, or no unused remote ID is available for the
/// next path (the peer's path-id limit then tells which).
#[verifier::opaque]
pub open spec fn spec_check_new_path_allowed(c: Connection, to_preferred_address: bool) -> Result<(), Error> {
    if (c.remote_parameters.migration_disabled && !to_preferred_address) || c.local_parameters.migration_disabled {
        Err(Error::Internal(InternalError::MigrationDisabled))
    } else if state_rank(c.connection_state) < state_rank(State::ClientAlmostReady) {
        Err(Error::Internal(InternalError::PathNotReady))
    } else if c.paths@.len() >= NB_PATH_TARGET {
        Err(Error::Internal(InternalError::PathLimitExceeded))
    } else {
        let upid: u64 = if c.is_multipath_enabled { c.unique_path_id_next } else { 0 };
        let stashes = c.remote_connection_id_stashes@;
        let s = stash_index_from(stashes, upid, 0);
        if s != -1 && stash_available_from(stashes[s].connection_ids@, 0) != -1 {
            Ok(())
        } else if c.unique_path_id_next > c.max_path_id_remote {
            Err(Error::Internal(InternalError::PathIdBlocked))
        } else {
            Err(Error::Internal(InternalError::PathCidBlocked))
        }
    }
}

/// Refusals that go away by themselves, after which the application can
/// be told that a new path is allowed.
pub open spec fn is_transient_path_refusal(e: Error) -> bool {
    e == Error::Internal(InternalError::PathNotReady) || e == Error::Internal(InternalError::PathLimitExceeded)
        || e == Error::Internal(InternalError::PathIdBlocked) || e == Error::Internal(InternalError::PathCidBlocked)
}

/// Whether a refusal to open a path goes away by itself.
fn is_transient_refusal(e: Error) -> (r: bool)
    ensures
        r == is_transient_path_refusal(e),
{
    e == Error::Internal(InternalError::PathNotReady) || e == Error::Internal(InternalError::PathLimitExceeded)
        || e == Error::Internal(InternalError::PathIdBlocked) || e == Error::Internal(InternalError::PathCidBlocked)
}

impl RemoteConnectionIdStash {
    /// Index of the first remote ID of the stash that no path uses.
    pub fn get_connection_id_from_stash(&self) -> (r: Option<usize>)
        ensures
            stash_available_from(self.connection_ids@, 0) == -1 ==> r is None,
            stash_available_from(self.connection_ids@, 0) != -1 ==> r == Some(
                stash_available_from(self.connection_ids@, 0) as usize),
    {
        let mut k: usize = 0;
        while k < self.connection_ids.len()
            invariant
                k <= self.connection_ids@.len(),
                stash_available_from(self.connection_ids@, 0) == stash_available_from(self.connection_ids@, k as int),
            decreases self.connection_ids.len() - k,
        {
            if self.connection_ids[k].nb_path_references == 0 {
                return Some(k);
            }
            k = k + 1;
        }
        None
    }
}

impl Connection {
    /// A fresh connection with one path towards `peer_addr`, no traffic yet.
    pub fn new(
        initial_connection_id: ConnectionId,
        original_connection_id: ConnectionId,
        peer_addr: SocketAddr,
        local_parameters: TransportParameters,
        start_time: Instant,
        client_mode: bool,
        initial_cwin: u64,
        send_mtu: usize,
    ) -> (r: Connection)
        ensures
            r.client_mode == client_mode,
            r.initial_connection_id == initial_connection_id,
            r.original_connection_id == original_connection_id,
            r.local_parameters == local_parameters,
            r.start_time == start_time,
            r.connection_state == (if client_mode { State::ClientInit } else { State::ServerInit }),
            r.paths@.len() == 1,
            r.paths@[0].tuples@ == seq![Tuple {
                peer_addr,
                local_addr: spec_unspecified_addr(),
                observed_addr: spec_unspecified_addr(),
                if_index: 0,
                local_connection_id: None,
                remote_connection_id_index: None,
                challenge_required: false,
            }],
            r.paths@[0].cwin == initial_cwin,
            r.paths@[0].unique_path_id == 0,
            r.local_error == 0 && r.remote_error == 0 && r.application_error == 0
                && r.remote_application_error == 0,
            r.misc_frames@.len() == 0 && r.datagrams@.len() == 0 && r.output_streams@.len() == 0,
            r.nb_bytes_queued == 0 && r.data_sent == 0 && r.data_received == 0,
            r.next_stream_id@ == seq![0u64, 1, 2, 3],
            r.unique_path_id_next == 1,
            !r.is_subscribed_to_path_allowed && !r.is_notified_that_path_is_allowed,
            !r.is_registered_by_icid && !r.is_registered_by_secret,
            r.streams@.len() == 0,
            r.local_connection_ids@.len() == 0 && r.local_connection_id_lists@.len() == 0,
    {
        let tuple = Tuple::new(peer_addr, SocketAddr::unspecified(), 0);
        let path = Path::new(0, tuple, initial_cwin, send_mtu);
        let mut paths: Vec<Path> = Vec::new();
        paths.push(path);
        let next_stream_id: [u64; 4] = [0, 1, 2, 3];
        assert(next_stream_id@ =~= seq![0u64, 1, 2, 3]);
        let zero = PacketContextState { send_sequence: 0, ecn_ect1_total_remote: 0, ecn_ce_total_remote: 0, highest_acknowledged: 0 };
        Connection {
            client_mode,
            connection_state: if client_mode { State::ClientInit } else { State::ServerInit },
            initial_connection_id,
            original_connection_id,
            start_time,
            next_wake_time: start_time,
            app_wake_time: 0,
            alpn: None,
            sni: None,
            local_error: 0,
            remote_error: 0,
            application_error: 0,
            remote_application_error: 0,
            local_error_reason: None,
            use_long_log: false,
            nb_packets_logged: 0,
            local_parameters,
            remote_parameters: local_parameters,
            spin_policy: SpinbitVersion::Basic,
            pmtud_policy: PmtudPolicy::Basic,
            desired_version: 0,
            proposed_version: 0,
            rejected_version: 0,
            version_index: 0,
            paths,
            local_connection_ids: Vec::new(),
            remote_connection_id_stashes: Vec::new(),
            are_path_callbacks_enabled: false,
            is_multipath_enabled: false,
            max_path_id_local: 0,
            max_path_id_remote: 0,
            padding_multiple: 0,
            padding_minsize: 0,
            crypto_epoch_length_max: 0,
            psk_cipher_suite_id: 0,
            zero_rtt_data_accepted: false,
            nb_bytes_queued: 0,
            misc_frames: Vec::new(),
            datagrams: Vec::new(),
            output_streams: Vec::new(),
            datagram_priority: DEFAULT_STREAM_PRIORITY as u64,
            is_datagram_ready: false,
            is_preemptive_repeat_enabled: false,
            nb_preemptive_repeat: 0,
            keep_alive_interval: 0,
            data_sent: 0,
            data_received: 0,
            congestion_alg: None,
            congestion_alg_option_string: None,
            priority_limit_for_bypass: 0,
            is_lost_feedback_notification_required: false,
            is_forced_probe_up_required: false,
            pacing_decrease_threshold: 0,
            pacing_increase_threshold: 0,
            is_pacing_update_requested: false,
            ech_client_config: None,
            next_stream_id,
            nb_crypto_key_rotations: 0,
            nb_packet_holes_inserted: 0,
            rtt_update_delta: 0,
            pacing_rate_update_delta: 0,
            pkt_ctx: [zero, zero, zero],
            is_time_stamp_enabled: false,
            is_loss_bit_enabled_outgoing: false,
            max_mtu_sent: 0,
            max_mtu_received: 0,
            nb_packets_received: 0,
            nb_trains_sent: 0,
            nb_trains_short: 0,
            nb_trains_blocked_cwin: 0,
            nb_trains_blocked_pacing: 0,
            nb_trains_blocked_others: 0,
            nb_packets_sent: 0,
            nb_retransmission_total: 0,
            nb_spurious: 0,
            is_ack_frequency_negotiated: false,
            min_ack_delay_remote: 0,
            max_ack_delay_remote: 0,
            max_ack_gap_remote: 0,
            min_ack_delay_local: 0,
            max_ack_delay_local: 0,
            max_ack_gap_local: 0,
            nb_zero_rtt_received: 0,
            nb_zero_rtt_acked: 0,
            unique_path_id_next: 1,
            is_subscribed_to_path_allowed: false,
            is_notified_that_path_is_allowed: false,
            registered_icid_addr: SocketAddr::unspecified(),
            is_registered_by_icid: false,
            registered_secret_addr: SocketAddr::unspecified(),
            registered_reset_secret: [0u8; 16],
            is_registered_by_secret: false,
            streams: Vec::new(),
            local_connection_id_lists: Vec::new(),
            max_path_id_in_connection_id_lists: 0,
        }
    }

    /// Index of the first path whose unique id is `unique_path_id`.
    fn find_path(&self, unique_path_id: u64) -> (r: Option<usize>)
        ensures
            r matches Some(i) ==> i == path_index(self.paths@, unique_path_id) && i < self.paths@.len()
                && self.paths@[i as int].unique_path_id == unique_path_id,
            r is None ==> path_index(self.paths@, unique_path_id) == -1,
    {
        let mut i: usize = 0;
        while i < self.paths.len()
            invariant
                i <= self.paths@.len(),
                path_index(self.paths@, unique_path_id) == path_index_from(self.paths@, unique_path_id, i as int),
            decreases self.paths.len() - i,
        {
            if self.paths[i].unique_path_id == unique_path_id {
                return Some(i);
            }
            i = i + 1;
        }
        None
    }

    /// Negotiated ALPN, or `Alpn::Undef` when none was selected or the
    /// selected one is unknown.
    pub fn tls_negotiated_alpn(&self) -> (r: Alpn)
        ensures
            r == (match self.alpn {
                Some(s) => match spec_alpn_from_bytes(s@) {
                    Some(a) => a,
                    None => Alpn::Undef,
                },
                None => Alpn::Undef,
            }),
    {
        match &self.alpn {
            Some(s) => match Alpn::from_bytes(s.as_slice()) {
                Ok(a) => a,
                Err(_) => Alpn::Undef,
            },
            None => Alpn::Undef,
        }
    }

    /// SNI value the peer presented during the handshake, if any.
    pub fn tls_sni(&self) -> (r: Option<&str>)
        ensures
            r is Some <==> self.sni is Some,
            r matches Some(s) ==> s@ == self.sni.unwrap()@,
    {
        match &self.sni {
            Some(s) => Some(s.as_str()),
            None => None,
        }
    }

    /// Reason this connection closed, or `None` while it has not closed.
    pub fn close_reason(&self) -> (r: Option<CloseReason>)
        ensures
            r == spec_close_reason(*self),
    {
        if self.local_error != 0 {
            Some(CloseReason::Local(self.local_error))
        } else if self.application_error != 0 {
            Some(CloseReason::LocalApp(self.application_error))
        } else if self.remote_error != 0 {
            Some(CloseReason::Remote(self.remote_error))
        } else if self.remote_application_error != 0 {
            Some(CloseReason::RemoteApp(self.remote_application_error))
        } else {
            None
        }
    }
}

impl Connection {
    /// Override the application-set wake time.
    pub fn set_app_wake_time(&mut self, app_wake_time: Instant)
        ensures
            *final(self) == (Connection { app_wake_time: app_wake_time, ..*old(self) }),
    {
        self.app_wake_time = app_wake_time;
    }

    /// Set the version the client should request on the next handshake.
    pub fn set_desired_version(&mut self, desired_version: u32)
        ensures
            *final(self) == (Connection { desired_version: desired_version, ..*old(self) }),
    {
        self.desired_version = desired_version;
    }

    /// Record a peer-rejected version.
    pub fn set_rejected_version(&mut self, rejected_version: u32)
        ensures
            *final(self) == (Connection { rejected_version: rejected_version, ..*old(self) }),
    {
        self.rejected_version = rejected_version;
    }

    /// Toggle path-state event callbacks for this connection.
    pub fn set_path_callbacks(&mut self, are_enabled: bool)
        ensures
            *final(self) == (Connection { are_path_callbacks_enabled: are_enabled, ..*old(self) }),
    {
        self.are_path_callbacks_enabled = are_enabled;
    }

    /// Enable or disable multipath event callbacks for this connection.
    pub fn enable_path_callbacks(&mut self, enabled: bool)
        ensures
            *final(self) == (Connection { are_path_callbacks_enabled: enabled, ..*old(self) }),
    {
        self.are_path_callbacks_enabled = enabled;
    }

    /// Set the per-connection spin-bit policy.
    pub fn set_cnx_spinbit_policy(&mut self, policy: SpinbitVersion)
        ensures
            *final(self) == (Connection { spin_policy: policy, ..*old(self) }),
    {
        self.spin_policy = policy;
    }

    /// Set the per-connection crypto-epoch length.
    pub fn set_crypto_epoch_length(&mut self, crypto_epoch_length_max: u64)
        ensures
            *final(self) == (Connection { crypto_epoch_length_max: crypto_epoch_length_max, ..*old(self) }),
    {
        self.crypto_epoch_length_max = crypto_epoch_length_max;
    }

    /// Override the connection's PMTUD policy.
    pub fn set_pmtud_policy(&mut self, pmtud_policy: PmtudPolicy)
        ensures
            *final(self) == (Connection { pmtud_policy: pmtud_policy, ..*old(self) }),
    {
        self.pmtud_policy = pmtud_policy;
    }

    /// Override the priority used for outbound datagrams.
    pub fn set_datagram_priority(&mut self, datagram_priority: u8)
        ensures
            *final(self) == (Connection { datagram_priority: datagram_priority as u64, ..*old(self) }),
    {
        self.datagram_priority = datagram_priority as u64;
    }

    /// Override preemptive repeat for this connection.
    pub fn set_preemptive_repeat(&mut self, do_repeat: bool)
        ensures
            *final(self) == (Connection { is_preemptive_repeat_enabled: do_repeat, ..*old(self) }),
    {
        self.is_preemptive_repeat_enabled = do_repeat;
    }

    /// Enable keep-alives at the given interval (microseconds).
    pub fn enable_keep_alive(&mut self, interval: Duration)
        ensures
            *final(self) == (Connection { keep_alive_interval: interval, ..*old(self) }),
    {
        self.keep_alive_interval = interval;
    }

    /// Set the priority limit above which streams bypass congestion control.
    pub fn set_priority_limit_for_bypass(&mut self, priority_limit: u8)
        ensures
            *final(self) == (Connection { priority_limit_for_bypass: priority_limit as u64, ..*old(self) }),
    {
        self.priority_limit_for_bypass = priority_limit as u64;
    }

    /// Toggle feedback-loss notifications to the application.
    pub fn set_feedback_loss_notification(&mut self, should_notify: bool)
        ensures
            *final(self) == (Connection { is_lost_feedback_notification_required: should_notify, ..*old(self) }),
    {
        self.is_lost_feedback_notification_required = should_notify;
    }

    /// Force the next probe upward.
    pub fn request_forced_probe_up(&mut self, request_forced_probe_up: bool)
        ensures
            *final(self) == (Connection { is_forced_probe_up_required: request_forced_probe_up, ..*old(self) }),
    {
        self.is_forced_probe_up_required = request_forced_probe_up;
    }

    /// Connection state-machine position.
    pub fn state(&self) -> (r: State)
        ensures
            r == self.connection_state,
    {
        self.connection_state
    }

    /// Per-connection spin-bit policy.
    pub fn cnx_spinbit_policy(&self) -> (r: SpinbitVersion)
        ensures
            r == self.spin_policy,
    {
        self.spin_policy
    }

    /// Per-connection crypto-epoch length.
    pub fn crypto_epoch_length(&self) -> (r: u64)
        ensures
            r == self.crypto_epoch_length_max,
    {
        self.crypto_epoch_length_max
    }

    /// Start time of this connection.
    pub fn start_time(&self) -> (r: u64)
        ensures
            r == self.start_time,
    {
        self.start_time
    }

    /// Whether 0-RTT data may be sent on this connection.
    pub fn is_0rtt_available(&self) -> (r: bool)
        ensures
            r == self.zero_rtt_data_accepted,
    {
        self.zero_rtt_data_accepted
    }

    /// Number of preemptive repeats performed on this connection.
    pub fn preemptive_repeat_count(&self) -> (r: u64)
        ensures
            r == self.nb_preemptive_repeat,
    {
        self.nb_preemptive_repeat
    }

    /// Returns `true` for client-initiated connections.
    pub fn is_client(&self) -> (r: bool)
        ensures
            r == self.client_mode,
    {
        self.client_mode
    }

    /// Local error code reported on close (0 if none).
    pub fn local_error(&self) -> (r: u64)
        ensures
            r == self.local_error,
    {
        self.local_error
    }

    /// Remote error code reported on close.
    pub fn remote_error(&self) -> (r: u64)
        ensures
            r == self.remote_error,
    {
        self.remote_error
    }

    /// Application-level error reported on close (locally generated).
    pub fn application_error(&self) -> (r: u64)
        ensures
            r == self.application_error,
    {
        self.application_error
    }

    /// Application-level error reported by the remote peer on close.
    pub fn remote_application_error(&self) -> (r: u64)
        ensures
            r == self.remote_application_error,
    {
        self.remote_application_error
    }

    /// Total bytes of stream data sent on this connection.
    pub fn data_sent(&self) -> (r: u64)
        ensures
            r == self.data_sent,
    {
        self.data_sent
    }

    /// Total bytes of stream data received on this connection.
    pub fn data_received(&self) -> (r: u64)
        ensures
            r == self.data_received,
    {
        self.data_received
    }

    /// Whether multipath negotiation succeeded on this connection.
    pub fn is_multipath_enabled(&self) -> (r: bool)
        ensures
            r == self.is_multipath_enabled,
    {
        self.is_multipath_enabled
    }

    /// Local maximum path ID this side accepts.
    pub fn max_path_id_local(&self) -> (r: u64)
        ensures
            r == self.max_path_id_local,
    {
        self.max_path_id_local
    }

    /// Remote maximum path ID negotiated by the peer.
    pub fn max_path_id_remote(&self) -> (r: u64)
        ensures
            r == self.max_path_id_remote,
    {
        self.max_path_id_remote
    }

    /// Number of crypto key rotations observed on this connection.
    pub fn nb_crypto_key_rotations(&self) -> (r: u64)
        ensures
            r == self.nb_crypto_key_rotations,
    {
        self.nb_crypto_key_rotations
    }

    /// Number of packet holes inserted (optimistic-ack defense).
    pub fn nb_packet_holes_inserted(&self) -> (r: u64)
        ensures
            r == self.nb_packet_holes_inserted,
    {
        self.nb_packet_holes_inserted
    }

    /// Local connection ID currently in use (the initial one).
    pub fn local_connection_id(&self) -> (r: ConnectionId)
        ensures
            r == self.initial_connection_id,
    {
        self.initial_connection_id
    }

    /// Remote connection ID reported for this connection (the initial one).
    pub fn remote_connection_id(&self) -> (r: ConnectionId)
        ensures
            r == self.initial_connection_id,
    {
        self.initial_connection_id
    }

    /// Initial connection ID picked at handshake start.
    pub fn initial_connection_id(&self) -> (r: ConnectionId)
        ensures
            r == self.initial_connection_id,
    {
        self.initial_connection_id
    }

    /// Connection ID used for log entries on this connection.
    pub fn logging_connection_id(&self) -> (r: ConnectionId)
        ensures
            r == self.initial_connection_id,
    {
        self.initial_connection_id
    }

}


/// First path, from index `k` on, whose first tuple has a peer address of
/// the given family; yields that tuple.
pub open spec fn tuple_with_peer_family(paths: Seq<Path>, v4: bool, k: int) -> Option<Tuple>
    decreases paths.len() - k,
{
    if k < 0 || k >= paths.len() {
        None
    } else if paths[k].tuples@.len() > 0 && (paths[k].tuples@[0].peer_addr is V4) == v4 {
        Some(paths[k].tuples@[0])
    } else {
        tuple_with_peer_family(paths, v4, k + 1)
    }
}

/// First path, from index `k` on, whose first tuple has a local address of
/// the given family; yields that tuple.
pub open spec fn tuple_with_local_family(paths: Seq<Path>, v4: bool, k: int) -> Option<Tuple>
    decreases paths.len() - k,
{
    if k < 0 || k >= paths.len() {
        None
    } else if paths[k].tuples@.len() > 0 && (paths[k].tuples@[0].local_addr is V4) == v4 {
        Some(paths[k].tuples@[0])
    } else {
        tuple_with_local_family(paths, v4, k + 1)
    }
}

/// Result of completing a proposed address pair.
pub open spec fn spec_verify_proposed_tuple(
    paths: Seq<Path>,
    addr_peer: Option<SocketAddr>,
    addr_local: Option<SocketAddr>,
    if_index: i32,
) -> Result<(SocketAddr, SocketAddr, i32), Error> {
    match (addr_peer, addr_local) {
        (None, None) => Err(Error::Generic),
        (None, Some(local)) => match tuple_with_peer_family(paths, local is V4, 0) {
            Some(t) => Ok((t.peer_addr, local, t.if_index as i32)),
            None => Err(Error::Generic),
        },
        (Some(peer), None) => match tuple_with_local_family(paths, peer is V4, 0) {
            Some(t) => Ok((peer, t.local_addr, t.if_index as i32)),
            None => Err(Error::Generic),
        },
        (Some(peer), Some(local)) => if (peer is V4) != (local is V4) {
            Err(Error::InvalidArgument)
        } else {
            Ok((peer, local, if_index))
        },
    }
}

/// The address a path reports for a selector: 1 local, 2 peer, 3 observed.
pub open spec fn spec_path_addr(paths: Seq<Path>, unique_path_id: u64, local: i32) -> Result<SocketAddr, Error> {
    let i = path_index(paths, unique_path_id);
    if i < 0 || paths[i].tuples@.len() == 0 {
        Err(Error::InvalidArgument)
    } else {
        let t = paths[i].tuples@[0];
        if local == 1 {
            Ok(t.local_addr)
        } else if local == 2 {
            Ok(t.peer_addr)
        } else if local == 3 {
            Ok(t.observed_addr)
        } else {
            Err(Error::InvalidArgument)
        }
    }
}

impl Connection {
    /// Replace the local transport parameters of this connection.
    pub fn set_transport_parameters(&mut self, tp: &TransportParameters)
        ensures
            *final(self) == (Connection { local_parameters: *tp, ..*old(self) }),
    {
        self.local_parameters = *tp;
    }

    /// Borrow the local (`get_local`) or remote transport parameters.
    pub fn transport_parameters(&self, get_local: bool) -> (r: &TransportParameters)
        ensures
            *r == (if get_local { self.local_parameters } else { self.remote_parameters }),
    {
        if get_local {
            &self.local_parameters
        } else {
            &self.remote_parameters
        }
    }

    /// Export TLS keying material.  The TLS backend is not wired, so this
    /// always fails with `Generic` and leaves `out` untouched.
    pub fn export_secret(&mut self, label: &str, out: &mut [u8]) -> (r: Result<usize, Error>)
        ensures
            r == Err::<usize, Error>(Error::Generic),
            final(out)@ == old(out)@,
    {
        Err(Error::Generic)
    }

    /// Per-connection spin-bit policy override; `On` is rejected.
    pub fn set_spinbit_policy(&mut self, spinbit_policy: SpinbitVersion) -> (r: Result<(), Error>)
        ensures
            spinbit_policy == SpinbitVersion::On ==> r == Err::<(), Error>(Error::InvalidArgument)
                && *final(self) == *old(self),
            spinbit_policy != SpinbitVersion::On ==> r is Ok
                && *final(self) == (Connection { spin_policy: spinbit_policy, ..*old(self) }),
    {
        if spinbit_policy == SpinbitVersion::On {
            return Err(Error::InvalidArgument);
        }
        self.spin_policy = spinbit_policy;
        Ok(())
    }

    /// Begin an ordered close with an application reason code.
    pub fn close(&mut self, application_reason_code: u64) -> (r: Result<(), Error>)
        ensures
            r is Ok,
            *final(self) == (Connection {
                application_error: application_reason_code,
                connection_state: State::Disconnecting,
                ..*old(self)
            }),
    {
        self.application_error = application_reason_code;
        self.connection_state = State::Disconnecting;
        Ok(())
    }

    /// Same as `close` but records a textual reason.
    pub fn close_with_reason(&mut self, application_reason_code: u64, error_reason: Option<&str>) -> (r: Result<(), Error>)
        ensures
            r is Ok,
            *final(self) == (Connection {
                application_error: application_reason_code,
                connection_state: State::Disconnecting,
                local_error_reason: final(self).local_error_reason,
                ..*old(self)
            }),
            final(self).local_error_reason is Some <==> error_reason is Some,
            error_reason matches Some(e) ==> final(self).local_error_reason.unwrap()@ == e@,
    {
        self.application_error = application_reason_code;
        self.local_error_reason = match error_reason {
            Some(e) => Some(e.to_owned()),
            None => None,
        };
        self.connection_state = State::Disconnecting;
        Ok(())
    }

    /// Force-close the connection without waiting for the protocol drain.
    pub fn close_immediate(&mut self)
        ensures
            *final(self) == (Connection { connection_state: State::Disconnected, ..*old(self) }),
    {
        self.connection_state = State::Disconnected;
    }

    /// Probe a new path.  Path creation is not wired: always `Generic`.
    pub fn probe_new_path(&mut self, addr_peer: &SocketAddr, addr_local: &SocketAddr, current_time: Instant) -> (r: Result<(), Error>)
        ensures
            r == Err::<(), Error>(Error::Generic),
            *final(self) == *old(self),
    {
        Err(Error::Generic)
    }

    /// Probe a new path with interface index.  Not wired: always `Generic`.
    pub fn probe_new_path_ex(
        &mut self,
        addr_peer: &SocketAddr,
        addr_local: &SocketAddr,
        if_index: i32,
        current_time: Instant,
        to_preferred_address: bool,
    ) -> (r: Result<(), Error>)
        ensures
            r == Err::<(), Error>(Error::Generic),
            *final(self) == *old(self),
    {
        Err(Error::Generic)
    }

    /// Probe a new tuple on a path.  Not wired: always `Generic`.
    pub fn probe_new_tuple(
        &mut self,
        path_x: &mut Path,
        addr_peer: &SocketAddr,
        addr_local: &SocketAddr,
        if_index: i32,
        current_time: Instant,
        to_preferred_address: bool,
    ) -> (r: Result<(), Error>)
        ensures
            r == Err::<(), Error>(Error::Generic),
            *final(self) == *old(self),
            *final(path_x) == *old(path_x),
    {
        Err(Error::Generic)
    }

    /// Complete an address pair proposed for a new tuple, borrowing the
    /// missing address (and interface index) from the first path whose
    /// first tuple has the matching address family.
    pub fn verify_proposed_tuple(
        &self,
        addr_peer: Option<SocketAddr>,
        addr_local: Option<SocketAddr>,
        if_index: i32,
    ) -> (r: Result<(SocketAddr, SocketAddr, i32), Error>)
        ensures
            r == spec_verify_proposed_tuple(self.paths@, addr_peer, addr_local, if_index),
    {
        match (addr_peer, addr_local) {
            (None, None) => Err(Error::Generic),
            (None, Some(local)) => {
                let v4 = local.is_ipv4();
                let mut k: usize = 0;
                while k < self.paths.len()
                    invariant
                        k <= self.paths@.len(),
                        v4 == (local is V4),
                        addr_peer is None,
                        addr_local == Some(local),
                        tuple_with_peer_family(self.paths@, v4, 0) == tuple_with_peer_family(self.paths@, v4, k as int),
                    decreases self.paths.len() - k,
                {
                    if self.paths[k].tuples.len() > 0 && self.paths[k].tuples[0].peer_addr.is_ipv4() == v4 {
                        let t = self.paths[k].tuples[0];
                        return Ok((t.peer_addr, local, t.if_index as i32));
                    }
                    k = k + 1;
                }
                Err(Error::Generic)
            },
            (Some(peer), None) => {
                let v4 = peer.is_ipv4();
                let mut k: usize = 0;
                while k < self.paths.len()
                    invariant
                        k <= self.paths@.len(),
                        v4 == (peer is V4),
                        addr_peer == Some(peer),
                        addr_local is None,
                        tuple_with_local_family(self.paths@, v4, 0) == tuple_with_local_family(self.paths@, v4, k as int),
                    decreases self.paths.len() - k,
                {
                    if self.paths[k].tuples.len() > 0 && self.paths[k].tuples[0].local_addr.is_ipv4() == v4 {
                        let t = self.paths[k].tuples[0];
                        return Ok((peer, t.local_addr, t.if_index as i32));
                    }
                    k = k + 1;
                }
                Err(Error::Generic)
            },
            (Some(peer), Some(local)) => {
                if peer.is_ipv4() != local.is_ipv4() {
                    return Err(Error::InvalidArgument);
                }
                Ok((peer, local, if_index))
            },
        }
    }

    /// Tear down a path.  Not wired: always `Generic`.
    pub fn abandon_path(&mut self, unique_path_id: u64, reason: u64, current_time: Instant) -> (r: Result<(), Error>)
        ensures
            r == Err::<(), Error>(Error::Generic),
            *final(self) == *old(self),
    {
        Err(Error::Generic)
    }

    /// Issue a fresh CID for a path.  Not wired: always `Generic`.
    pub fn refresh_path_connection_id(&mut self, unique_path_id: u64) -> (r: Result<(), Error>)
        ensures
            r == Err::<(), Error>(Error::Generic),
            *final(self) == *old(self),
    {
        Err(Error::Generic)
    }

    /// Pin a stream to a path.  Not wired: always `Generic`.
    pub fn set_stream_path_affinity(&mut self, stream_id: u64, unique_path_id: u64) -> (r: Result<(), Error>)
        ensures
            r == Err::<(), Error>(Error::Generic),
            *final(self) == *old(self),
    {
        Err(Error::Generic)
    }

    /// Trigger the next TLS key rotation.  Not wired: always `Generic`.
    pub fn start_key_rotation(&mut self) -> (r: Result<(), Error>)
        ensures
            r == Err::<(), Error>(Error::Generic),
            *final(self) == *old(self),
    {
        Err(Error::Generic)
    }

    /// Mark the path with the given unique id as Available or Backup.
    pub fn set_path_status(&mut self, unique_path_id: u64, status: PathStatus) -> (r: Result<(), Error>)
        ensures
            path_index(old(self).paths@, unique_path_id) == -1 ==> r == Err::<(), Error>(Error::InvalidArgument)
                && *final(self) == *old(self),
            path_index(old(self).paths@, unique_path_id) != -1 ==> {
                let i = path_index(old(self).paths@, unique_path_id);
                &&& r is Ok
                &&& final(self).paths@ == old(self).paths@.update(i,
                    Path { path_is_backup: status == PathStatus::Backup, ..old(self).paths@[i] })
                &&& *final(self) == (Connection { paths: final(self).paths, ..*old(self) })
            },
    {
        match self.find_path(unique_path_id) {
            Some(i) => {
                let mut path = self.paths.remove(i);
                path.path_is_backup = status == PathStatus::Backup;
                self.paths.insert(i, path);
                proof {
                    assert(final(self).paths@ =~= old(self).paths@.update(i as int,
                        Path { path_is_backup: status == PathStatus::Backup, ..old(self).paths@[i as int] }));
                }
                Ok(())
            },
            None => Err(Error::InvalidArgument),
        }
    }

    /// Per-path datagram readiness.
    pub fn mark_datagram_ready_path(&mut self, unique_path_id: u64, is_path_ready: bool) -> (r: Result<(), Error>)
        ensures
            path_index(old(self).paths@, unique_path_id) == -1 ==> r == Err::<(), Error>(Error::InvalidArgument)
                && *final(self) == *old(self),
            path_index(old(self).paths@, unique_path_id) != -1 ==> {
                let i = path_index(old(self).paths@, unique_path_id);
                &&& r is Ok
                &&& final(self).paths@ == old(self).paths@.update(i,
                    Path { is_datagram_ready: is_path_ready, ..old(self).paths@[i] })
                &&& *final(self) == (Connection { paths: final(self).paths, ..*old(self) })
            },
    {
        match self.find_path(unique_path_id) {
            Some(i) => {
                let mut path = self.paths.remove(i);
                path.is_datagram_ready = is_path_ready;
                self.paths.insert(i, path);
                proof {
                    assert(final(self).paths@ =~= old(self).paths@.update(i as int,
                        Path { is_datagram_ready: is_path_ready, ..old(self).paths@[i as int] }));
                }
                Ok(())
            },
            None => Err(Error::InvalidArgument),
        }
    }

    /// Record quality-update thresholds on the path with the given id.
    pub fn subscribe_to_quality_update_per_path(&mut self, unique_path_id: u64, pacing_rate_delta: u64, rtt_delta: Duration) -> (r: Result<(), Error>)
        ensures
            path_index(old(self).paths@, unique_path_id) == -1 ==> r == Err::<(), Error>(Error::InvalidArgument)
                && *final(self) == *old(self),
            path_index(old(self).paths@, unique_path_id) != -1 ==> {
                let i = path_index(old(self).paths@, unique_path_id);
                &&& r is Ok
                &&& final(self).paths@ == old(self).paths@.update(i,
                    Path { pacing_rate_update_delta: pacing_rate_delta, rtt_update_delta: rtt_delta, ..old(self).paths@[i] })
                &&& *final(self) == (Connection { paths: final(self).paths, ..*old(self) })
            },
    {
        match self.find_path(unique_path_id) {
            Some(i) => {
                let mut path = self.paths.remove(i);
                path.subscribe_to_quality_update_per_path_context(pacing_rate_delta, rtt_delta);
                self.paths.insert(i, path);
                proof {
                    assert(final(self).paths@ =~= old(self).paths@.update(i as int,
                        Path { pacing_rate_update_delta: pacing_rate_delta, rtt_update_delta: rtt_delta, ..old(self).paths@[i as int] }));
                }
                Ok(())
            },
            None => Err(Error::InvalidArgument),
        }
    }

    /// Record quality-update thresholds on the connection and every path.
    pub fn subscribe_to_quality_update(&mut self, pacing_rate_delta: u64, rtt_delta: Duration)
        ensures
            final(self).paths@.len() == old(self).paths@.len(),
            forall|i: int| 0 <= i < old(self).paths@.len() ==> #[trigger] final(self).paths@[i] == (Path {
                pacing_rate_update_delta: pacing_rate_delta,
                rtt_update_delta: rtt_delta,
                ..old(self).paths@[i]
            }),
            *final(self) == (Connection {
                paths: final(self).paths,
                rtt_update_delta: rtt_delta,
                pacing_rate_update_delta: pacing_rate_delta,
                ..*old(self)
            }),
    {
        self.rtt_update_delta = rtt_delta;
        self.pacing_rate_update_delta = pacing_rate_delta;
        let n = self.paths.len();
        let mut k: usize = 0;
        while k < n
            invariant
                n == old(self).paths@.len(),
                self.paths@.len() == n,
                k <= n,
                forall|i: int| 0 <= i < k ==> #[trigger] self.paths@[i] == (Path {
                    pacing_rate_update_delta: pacing_rate_delta,
                    rtt_update_delta: rtt_delta,
                    ..old(self).paths@[i]
                }),
                forall|i: int| k <= i < n ==> #[trigger] self.paths@[i] == old(self).paths@[i],
                *self == (Connection {
                    paths: self.paths,
                    rtt_update_delta: rtt_delta,
                    pacing_rate_update_delta: pacing_rate_delta,
                    ..*old(self)
                }),
            decreases n - k,
        {
            let mut path = self.paths.remove(k);
            path.subscribe_to_quality_update_per_path_context(pacing_rate_delta, rtt_delta);
            self.paths.insert(k, path);
            k = k + 1;
        }
    }

    /// Override the interface index of the first tuple of the first path.
    pub fn set_first_if_index(&mut self, if_index: u32) -> (r: Result<(), Error>)
        ensures
            primary_tuple(old(self).paths@) is None ==> r == Err::<(), Error>(Error::InvalidArgument)
                && *final(self) == *old(self),
            primary_tuple(old(self).paths@) is Some ==> {
                &&& r is Ok
                &&& final(self).paths@.len() == old(self).paths@.len()
                &&& final(self).paths@[0].tuples@ == old(self).paths@[0].tuples@.update(0,
                    Tuple { if_index: if_index as u64, ..old(self).paths@[0].tuples@[0] })
                &&& final(self).paths@[0] == (Path { tuples: final(self).paths@[0].tuples, ..old(self).paths@[0] })
                &&& forall|i: int| 1 <= i < old(self).paths@.len() ==> #[trigger] final(self).paths@[i] == old(self).paths@[i]
                &&& *final(self) == (Connection { paths: final(self).paths, ..*old(self) })
            },
    {
        if self.paths.len() > 0 && self.paths[0].tuples.len() > 0 {
            let mut path = self.paths.remove(0);
            let t = path.tuples[0];
            path.tuples.set(0, Tuple { if_index: if_index as u64, ..t });
            self.paths.insert(0, path);
            return Ok(());
        }
        Err(Error::InvalidArgument)
    }

    /// Look up an address of the path with the given id: `local` selects
    /// 1 = local, 2 = peer, 3 = observed.
    pub fn path_addr(&self, unique_path_id: u64, local: i32) -> (r: Result<SocketAddr, Error>)
        ensures
            r == spec_path_addr(self.paths@, unique_path_id, local),
    {
        match self.find_path(unique_path_id) {
            Some(i) => {
                if self.paths[i].tuples.len() == 0 {
                    return Err(Error::InvalidArgument);
                }
                let t = self.paths[i].tuples[0];
                if local == 1 {
                    Ok(t.local_addr)
                } else if local == 2 {
                    Ok(t.peer_addr)
                } else if local == 3 {
                    Ok(t.observed_addr)
                } else {
                    Err(Error::InvalidArgument)
                }
            },
            None => Err(Error::InvalidArgument),
        }
    }

    /// Snapshot the quality metrics of the path with the given id.
    pub fn path_quality(&self, unique_path_id: u64) -> (r: Result<PathQuality, Error>)
        ensures
            path_index(self.paths@, unique_path_id) == -1 ==> r == Err::<PathQuality, Error>(Error::InvalidArgument),
            path_index(self.paths@, unique_path_id) != -1 ==> r == Ok::<PathQuality, Error>(spec_path_quality(
                self.paths@[path_index(self.paths@, unique_path_id)], self.pkt_ctx@[0].send_sequence)),
    {
        let sent = self.pkt_ctx[0].send_sequence;
        match self.find_path(unique_path_id) {
            Some(i) => Ok(get_path_quality_from_context(&self.paths[i], sent)),
            None => Err(Error::InvalidArgument),
        }
    }

    /// Snapshot the default path's quality metrics (all zero without a path).
    pub fn default_path_quality(&self) -> (r: PathQuality)
        ensures
            self.paths@.len() == 0 ==> r == spec_quality_zero(),
            self.paths@.len() > 0 ==> r == spec_path_quality(self.paths@[0], self.pkt_ctx@[0].send_sequence),
    {
        let sent = self.pkt_ctx[0].send_sequence;
        if self.paths.len() > 0 {
            get_path_quality_from_context(&self.paths[0], sent)
        } else {
            PathQuality::default()
        }
    }

    /// Microseconds until this connection next needs attention, capped at
    /// `delay_max`.
    pub fn wake_delay(&self, current_time: Instant, delay_max: i64) -> (r: i64)
        ensures
            r == (if self.next_wake_time <= current_time {
                0i64
            } else if ((self.next_wake_time - current_time) as i64) < delay_max {
                (self.next_wake_time - current_time) as i64
            } else {
                delay_max
            }),
    {
        let next = self.next_wake_time;
        let now = current_time;
        if next <= now {
            0
        } else {
            let delta = (next - now) as i64;
            if delta < delay_max { delta } else { delay_max }
        }
    }

    /// Override the per-connection padding policy.
    pub fn set_padding_policy(&mut self, padding_multiple: u32, padding_minsize: u32)
        ensures
            *final(self) == (Connection { padding_multiple, padding_minsize, ..*old(self) }),
    {
        self.padding_multiple = padding_multiple;
        self.padding_minsize = padding_minsize;
    }

    /// The per-connection padding policy as `(multiple, min-size)`.
    pub fn padding_policy(&self) -> (r: (u32, u32))
        ensures
            r == (self.padding_multiple, self.padding_minsize),
    {
        (self.padding_multiple, self.padding_minsize)
    }

    /// Obsolete form of `set_pmtud_policy`: `Required` or `Basic`.
    pub fn set_pmtud_required(&mut self, is_pmtud_required: bool)
        ensures
            *final(self) == (Connection {
                pmtud_policy: if is_pmtud_required { PmtudPolicy::Required } else { PmtudPolicy::Basic },
                ..*old(self)
            }),
    {
        self.pmtud_policy = if is_pmtud_required { PmtudPolicy::Required } else { PmtudPolicy::Basic };
    }

    /// Whether the handshake completed with a pre-shared key.
    pub fn tls_is_psk_handshake(&self) -> (r: bool)
        ensures
            r == (self.psk_cipher_suite_id != 0),
    {
        self.psk_cipher_suite_id != 0
    }

    /// Peer address of the default path (unspecified without one).
    pub fn peer_addr(&self) -> (r: SocketAddr)
        ensures
            r == (match primary_tuple(self.paths@) {
                Some(t) => t.peer_addr,
                None => spec_unspecified_addr(),
            }),
    {
        if self.paths.len() > 0 && self.paths[0].tuples.len() > 0 {
            self.paths[0].tuples[0].peer_addr
        } else {
            SocketAddr::unspecified()
        }
    }

    /// Local address of the default path (unspecified without one).
    pub fn local_addr(&self) -> (r: SocketAddr)
        ensures
            r == (match primary_tuple(self.paths@) {
                Some(t) => t.local_addr,
                None => spec_unspecified_addr(),
            }),
    {
        if self.paths.len() > 0 && self.paths[0].tuples.len() > 0 {
            self.paths[0].tuples[0].local_addr
        } else {
            SocketAddr::unspecified()
        }
    }

    /// Peer address of the default path.
    pub fn get_peer_addr(&self) -> (r: SocketAddr)
        ensures
            r == (match primary_tuple(self.paths@) {
                Some(t) => t.peer_addr,
                None => spec_unspecified_addr(),
            }),
    {
        self.peer_addr()
    }

    /// Local address of the default path.
    pub fn get_local_addr(&self) -> (r: SocketAddr)
        ensures
            r == (match primary_tuple(self.paths@) {
                Some(t) => t.local_addr,
                None => spec_unspecified_addr(),
            }),
    {
        self.local_addr()
    }

    /// Local interface index of the default path (0 without one).
    pub fn local_if_index(&self) -> (r: u32)
        ensures
            r == (match primary_tuple(self.paths@) {
                Some(t) => t.if_index as u32,
                None => 0u32,
            }),
    {
        if self.paths.len() > 0 && self.paths[0].tuples.len() > 0 {
            self.paths[0].tuples[0].if_index as u32
        } else {
            0
        }
    }

    /// Set the local address of the default path.  Fails with `Generic`
    /// when a local address is already set or the new one is unspecified,
    /// and with `InvalidArgument` when there is no default path.
    pub fn set_local_addr(&mut self, addr: &SocketAddr) -> (r: Result<(), Error>)
        ensures
            primary_tuple(old(self).paths@) is None ==> r == Err::<(), Error>(Error::InvalidArgument)
                && *final(self) == *old(self),
            primary_tuple(old(self).paths@) is Some && !spec_addr_is_unspecified(old(self).paths@[0].tuples@[0].local_addr)
                ==> r == Err::<(), Error>(Error::Generic) && *final(self) == *old(self),
            primary_tuple(old(self).paths@) is Some && spec_addr_is_unspecified(old(self).paths@[0].tuples@[0].local_addr) ==> {
                &&& r == (if spec_addr_is_unspecified(*addr) { Err::<(), Error>(Error::Generic) } else { Ok(()) })
                &&& final(self).paths@.len() == old(self).paths@.len()
                &&& final(self).paths@[0].tuples@ == old(self).paths@[0].tuples@.update(0, Tuple { local_addr: *addr, ..old(self).paths@[0].tuples@[0] })
                &&& final(self).paths@[0] == (Path { tuples: final(self).paths@[0].tuples, ..old(self).paths@[0] })
                &&& forall|i: int| 1 <= i < old(self).paths@.len() ==> #[trigger] final(self).paths@[i] == old(self).paths@[i]
                &&& *final(self) == (Connection { paths: final(self).paths, ..*old(self) })
            },
    {
        if self.paths.len() > 0 && self.paths[0].tuples.len() > 0 {
            let t = self.paths[0].tuples[0];
            if !t.local_addr.is_unspecified() {
                return Err(Error::Generic);
            }
            let mut path = self.paths.remove(0);
            path.tuples.set(0, Tuple { local_addr: *addr, ..t });
            self.paths.insert(0, path);
            return if addr.is_unspecified() { Err(Error::Generic) } else { Ok(()) };
        }
        Err(Error::InvalidArgument)
    }

    /// Local connection ID registered on the first tuple of the first path,
    /// or the initial connection ID when none is registered.
    pub fn local_cnxid(&self) -> (r: ConnectionId)
        ensures
            r == (match primary_tuple(self.paths@) {
                Some(t) => match local_cid_at(*self, t.local_connection_id) {
                    Some(c) => c,
                    None => self.initial_connection_id,
                },
                None => self.initial_connection_id,
            }),
    {
        if self.paths.len() > 0 && self.paths[0].tuples.len() > 0 {
            match self.paths[0].tuples[0].local_connection_id {
                Some(tok) => {
                    if tok < self.local_connection_ids.len() {
                        return self.local_connection_ids[tok].connection_id;
                    }
                },
                None => {},
            }
        }
        self.initial_connection_id
    }

    /// Client-side initial connection ID.
    pub fn client_connection_id(&self) -> (r: ConnectionId)
        ensures
            r == (if self.client_mode { self.initial_connection_id } else { self.original_connection_id }),
    {
        if self.client_mode { self.initial_connection_id } else { self.original_connection_id }
    }

    /// Server-side initial connection ID.
    pub fn server_connection_id(&self) -> (r: ConnectionId)
        ensures
            r == (if self.client_mode { self.original_connection_id } else { self.initial_connection_id }),
    {
        if self.client_mode { self.original_connection_id } else { self.initial_connection_id }
    }

    /// Whether no data, frame or stream is waiting to be sent.
    pub fn is_backlog_empty(&self) -> (r: bool)
        ensures
            r == (self.nb_bytes_queued == 0 && self.misc_frames@.len() == 0 && self.output_streams@.len() == 0),
    {
        self.nb_bytes_queued == 0 && self.misc_frames.len() == 0 && self.output_streams.len() == 0
    }

    /// Whether no data, frame or stream is waiting to be sent.
    pub fn is_cnx_backlog_empty(&self) -> (r: bool)
        ensures
            r == (self.nb_bytes_queued == 0 && self.misc_frames@.len() == 0 && self.output_streams@.len() == 0),
    {
        self.is_backlog_empty()
    }

    /// Queue a connection-level frame for transmission.
    pub fn queue_misc_frame(&mut self, bytes: &[u8], is_pure_ack: bool, pc: PacketContext) -> (r: Result<(), Error>)
        ensures
            r is Ok,
            final(self).misc_frames@.len() == old(self).misc_frames@.len() + 1,
            final(self).misc_frames@.drop_last() == old(self).misc_frames@,
            final(self).misc_frames@.last().bytes@ == bytes@,
            final(self).misc_frames@.last().packet_context == pc,
            final(self).misc_frames@.last().is_pure_ack == is_pure_ack,
            *final(self) == (Connection { misc_frames: final(self).misc_frames, ..*old(self) }),
    {
        let frame = MiscFrame { bytes: copy_bytes(bytes), packet_context: pc, is_pure_ack };
        self.misc_frames.push(frame);
        proof {
            assert(final(self).misc_frames@.drop_last() =~= old(self).misc_frames@);
        }
        Ok(())
    }

    /// Queue a datagram frame for transmission.
    pub fn queue_datagram_frame(&mut self, bytes: &[u8]) -> (r: Result<(), Error>)
        ensures
            r is Ok,
            final(self).datagrams@.len() == old(self).datagrams@.len() + 1,
            final(self).datagrams@.drop_last() == old(self).datagrams@,
            final(self).datagrams@.last().bytes@ == bytes@,
            final(self).datagrams@.last().packet_context == PacketContext::Application,
            !final(self).datagrams@.last().is_pure_ack,
            *final(self) == (Connection { datagrams: final(self).datagrams, ..*old(self) }),
    {
        let frame = MiscFrame { bytes: copy_bytes(bytes), packet_context: PacketContext::Application, is_pure_ack: false };
        self.datagrams.push(frame);
        proof {
            assert(final(self).datagrams@.drop_last() =~= old(self).datagrams@);
        }
        Ok(())
    }

    /// `true` when the misc-frame queue is non-empty.
    pub fn has_misc_frames(&self) -> (r: bool)
        ensures
            r == (self.misc_frames@.len() > 0),
    {
        self.misc_frames.len() > 0
    }

    /// `true` when the misc-frame queue holds exactly one frame.
    pub fn misc_frames_is_singleton(&self) -> (r: bool)
        ensures
            r == (self.misc_frames@.len() == 1),
    {
        self.misc_frames.len() == 1
    }

    /// Remove the last frame of the misc-frame queue, if any.
    pub fn delete_last_misc_frame(&mut self)
        ensures
            old(self).misc_frames@.len() == 0 ==> *final(self) == *old(self),
            old(self).misc_frames@.len() > 0 ==> final(self).misc_frames@ == old(self).misc_frames@.drop_last()
                && *final(self) == (Connection { misc_frames: final(self).misc_frames, ..*old(self) }),
    {
        if self.misc_frames.len() > 0 {
            self.misc_frames.pop();
        }
    }

    /// Exclude a stream from coalesced trains.  Not wired: always `Generic`.
    pub fn set_stream_not_coalesced(&mut self, stream_id: u64, is_not_coalesced: bool) -> (r: Result<(), Error>)
        ensures
            r == Err::<(), Error>(Error::Generic),
            *final(self) == *old(self),
    {
        Err(Error::Generic)
    }

    /// Set a per-stream priority.  Not wired: always `Generic`.
    pub fn set_stream_priority(&mut self, stream_id: u64, stream_priority: u8) -> (r: Result<(), Error>)
        ensures
            r == Err::<(), Error>(Error::Generic),
            *final(self) == *old(self),
    {
        Err(Error::Generic)
    }

    /// Mark a stream as high priority.  Not wired: always `Generic`.
    pub fn mark_high_priority_stream(&mut self, stream_id: u64, is_high_priority: bool) -> (r: Result<(), Error>)
        ensures
            r == Err::<(), Error>(Error::Generic),
            *final(self) == *old(self),
    {
        Err(Error::Generic)
    }

    /// Send a STREAM_RESET frame.  Not wired: always `Generic`.
    pub fn reset_stream(&mut self, stream_id: u64, local_stream_error: u64) -> (r: Result<(), Error>)
        ensures
            r == Err::<(), Error>(Error::Generic),
            *final(self) == *old(self),
    {
        Err(Error::Generic)
    }

    /// Send a RESET_STREAM_AT frame.  Not wired: always `Generic`.
    pub fn reset_stream_at(&mut self, stream_id: u64, local_stream_error: u64, reliable_size: u64) -> (r: Result<(), Error>)
        ensures
            r == Err::<(), Error>(Error::Generic),
            *final(self) == *old(self),
    {
        Err(Error::Generic)
    }

    /// Send a STOP_SENDING frame.  Not wired: always `Generic`.
    pub fn stop_sending(&mut self, stream_id: u64, local_stream_error: u64) -> (r: Result<(), Error>)
        ensures
            r == Err::<(), Error>(Error::Generic),
            *final(self) == *old(self),
    {
        Err(Error::Generic)
    }

    /// Drop a stream from local bookkeeping.  Not wired: always `Generic`.
    pub fn discard_stream(&mut self, stream_id: u64, local_stream_error: u16) -> (r: Result<(), Error>)
        ensures
            r == Err::<(), Error>(Error::Generic),
            *final(self) == *old(self),
    {
        Err(Error::Generic)
    }

    /// The next locally initiated stream ID of the requested direction:
    /// slot 0/1 bidirectional client/server, 2/3 unidirectional.
    pub fn next_local_stream_id(&self, is_unidir: bool) -> (r: u64)
        ensures
            r == self.next_stream_id@[(if is_unidir { 2int } else { 0int }) + (if self.client_mode { 0int } else { 1int })],
    {
        let type_idx: usize = (if is_unidir { 2 } else { 0 }) + (if self.client_mode { 0 } else { 1 });
        self.next_stream_id[type_idx]
    }

    /// The next locally initiated stream ID of the requested direction.
    pub fn get_next_local_stream_id(&self, is_unidirectional: bool) -> (r: u64)
        ensures
            r == self.next_stream_id@[(if is_unidirectional { 2int } else { 0int }) + (if self.client_mode { 0int } else { 1int })],
    {
        self.next_local_stream_id(is_unidirectional)
    }

    /// Toggle datagram readiness for this connection.
    pub fn mark_datagram_ready(&mut self, is_ready: bool) -> (r: Result<(), Error>)
        ensures
            r is Ok,
            *final(self) == (Connection { is_datagram_ready: is_ready, ..*old(self) }),
    {
        self.is_datagram_ready = is_ready;
        Ok(())
    }

    /// Disable any keep-alive.
    pub fn disable_keep_alive(&mut self)
        ensures
            *final(self) == (Connection { keep_alive_interval: 0, ..*old(self) }),
    {
        self.keep_alive_interval = 0;
    }

    /// `(local_error, remote_error, local_application_error,
    /// remote_application_error)`.
    pub fn close_reasons(&self) -> (r: (u64, u64, u64, u64))
        ensures
            r == (self.local_error, self.remote_error, self.application_error, self.remote_application_error),
    {
        (self.local_error, self.remote_error, self.application_error, self.remote_application_error)
    }

    /// Per-stream error reported by the peer; stream lookup is not wired,
    /// so this is always 0.
    pub fn remote_stream_error(&self, stream_id: u64) -> (r: u64)
        ensures
            r == 0,
    {
        0
    }

    /// Inject a remote stream error; stream lookup is not wired, so this
    /// changes nothing.
    pub fn set_stream_remote_error(&mut self, stream_id: u64, error_code: u64)
        ensures
            *final(self) == *old(self),
    {
    }

    /// Whether the connection still logs packets: the first hundred
    /// packets, or all of them in long-log mode.
    pub fn is_still_logging(&self) -> (r: bool)
        ensures
            r == (self.nb_packets_logged < LOG_PACKET_MAX_SEQUENCE || self.use_long_log),
    {
        self.nb_packets_logged < LOG_PACKET_MAX_SEQUENCE as u64 || self.use_long_log
    }

    /// Override the congestion-control algorithm of this connection.
    pub fn set_congestion_algorithm(&mut self, algo: CongestionAlgorithm)
        ensures
            *final(self) == (Connection { congestion_alg: Some(algo), congestion_alg_option_string: None, ..*old(self) }),
    {
        self.congestion_alg = Some(algo);
        self.congestion_alg_option_string = None;
    }

    /// Same as `set_congestion_algorithm` with an options string.
    pub fn set_congestion_algorithm_ex(&mut self, alg: CongestionAlgorithm, alg_option_string: Option<&str>)
        ensures
            *final(self) == (Connection {
                congestion_alg: Some(alg),
                congestion_alg_option_string: final(self).congestion_alg_option_string,
                ..*old(self)
            }),
            final(self).congestion_alg_option_string is Some <==> alg_option_string is Some,
            alg_option_string matches Some(o) ==> final(self).congestion_alg_option_string.unwrap()@ == o@,
    {
        self.congestion_alg = Some(alg);
        self.congestion_alg_option_string = match alg_option_string {
            Some(o) => Some(o.to_owned()),
            None => None,
        };
    }

    /// Subscribe to pacing-rate change notifications.
    pub fn subscribe_pacing_rate_updates(&mut self, decrease_threshold: u64, increase_threshold: u64)
        ensures
            *final(self) == (Connection {
                pacing_decrease_threshold: decrease_threshold,
                pacing_increase_threshold: increase_threshold,
                is_pacing_update_requested: true,
                ..*old(self)
            }),
    {
        self.pacing_decrease_threshold = decrease_threshold;
        self.pacing_increase_threshold = increase_threshold;
        self.is_pacing_update_requested = true;
    }

    /// Install client-side ECH configuration bytes.
    pub fn ech_configure_client(&mut self, config_data: &[u8]) -> (r: Result<(), Error>)
        ensures
            r is Ok,
            final(self).ech_client_config is Some,
            final(self).ech_client_config.unwrap()@ == config_data@,
            *final(self) == (Connection { ech_client_config: final(self).ech_client_config, ..*old(self) }),
    {
        self.ech_client_config = Some(copy_bytes(config_data));
        Ok(())
    }

    /// Number of paths.
    pub fn nb_paths(&self) -> (r: usize)
        ensures
            r == self.paths@.len(),
    {
        self.paths.len()
    }

    /// Unique id of the path at `index` (0 when out of range).
    pub fn path_unique_id(&self, index: usize) -> (r: u64)
        ensures
            r == (if index < self.paths@.len() { self.paths@[index as int].unique_path_id } else { 0 }),
    {
        if index < self.paths.len() { self.paths[index].unique_path_id } else { 0 }
    }

    /// Whether the path at `index` is a backup path (false when out of range).
    pub fn path_is_backup(&self, index: usize) -> (r: bool)
        ensures
            r == (index < self.paths@.len() && self.paths@[index as int].path_is_backup),
    {
        if index < self.paths.len() { self.paths[index].path_is_backup } else { false }
    }

    /// Bytes delivered on the path at `index` (0 when out of range).
    pub fn path_delivered(&self, index: usize) -> (r: u64)
        ensures
            r == (if index < self.paths@.len() { self.paths@[index as int].delivered } else { 0 }),
    {
        if index < self.paths.len() { self.paths[index].delivered } else { 0 }
    }

    /// Set the challenge-required flag on the first tuple of path `index`.
    pub fn set_path_challenge_required(&mut self, index: usize, required: bool)
        ensures
            tuple_at(old(self).paths@, index as int) is None ==> *final(self) == *old(self),
            tuple_at(old(self).paths@, index as int) is Some ==> {
                &&& final(self).paths@.len() == old(self).paths@.len()
                &&& final(self).paths@[index as int].tuples@ == old(self).paths@[index as int].tuples@.update(0,
                    Tuple { challenge_required: required, ..old(self).paths@[index as int].tuples@[0] })
                &&& final(self).paths@[index as int] == (Path {
                    tuples: final(self).paths@[index as int].tuples,
                    ..old(self).paths@[index as int]
                })
                &&& forall|i: int| 0 <= i < old(self).paths@.len() && i != index ==> #[trigger] final(self).paths@[i] == old(self).paths@[i]
                &&& *final(self) == (Connection { paths: final(self).paths, ..*old(self) })
            },
    {
        if index < self.paths.len() && self.paths[index].tuples.len() > 0 {
            let mut path = self.paths.remove(index);
            let t = path.tuples[0];
            path.tuples.set(0, Tuple { challenge_required: required, ..t });
            self.paths.insert(index, path);
        }
    }

    /// Local address of the first tuple of path `index` (unspecified when absent).
    pub fn path_local_addr_by_index(&self, index: usize) -> (r: SocketAddr)
        ensures
            r == (match tuple_at(self.paths@, index as int) {
                Some(t) => t.local_addr,
                None => spec_unspecified_addr(),
            }),
    {
        if index < self.paths.len() && self.paths[index].tuples.len() > 0 {
            self.paths[index].tuples[0].local_addr
        } else {
            SocketAddr::unspecified()
        }
    }

    /// Observed address of the first tuple of path `index` (unspecified when absent).
    pub fn path_observed_addr_by_index(&self, index: usize) -> (r: SocketAddr)
        ensures
            r == (match tuple_at(self.paths@, index as int) {
                Some(t) => t.observed_addr,
                None => spec_unspecified_addr(),
            }),
    {
        if index < self.paths.len() && self.paths[index].tuples.len() > 0 {
            self.paths[index].tuples[0].observed_addr
        } else {
            SocketAddr::unspecified()
        }
    }

    /// Peer address of the first tuple of path `index` (unspecified when absent).
    pub fn path_peer_addr_by_index(&self, index: usize) -> (r: SocketAddr)
        ensures
            r == (match tuple_at(self.paths@, index as int) {
                Some(t) => t.peer_addr,
                None => spec_unspecified_addr(),
            }),
    {
        if index < self.paths.len() && self.paths[index].tuples.len() > 0 {
            self.paths[index].tuples[0].peer_addr
        } else {
            SocketAddr::unspecified()
        }
    }

    /// Path id embedded in the local CID of path `index` (0 when absent).
    pub fn path_local_cnxid_path_id(&self, index: usize) -> (r: u64)
        ensures
            r == (match tuple_at(self.paths@, index as int) {
                Some(t) => match t.local_connection_id {
                    Some(tok) => if tok < self.local_connection_ids@.len() {
                        self.local_connection_ids@[tok as int].path_id
                    } else {
                        0
                    },
                    None => 0,
                },
                None => 0,
            }),
    {
        if index < self.paths.len() && self.paths[index].tuples.len() > 0 {
            match self.paths[index].tuples[0].local_connection_id {
                Some(tok) => {
                    if tok < self.local_connection_ids.len() {
                        return self.local_connection_ids[tok].path_id;
                    }
                },
                None => {},
            }
        }
        0
    }

    /// Sequence of the local CID of path `index` (0 when absent).
    pub fn path_local_cnxid_sequence(&self, index: usize) -> (r: u64)
        ensures
            r == (match tuple_at(self.paths@, index as int) {
                Some(t) => match t.local_connection_id {
                    Some(tok) => if tok < self.local_connection_ids@.len() {
                        self.local_connection_ids@[tok as int].sequence
                    } else {
                        0
                    },
                    None => 0,
                },
                None => 0,
            }),
    {
        if index < self.paths.len() && self.paths[index].tuples.len() > 0 {
            match self.paths[index].tuples[0].local_connection_id {
                Some(tok) => {
                    if tok < self.local_connection_ids.len() {
                        return self.local_connection_ids[tok].sequence;
                    }
                },
                None => {},
            }
        }
        0
    }

    /// The remote connection ID that short headers of the primary path
    /// carry (see `spec_initial_remote_cid`); the empty ID when none.
    pub fn initial_remote_connection_id(&self) -> (r: ConnectionId)
        ensures
            spec_initial_remote_cid(*self) matches Some(c) ==> r == c,
            spec_initial_remote_cid(*self) is None ==> r@ == Seq::<u8>::empty(),
    {
        let path_id: u64 = if self.paths.len() > 0 { self.paths[0].unique_path_id } else { 0 };
        let remote_index: usize = if self.paths.len() > 0 && self.paths[0].tuples.len() > 0 {
            match self.paths[0].tuples[0].remote_connection_id_index {
                Some(i) => i,
                None => 0,
            }
        } else {
            0
        };
        let mut k: usize = 0;
        while k < self.remote_connection_id_stashes.len() && self.remote_connection_id_stashes[k].unique_path_id != path_id
            invariant
                k <= self.remote_connection_id_stashes@.len(),
                stash_index_from(self.remote_connection_id_stashes@, path_id, 0)
                    == stash_index_from(self.remote_connection_id_stashes@, path_id, k as int),
            decreases self.remote_connection_id_stashes.len() - k,
        {
            k = k + 1;
        }
        if k < self.remote_connection_id_stashes.len()
            && remote_index < self.remote_connection_id_stashes[k].connection_ids.len() {
            return self.remote_connection_id_stashes[k].connection_ids[remote_index].connection_id;
        }
        if self.remote_connection_id_stashes.len() > 0 && self.remote_connection_id_stashes[0].connection_ids.len() > 0 {
            return self.remote_connection_id_stashes[0].connection_ids[0].connection_id;
        }
        ConnectionId::empty()
    }

    /// The remote connection ID of path `path_index`: in the stash of the
    /// path's unique ID, the entry at the first tuple's remote index (0
    /// when unset).  `None` without such a path, tuple, stash or entry.
    pub fn path_remote_connection_id(&self, path_index: usize) -> (r: Option<ConnectionId>)
        ensures
            r == (match tuple_at(self.paths@, path_index as int) {
                Some(t) => {
                    let s = stash_index_from(self.remote_connection_id_stashes@, self.paths@[path_index as int].unique_path_id, 0);
                    let i: int = match t.remote_connection_id_index {
                        Some(i) => i as int,
                        None => 0,
                    };
                    if s != -1 && i < self.remote_connection_id_stashes@[s].connection_ids@.len() {
                        Some(self.remote_connection_id_stashes@[s].connection_ids@[i].connection_id)
                    } else {
                        None
                    }
                },
                None => None,
            }),
    {
        if path_index >= self.paths.len() || self.paths[path_index].tuples.len() == 0 {
            return None;
        }
        let path_id = self.paths[path_index].unique_path_id;
        let cid_index: usize = match self.paths[path_index].tuples[0].remote_connection_id_index {
            Some(i) => i,
            None => 0,
        };
        let mut k: usize = 0;
        while k < self.remote_connection_id_stashes.len() && self.remote_connection_id_stashes[k].unique_path_id != path_id
            invariant
                k <= self.remote_connection_id_stashes@.len(),
                stash_index_from(self.remote_connection_id_stashes@, path_id, 0)
                    == stash_index_from(self.remote_connection_id_stashes@, path_id, k as int),
            decreases self.remote_connection_id_stashes.len() - k,
        {
            k = k + 1;
        }
        if k < self.remote_connection_id_stashes.len() && cid_index < self.remote_connection_id_stashes[k].connection_ids.len() {
            Some(self.remote_connection_id_stashes[k].connection_ids[cid_index].connection_id)
        } else {
            None
        }
    }

    /// Whether a new path may be opened now (see `spec_check_new_path_allowed`).
    pub fn check_new_path_allowed(&self, to_preferred_address: bool) -> (r: Result<(), Error>)
        ensures
            r == spec_check_new_path_allowed(*self, to_preferred_address),
    {
        reveal(spec_check_new_path_allowed);
        if (self.remote_parameters.migration_disabled && !to_preferred_address) || self.local_parameters.migration_disabled {
            return Err(Error::Internal(InternalError::MigrationDisabled));
        }
        if self.connection_state.rank() < State::ClientAlmostReady.rank() {
            return Err(Error::Internal(InternalError::PathNotReady));
        }
        if self.paths.len() >= NB_PATH_TARGET {
            return Err(Error::Internal(InternalError::PathLimitExceeded));
        }
        let upid: u64 = if self.is_multipath_enabled { self.unique_path_id_next } else { 0 };
        let mut k: usize = 0;
        while k < self.remote_connection_id_stashes.len() && self.remote_connection_id_stashes[k].unique_path_id != upid
            invariant
                k <= self.remote_connection_id_stashes@.len(),
                stash_index_from(self.remote_connection_id_stashes@, upid, 0)
                    == stash_index_from(self.remote_connection_id_stashes@, upid, k as int),
            decreases self.remote_connection_id_stashes.len() - k,
        {
            k = k + 1;
        }
        let ghost stashes = self.remote_connection_id_stashes@;
        assert(k < stashes.len() ==> stash_index_from(stashes, upid, 0) == k as int);
        assert(k >= stashes.len() ==> stash_index_from(stashes, upid, 0) == -1);
        let has_available_cid = if k < self.remote_connection_id_stashes.len() {
            match self.remote_connection_id_stashes[k].get_connection_id_from_stash() {
                Some(_) => true,
                None => false,
            }
        } else {
            false
        };
        assert(has_available_cid == (stash_index_from(stashes, upid, 0) != -1
            && stash_available_from(stashes[stash_index_from(stashes, upid, 0)].connection_ids@, 0) != -1));
        if has_available_cid {
            Ok(())
        } else if self.unique_path_id_next > self.max_path_id_remote {
            Err(Error::Internal(InternalError::PathIdBlocked))
        } else {
            Err(Error::Internal(InternalError::PathCidBlocked))
        }
    }

    /// Ask to be told when a new path becomes allowed: `Ok(true)` when one
    /// already is, `Ok(false)` (and subscribed) when the refusal is
    /// transient, the refusal itself otherwise.
    pub fn subscribe_new_path_allowed(&mut self) -> (r: Result<bool, Error>)
        ensures
            *final(self) == (Connection {
                is_notified_that_path_is_allowed: false,
                is_subscribed_to_path_allowed: final(self).is_subscribed_to_path_allowed,
                ..*old(self)
            }),
            (match spec_check_new_path_allowed(*old(self), false) {
                Ok(_) => r == Ok::<bool, Error>(true) && !final(self).is_subscribed_to_path_allowed,
                Err(e) => if is_transient_path_refusal(e) {
                    r == Ok::<bool, Error>(false) && final(self).is_subscribed_to_path_allowed
                } else {
                    r == Err::<bool, Error>(e) && final(self).is_subscribed_to_path_allowed
                        == old(self).is_subscribed_to_path_allowed
                },
            }),
    {
        let res = self.check_new_path_allowed(false);
        let (r, subscribed) = match res {
            Ok(()) => (Ok(true), false),
            Err(e) => {
                if is_transient_refusal(e) {
                    (Ok(false), true)
                } else {
                    (Err(e), self.is_subscribed_to_path_allowed)
                }
            },
        };
        self.set_path_allowance_flags(false, subscribed);
        r
    }

    /// Record whether the application was told, and asked to be told,
    /// that a new path is allowed.
    fn set_path_allowance_flags(&mut self, notified: bool, subscribed: bool)
        ensures
            *final(self) == (Connection {
                is_notified_that_path_is_allowed: notified,
                is_subscribed_to_path_allowed: subscribed,
                ..*old(self)
            }),
    {
        self.is_notified_that_path_is_allowed = notified;
        self.is_subscribed_to_path_allowed = subscribed;
    }

    /// Record the registration of path `path_index` in the context's
    /// address table.
    pub fn set_path_net_registration(&mut self, path_index: usize, addr: SocketAddr, registered: bool)
        requires
            path_index < old(self).paths@.len(),
        ensures
            final(self).paths@ == old(self).paths@.update(
                path_index as int,
                Path { registered_peer_addr: addr, is_registered_by_net: registered, ..old(self).paths@[path_index as int] },
            ),
            *final(self) == (Connection { paths: final(self).paths, ..*old(self) }),
    {
        let mut p = self.paths.remove(path_index);
        p.set_net_registration(addr, registered);
        self.paths.insert(path_index, p);
        proof {
            assert(final(self).paths@ =~= old(self).paths@.update(
                path_index as int,
                Path { registered_peer_addr: addr, is_registered_by_net: registered, ..old(self).paths@[path_index as int] },
            ));
        }
    }

    /// Record the registration of the initial connection ID.
    pub fn set_icid_registration(&mut self, addr: SocketAddr, registered: bool)
        ensures
            *final(self) == (Connection { registered_icid_addr: addr, is_registered_by_icid: registered, ..*old(self) }),
    {
        self.registered_icid_addr = addr;
        self.is_registered_by_icid = registered;
    }

    /// Record the registration of the stateless-reset secret.
    pub fn set_secret_registration(&mut self, addr: SocketAddr, secret: [u8; 16], registered: bool)
        ensures
            *final(self) == (Connection {
                registered_secret_addr: addr,
                registered_reset_secret: secret,
                is_registered_by_secret: registered,
                ..*old(self)
            }),
    {
        self.registered_secret_addr = addr;
        self.registered_reset_secret = secret;
        self.is_registered_by_secret = registered;
    }

    /// Index of the local connection ID of path `unique_path_id` whose
    /// bytes are those of `connection_id`.
    pub fn find_local_cnxid(&self, unique_path_id: u64, connection_id: &ConnectionId) -> (r: Option<usize>)
        ensures
            ({
                let k = local_cid_index_from(self.local_connection_ids@, unique_path_id, connection_id@, 0);
                &&& k == -1 ==> r is None
                &&& k != -1 ==> r == Some(k as usize)
            }),
    {
        let mut k: usize = 0;
        while k < self.local_connection_ids.len()
            invariant
                k <= self.local_connection_ids@.len(),
                local_cid_index_from(self.local_connection_ids@, unique_path_id, connection_id@, 0)
                    == local_cid_index_from(self.local_connection_ids@, unique_path_id, connection_id@, k as int),
            decreases self.local_connection_ids.len() - k,
        {
            if self.local_connection_ids[k].path_id == unique_path_id
                && self.local_connection_ids[k].connection_id.same_as(connection_id) {
                return Some(k);
            }
            k = k + 1;
        }
        None
    }

    /// Record a new local connection ID `connection_id` on path
    /// `unique_path_id`: it gets the path's next sequence number (the
    /// path's list is created when missing) and is appended to the local
    /// ID list; yields its index there.
    pub fn add_local_cnxid(&mut self, unique_path_id: u64, connection_id: ConnectionId, current_time: Instant) -> (r:
        usize)
        requires
            next_local_cid_sequence(*old(self), unique_path_id) < u64::MAX,
        ensures
            r == old(self).local_connection_ids@.len(),
            final(self).local_connection_ids@ == old(self).local_connection_ids@.push(
                LocalConnectionId {
                    path_id: unique_path_id,
                    sequence: next_local_cid_sequence(*old(self), unique_path_id),
                    create_time: current_time,
                    connection_id,
                    is_acked: false,
                },
            ),
            next_local_cid_sequence(*final(self), unique_path_id) == next_local_cid_sequence(*old(self), unique_path_id)
                + 1,
            *final(self) == (Connection {
                local_connection_ids: final(self).local_connection_ids,
                local_connection_id_lists: final(self).local_connection_id_lists,
                max_path_id_in_connection_id_lists: final(self).max_path_id_in_connection_id_lists,
                ..*old(self)
            }),
    {
        add_local_cid_parts(
            &mut self.local_connection_ids,
            &mut self.local_connection_id_lists,
            &mut self.max_path_id_in_connection_id_lists,
            unique_path_id,
            connection_id,
            current_time,
        )
    }

    /// Sequence of the remote CID of path `index`: the entry at the tuple's
    /// remote index in the first stash that has such an entry (0 when absent).
    pub fn path_remote_cnxid_sequence(&self, index: usize) -> (r: u64)
        ensures
            r == (match tuple_at(self.paths@, index as int) {
                Some(t) => match t.remote_connection_id_index {
                    Some(rid) => stash_sequence_from(self.remote_connection_id_stashes@, rid as int, 0),
                    None => 0,
                },
                None => 0,
            }),
    {
        if index < self.paths.len() && self.paths[index].tuples.len() > 0 {
            match self.paths[index].tuples[0].remote_connection_id_index {
                Some(rid) => {
                    let mut k: usize = 0;
                    while k < self.remote_connection_id_stashes.len()
                        invariant
                            k <= self.remote_connection_id_stashes@.len(),
                            tuple_at(self.paths@, index as int) matches Some(t) && t.remote_connection_id_index == Some(rid),
                            stash_sequence_from(self.remote_connection_id_stashes@, rid as int, 0)
                                == stash_sequence_from(self.remote_connection_id_stashes@, rid as int, k as int),
                        decreases self.remote_connection_id_stashes.len() - k,
                    {
                        if rid < self.remote_connection_id_stashes[k].connection_ids.len() {
                            return self.remote_connection_id_stashes[k].connection_ids[rid].sequence;
                        }
                        k = k + 1;
                    }
                    return 0;
                },
                None => {},
            }
        }
        0
    }

    /// Set `enable_time_stamp` in the local transport parameters.
    pub fn set_local_enable_time_stamp(&mut self, v: u8)
        ensures
            *final(self) == (Connection {
                local_parameters: TransportParameters { enable_time_stamp: v as i32, ..old(self).local_parameters },
                ..*old(self)
            }),
    {
        self.local_parameters.enable_time_stamp = v as i32;
    }

    /// Set `initial_max_path_id` in the local transport parameters.
    pub fn set_local_initial_max_path_id(&mut self, v: u32)
        ensures
            *final(self) == (Connection {
                local_parameters: TransportParameters { initial_max_path_id: v as u64, ..old(self).local_parameters },
                ..*old(self)
            }),
    {
        self.local_parameters.initial_max_path_id = v as u64;
    }

    /// Set `max_datagram_frame_size` in the local transport parameters
    /// (low 32 bits of `v`).
    pub fn set_local_max_datagram_frame_size(&mut self, v: u64)
        ensures
            *final(self) == (Connection {
                local_parameters: TransportParameters { max_datagram_frame_size: v as u32, ..old(self).local_parameters },
                ..*old(self)
            }),
    {
        self.local_parameters.max_datagram_frame_size = v as u32;
    }

    /// Set `address_discovery_mode` in the local transport parameters.
    pub fn set_local_address_discovery_mode(&mut self, mode: u8)
        ensures
            *final(self) == (Connection {
                local_parameters: TransportParameters { address_discovery_mode: mode as i32, ..old(self).local_parameters },
                ..*old(self)
            }),
    {
        self.local_parameters.address_discovery_mode = mode as i32;
    }

    /// Current pacing rate of the primary path (0 without one).
    pub fn pacing_rate(&self) -> (r: u64)
        ensures
            r == (if self.paths@.len() > 0 { self.paths@[0].pacing_rate } else { 0 }),
    {
        if self.paths.len() > 0 { self.paths[0].pacing_rate } else { 0 }
    }

    /// Congestion window of the primary path (0 without one).
    pub fn cwin(&self) -> (r: u64)
        ensures
            r == (if self.paths@.len() > 0 { self.paths@[0].cwin } else { 0 }),
    {
        if self.paths.len() > 0 { self.paths[0].cwin } else { 0 }
    }

    /// Smoothed RTT of the primary path (0 without one).
    pub fn rtt(&self) -> (r: u64)
        ensures
            r == (if self.paths@.len() > 0 { self.paths@[0].smoothed_rtt } else { 0 }),
    {
        if self.paths.len() > 0 { self.paths[0].smoothed_rtt } else { 0 }
    }

    /// Maximum RTT observed on the primary path (0 without one).
    pub fn primary_path_rtt_max(&self) -> (r: u64)
        ensures
            r == (if self.paths@.len() > 0 { self.paths@[0].rtt_max } else { 0 }),
    {
        if self.paths.len() > 0 { self.paths[0].rtt_max } else { 0 }
    }

    /// Congestion window of the primary path (0 without one).
    pub fn primary_path_cwin(&self) -> (r: u64)
        ensures
            r == (if self.paths@.len() > 0 { self.paths@[0].cwin } else { 0 }),
    {
        if self.paths.len() > 0 { self.paths[0].cwin } else { 0 }
    }

    /// Pacing rate of the primary path (0 without one).
    pub fn primary_path_pacing_rate(&self) -> (r: u64)
        ensures
            r == (if self.paths@.len() > 0 { self.paths@[0].pacing_rate } else { 0 }),
    {
        if self.paths.len() > 0 { self.paths[0].pacing_rate } else { 0 }
    }

    /// RTT variance of the primary path (0 without one).
    pub fn primary_path_rtt_variant(&self) -> (r: u64)
        ensures
            r == (if self.paths@.len() > 0 { self.paths@[0].rtt_variant } else { 0 }),
    {
        if self.paths.len() > 0 { self.paths[0].rtt_variant } else { 0 }
    }

    /// Send MTU of the primary path (0 without one).
    pub fn primary_path_send_mtu(&self) -> (r: u64)
        ensures
            r == (if self.paths@.len() > 0 { self.paths@[0].send_mtu as u64 } else { 0 }),
    {
        if self.paths.len() > 0 { self.paths[0].send_mtu as u64 } else { 0 }
    }

    /// Minimum RTT of the primary path (0 without one).
    pub fn primary_path_rtt_min(&self) -> (r: u64)
        ensures
            r == (if self.paths@.len() > 0 { self.paths@[0].rtt_min } else { 0 }),
    {
        if self.paths.len() > 0 { self.paths[0].rtt_min } else { 0 }
    }

    /// Current spin bit of the primary path (false without one).
    pub fn primary_path_current_spin(&self) -> (r: bool)
        ensures
            r == (self.paths@.len() > 0 && self.paths@[0].current_spin),
    {
        if self.paths.len() > 0 { self.paths[0].current_spin } else { false }
    }

    /// Local CID registered on the first tuple of path `path_index`.
    pub fn path_local_connection_id(&self, path_index: usize) -> (r: Option<ConnectionId>)
        ensures
            r == (match tuple_at(self.paths@, path_index as int) {
                Some(t) => local_cid_at(*self, t.local_connection_id),
                None => None,
            }),
    {
        if path_index < self.paths.len() && self.paths[path_index].tuples.len() > 0 {
            match self.paths[path_index].tuples[0].local_connection_id {
                Some(tok) => {
                    if tok < self.local_connection_ids.len() {
                        return Some(self.local_connection_ids[tok].connection_id);
                    }
                },
                None => {},
            }
        }
        None
    }
}

} // verus!
