//! The QUIC context: defaults applied to new connections, per-context
//! policies, the connection table and wake-time scheduling.

use vstd::prelude::*;
use crate::cc::{cc_index_from, get_congestion_algorithm, spec_registered, CongestionAlgorithm, CongestionAlgorithmRegistry};
use vstd::string::StringSliceAdditionalSpecFns;
use crate::cid::ConnectionId;
use crate::cnx_table::{CidEntry, IcidEntry, NetEntry, SecretEntry};
use crate::connection::Connection;
use crate::stateless::StatelessPacket;
use crate::tp::{set_tp_value_by_type, spec_tp_set, tp_type_known, TransportParameters};
use crate::types::{
    Duration, Error, InternalError, Instant, LossbitVersion, PmtudPolicy, SpinbitVersion,
    AES_128_GCM_SHA256, AES_256_GCM_SHA384, CHACHA20_POLY1305_SHA256, CONNECTION_ID_MAX_SIZE,
    DEFAULT_STREAM_PRIORITY, GROUP_SECP256R1, RESET_PACKET_MIN_SIZE,
};

verus! {

/// Initial congestion window: ten maximum-size packets.
pub const CWIN_INITIAL: u64 = 15360;

/// Floor of the congestion window: two maximum-size packets.
pub const CWIN_MINIMUM: u64 = 3072;

/// RTT above which Reno-style slow start is adjusted (100 ms).
pub const TARGET_RENO_RTT: u64 = 100000;

/// Default period, in packets, of intentional acknowledgement holes.
pub const DEFAULT_HOLE_PERIOD: u32 = 256;

/// Default cap on connections logging at the same time.
pub const DEFAULT_SIMULTANEOUS_LOGS: u32 = 32;

/// Default number of half-open connections before retry mode.
pub const DEFAULT_HALF_OPEN_RETRY_THRESHOLD: u32 = 64;

/// Default minimum interval between stateless resets (microseconds).
pub const MICROSEC_STATELESS_RESET_INTERVAL_DEFAULT: u64 = 100000;

/// A QUIC context: defaults for new connections and the connection table.
#[derive(Debug)]
pub struct Quic {
    pub default_alpn: Option<String>,
    pub reset_seed: [u8; 16],
    pub retry_seed: Vec<u8>,
    pub hash_seed: [u8; 16],
    pub ticket_file_name: Option<String>,
    pub local_connection_id_length: u8,
    pub default_stream_priority: u8,
    pub default_datagram_priority: u8,
    pub local_connection_id_ttl: u64,
    pub mtu_max: u32,
    pub padding_multiple_default: u32,
    pub padding_minsize_default: u32,
    pub sequence_hole_pseudo_period: u32,
    pub default_pmtud_policy: PmtudPolicy,
    pub default_spin_policy: SpinbitVersion,
    pub default_lossbit_policy: LossbitVersion,
    pub default_multipath_option: u32,
    pub default_handshake_timeout: Duration,
    pub crypto_epoch_length_max: u64,
    pub max_simultaneous_logs: u32,
    pub max_half_open_before_retry: u32,
    pub current_number_connections: u32,
    /// Connections whose handshake has started and not completed.
    pub current_number_half_open: u32,
    /// Whether new connections are refused as the server is busy.
    pub server_busy: bool,
    pub tentative_max_number_connections: u32,
    pub max_number_connections: u32,
    pub stateless_reset_next_time: Instant,
    pub stateless_reset_min_interval: Duration,
    pub cwin_max: u64,
    pub check_token: bool,
    pub force_check_token: bool,
    pub provide_token: bool,
    pub unconditional_cnx_id: bool,
    pub use_long_log: bool,
    pub enable_sslkeylog: bool,
    pub use_unique_log_names: bool,
    pub random_initial: u8,
    pub packet_train_mode: bool,
    pub use_low_memory: bool,
    pub is_preemptive_repeat_enabled: bool,
    pub default_send_receive_bdp_frame: bool,
    pub enforce_client_only: bool,
    pub is_port_blocking_disabled: bool,
    pub are_path_callbacks_enabled: bool,
    pub client_authentication: bool,
    pub use_exporter: bool,
    pub default_congestion_alg: Option<CongestionAlgorithm>,
    pub default_congestion_alg_option_string: Option<String>,
    pub connections: Vec<Connection>,
    pub default_tp: TransportParameters,
    pub max_data_limit: u64,
    pub rtt_update_delta: Duration,
    pub pacing_rate_update_delta: u64,
    pub nb_data_nodes_allocated: i32,
    pub qlog_dir: Option<String>,
    /// Connections by peer address.
    pub connection_by_net: Vec<NetEntry>,
    /// Connections by initial connection ID and peer address.
    pub connection_by_icid: Vec<IcidEntry>,
    /// Connections by stateless-reset secret and peer address.
    pub connection_by_secret: Vec<SecretEntry>,
    /// Connections by local connection ID.
    pub connection_by_id: Vec<CidEntry>,
    /// The connection whose packets are being processed, if any.
    pub connection_in_progress: Option<usize>,
    /// Packets outside any connection, waiting to be sent, oldest first.
    pub pending_stateless_packets: Vec<StatelessPacket>,
}

/// Earliest wake time among connections `k..`, if any.
pub open spec fn min_wake_from(conns: Seq<Connection>, k: int) -> Option<u64>
    decreases conns.len() - k,
{
    if k < 0 || k >= conns.len() {
        None
    } else {
        match min_wake_from(conns, k + 1) {
            None => Some(conns[k].next_wake_time),
            Some(m) => Some(if conns[k].next_wake_time <= m { conns[k].next_wake_time } else { m }),
        }
    }
}

/// Earliest wake time among all connections, if any.
pub open spec fn min_wake(conns: Seq<Connection>) -> Option<u64> {
    min_wake_from(conns, 0)
}

/// The minimum is attained by some connection and bounds all of them.
proof fn lemma_min_wake_from(conns: Seq<Connection>, k: int)
    requires
        0 <= k <= conns.len(),
    ensures
        k == conns.len() <==> min_wake_from(conns, k) is None,
        min_wake_from(conns, k) matches Some(m) ==> (forall|j: int| k <= j < conns.len() ==> m <= #[trigger] conns[j].next_wake_time)
            && (exists|j: int| k <= j < conns.len() && m == #[trigger] conns[j].next_wake_time),
    decreases conns.len() - k,
{
    if k < conns.len() {
        lemma_min_wake_from(conns, k + 1);
        let m = min_wake_from(conns, k).unwrap();
        if m == conns[k].next_wake_time {
            assert(m == conns[k].next_wake_time);
        }
    }
}

/// Delay until the earliest connection wake time, capped at `delay_max`.
pub open spec fn spec_next_wake_delay(conns: Seq<Connection>, now: u64, delay_max: i64) -> i64 {
    match min_wake(conns) {
        None => delay_max,
        Some(t) => if t <= now {
            0
        } else if ((t - now) as i64) < delay_max {
            (t - now) as i64
        } else {
            delay_max
        },
    }
}

/// Index of the first connection with the least wake time not after
/// `wake_time`.
pub open spec fn is_earliest_to_wake(conns: Seq<Connection>, wake_time: u64, i: int) -> bool {
    &&& 0 <= i < conns.len()
    &&& conns[i].next_wake_time <= wake_time
    &&& forall|j: int| 0 <= j < conns.len() && conns[j].next_wake_time <= wake_time ==> conns[i].next_wake_time
        <= #[trigger] conns[j].next_wake_time
    &&& forall|j: int| 0 <= j < i && conns[j].next_wake_time <= wake_time ==> conns[i].next_wake_time
        < #[trigger] conns[j].next_wake_time
}

/// The delay until the next wake-up never exceeds the cap and is never
/// negative (for a non-negative cap, and a next wake time less than
/// 2^63 microseconds ahead, beyond which the signed delay wraps).
pub proof fn law_next_wake_delay_bounds(conns: Seq<Connection>, now: u64, delay_max: i64)
    requires
        delay_max >= 0,
        min_wake(conns) matches Some(t) ==> t <= now + i64::MAX,
    ensures
        0 <= spec_next_wake_delay(conns, now, delay_max) <= delay_max,
{
    match min_wake(conns) {
        Some(t) => {
            if t > now {
                assert(((t - now) as i64) as int == t - now);
            }
        },
        None => {},
    }
}

/// The connection picked to wake up first is one whose wake time is the
/// earliest of all: its time is the context's next wake time.
pub proof fn law_earliest_is_next_wake(conns: Seq<Connection>, wake_time: u64, i: int)
    requires
        is_earliest_to_wake(conns, wake_time, i),
    ensures
        min_wake(conns) == Some(conns[i].next_wake_time),
{
    lemma_min_wake_from(conns, 0);
    let m = min_wake(conns).unwrap();
    let j = choose|j: int| 0 <= j < conns.len() && m == #[trigger] conns[j].next_wake_time;
    assert(m <= conns[i].next_wake_time);
    assert(conns[j].next_wake_time <= wake_time);
    assert(conns[i].next_wake_time <= conns[j].next_wake_time);
}

/// `c` waking up at `t`.
pub open spec fn waking_at(c: Connection, t: u64) -> Connection {
    Connection { next_wake_time: t, ..c }
}

/// Rescheduling a connection to a time before every other wake time makes
/// it the one to wake first at that time, and that time the context's
/// next wake time.
pub proof fn law_rescheduled_wakes_first(conns: Seq<Connection>, i: int, t: u64)
    requires
        0 <= i < conns.len(),
        forall|j: int| 0 <= j < conns.len() && j != i ==> t < #[trigger] conns[j].next_wake_time,
    ensures
        is_earliest_to_wake(conns.update(i, waking_at(conns[i], t)), t, i),
        min_wake(conns.update(i, waking_at(conns[i], t))) == Some(t),
{
    let c2 = conns.update(i, waking_at(conns[i], t));
    assert(c2[i].next_wake_time == t);
    assert forall|j: int| 0 <= j < c2.len() && j != i implies t < #[trigger] c2[j].next_wake_time by {
        assert(c2[j] == conns[j]);
    }
    law_earliest_is_next_wake(c2, t, i);
}

impl Connection {
    /// Wake up at `t`.
    fn set_next_wake_time(&mut self, t: u64)
        ensures
            *final(self) == waking_at(*old(self), t),
    {
        self.next_wake_time = t;
    }
}

/// Set the wake time of connection `ci` of `conns`, if there is one.
fn conns_set_wake_time(conns: &mut Vec<Connection>, ci: usize, t: u64)
    ensures
        ci < old(conns)@.len() ==> final(conns)@ == old(conns)@.update(ci as int, waking_at(old(conns)@[ci as int], t)),
        ci >= old(conns)@.len() ==> final(conns)@ == old(conns)@,
{
    if ci >= conns.len() {
        return;
    }
    let mut c = conns.remove(ci);
    c.set_next_wake_time(t);
    conns.insert(ci, c);
    proof {
        assert(conns@ =~= old(conns)@.update(ci as int, waking_at(old(conns)@[ci as int], t)));
    }
}

impl Quic {
    /// Build a QUIC context.  `max_nb_connections == 0` is raised to 1;
    /// the context is client-only when either certificate or key file is
    /// missing.  The random seeds are supplied by the caller.
    pub fn new(
        max_nb_connections: u32,
        cert_file_name: Option<&str>,
        key_file_name: Option<&str>,
        default_alpn: Option<&str>,
        has_cnx_id_callback: bool,
        reset_seed: [u8; 16],
        current_time: Instant,
        ticket_file_name: Option<&str>,
        retry_seed: Vec<u8>,
        hash_seed: [u8; 16],
        default_tp: TransportParameters,
    ) -> (r: Quic)
        ensures
            r.max_number_connections == (if max_nb_connections == 0 { 1 } else { max_nb_connections }),
            r.tentative_max_number_connections == r.max_number_connections,
            r.current_number_connections == 0,
            r.current_number_half_open == 0,
            !r.server_busy,
            r.connections@.len() == 0,
            r.enforce_client_only == (cert_file_name is None || key_file_name is None),
            r.unconditional_cnx_id == has_cnx_id_callback,
            r.default_alpn is Some <==> default_alpn is Some,
            default_alpn matches Some(a) ==> r.default_alpn.unwrap()@ == a@,
            r.ticket_file_name is Some <==> ticket_file_name is Some,
            ticket_file_name matches Some(t) ==> r.ticket_file_name.unwrap()@ == t@,
            r.reset_seed == reset_seed,
            r.retry_seed == retry_seed,
            r.hash_seed == hash_seed,
            r.default_tp == default_tp,
            r.local_connection_id_length == 8,
            r.default_stream_priority == DEFAULT_STREAM_PRIORITY,
            r.default_datagram_priority == DEFAULT_STREAM_PRIORITY,
            r.local_connection_id_ttl == u64::MAX,
            r.padding_minsize_default == RESET_PACKET_MIN_SIZE,
            r.padding_multiple_default == 0,
            r.sequence_hole_pseudo_period == DEFAULT_HOLE_PERIOD,
            r.max_simultaneous_logs == DEFAULT_SIMULTANEOUS_LOGS,
            r.max_half_open_before_retry == DEFAULT_HALF_OPEN_RETRY_THRESHOLD,
            r.stateless_reset_next_time == current_time,
            r.stateless_reset_min_interval == MICROSEC_STATELESS_RESET_INTERVAL_DEFAULT,
            r.cwin_max == u64::MAX,
            r.random_initial == 1,
            r.default_congestion_alg == Some(crate::cc::spec_cc_table()[0]),
            r.default_pmtud_policy == PmtudPolicy::Basic,
            r.default_spin_policy == SpinbitVersion::Basic,
            r.default_lossbit_policy == LossbitVersion::Disabled,
            r.connection_by_net@.len() == 0 && r.connection_by_icid@.len() == 0,
            r.connection_by_secret@.len() == 0 && r.connection_by_id@.len() == 0,
            r.connection_in_progress is None,
            r.pending_stateless_packets@.len() == 0,
    {
        let max: u32 = if max_nb_connections == 0 { 1 } else { max_nb_connections };
        let enforce_client_only = cert_file_name.is_none() || key_file_name.is_none();
        Quic {
            default_alpn: match default_alpn {
                Some(a) => Some(a.to_owned()),
                None => None,
            },
            reset_seed,
            retry_seed,
            hash_seed,
            ticket_file_name: match ticket_file_name {
                Some(t) => Some(t.to_owned()),
                None => None,
            },
            local_connection_id_length: 8,
            default_stream_priority: DEFAULT_STREAM_PRIORITY,
            default_datagram_priority: DEFAULT_STREAM_PRIORITY,
            local_connection_id_ttl: u64::MAX,
            mtu_max: 0,
            padding_multiple_default: 0,
            padding_minsize_default: RESET_PACKET_MIN_SIZE as u32,
            sequence_hole_pseudo_period: DEFAULT_HOLE_PERIOD,
            default_pmtud_policy: PmtudPolicy::Basic,
            default_spin_policy: SpinbitVersion::Basic,
            default_lossbit_policy: LossbitVersion::Disabled,
            default_multipath_option: 0,
            default_handshake_timeout: 0,
            crypto_epoch_length_max: 0,
            max_simultaneous_logs: DEFAULT_SIMULTANEOUS_LOGS,
            max_half_open_before_retry: DEFAULT_HALF_OPEN_RETRY_THRESHOLD,
            current_number_connections: 0,
            current_number_half_open: 0,
            server_busy: false,
            tentative_max_number_connections: max,
            max_number_connections: max,
            stateless_reset_next_time: current_time,
            stateless_reset_min_interval: MICROSEC_STATELESS_RESET_INTERVAL_DEFAULT,
            cwin_max: u64::MAX,
            check_token: false,
            force_check_token: false,
            provide_token: false,
            unconditional_cnx_id: has_cnx_id_callback,
            use_long_log: false,
            enable_sslkeylog: false,
            use_unique_log_names: false,
            random_initial: 1,
            packet_train_mode: false,
            use_low_memory: false,
            is_preemptive_repeat_enabled: false,
            default_send_receive_bdp_frame: false,
            enforce_client_only,
            is_port_blocking_disabled: false,
            are_path_callbacks_enabled: false,
            client_authentication: false,
            use_exporter: false,
            default_congestion_alg: Some(crate::cc::newreno_algorithm()),
            default_congestion_alg_option_string: None,
            connections: Vec::new(),
            default_tp,
            max_data_limit: 0,
            rtt_update_delta: 0,
            pacing_rate_update_delta: 0,
            nb_data_nodes_allocated: 0,
            qlog_dir: None,
            connection_by_net: Vec::new(),
            connection_by_icid: Vec::new(),
            connection_by_secret: Vec::new(),
            connection_by_id: Vec::new(),
            connection_in_progress: None,
            pending_stateless_packets: Vec::new(),
        }
    }
}

/// `c` with its long-log flag set to `v`.
#[verifier::opaque]
pub open spec fn with_long_log(c: Connection, v: bool) -> Connection {
    Connection { use_long_log: v, ..c }
}

/// Set the long-log flag of every connection.
fn set_long_log_all(conns: &mut Vec<Connection>, v: bool)
    ensures
        final(conns)@.len() == old(conns)@.len(),
        forall|i: int| 0 <= i < old(conns)@.len() ==> #[trigger] final(conns)@[i] == with_long_log(old(conns)@[i], v),
{
    let n = conns.len();
    let mut k: usize = 0;
    while k < n
        invariant
            n == old(conns)@.len(),
            conns@.len() == n,
            k <= n,
            forall|i: int| 0 <= i < k ==> #[trigger] conns@[i] == with_long_log(old(conns)@[i], v),
            forall|i: int| k <= i < n ==> #[trigger] conns@[i] == old(conns)@[i],
        decreases n - k,
    {
        let mut c = conns.remove(k);
        c.use_long_log = v;
        proof {
            reveal(with_long_log);
        }
        conns.insert(k, c);
        k = k + 1;
    }
}

impl Quic {
    /// Toggle randomised log-file names.
    pub fn set_use_unique_log_names(&mut self, use_unique_log_names: bool)
        ensures
            *final(self) == (Quic { use_unique_log_names: use_unique_log_names, ..*old(self) }),
    {
        self.use_unique_log_names = use_unique_log_names;
    }

    /// Toggle SSL-keylog output.
    pub fn set_sslkeylog_enabled(&mut self, enable_sslkeylog: bool)
        ensures
            *final(self) == (Quic { enable_sslkeylog: enable_sslkeylog, ..*old(self) }),
    {
        self.enable_sslkeylog = enable_sslkeylog;
    }

    /// Configure packet-number randomisation: 0 none, 1 Initial only, 2 all spaces (low byte kept).
    pub fn set_random_initial(&mut self, random_initial: i32)
        ensures
            *final(self) == (Quic { random_initial: random_initial as u8, ..*old(self) }),
    {
        self.random_initial = random_initial as u8;
    }

    /// Toggle packet-train mode.
    pub fn set_packet_train_mode(&mut self, train_mode: bool)
        ensures
            *final(self) == (Quic { packet_train_mode: train_mode, ..*old(self) }),
    {
        self.packet_train_mode = train_mode;
    }

    /// Set the half-open threshold above which the server switches to retry mode.
    pub fn set_max_half_open_retry_threshold(&mut self, max_half_open_before_retry: u32)
        ensures
            *final(self) == (Quic { max_half_open_before_retry: max_half_open_before_retry, ..*old(self) }),
    {
        self.max_half_open_before_retry = max_half_open_before_retry;
    }

    /// Toggle per-context port blocking.
    pub fn set_port_blocking_disabled(&mut self, is_port_blocking_disabled: bool)
        ensures
            *final(self) == (Quic { is_port_blocking_disabled: is_port_blocking_disabled, ..*old(self) }),
    {
        self.is_port_blocking_disabled = is_port_blocking_disabled;
    }

    /// Toggle client-side TLS authentication demands.
    pub fn set_client_authentication(&mut self, client_authentication: bool)
        ensures
            *final(self) == (Quic { client_authentication: client_authentication, ..*old(self) }),
    {
        self.client_authentication = client_authentication;
    }

    /// Toggle availability of the TLS exporter API.
    pub fn set_use_exporter(&mut self, use_exporter: bool)
        ensures
            *final(self) == (Quic { use_exporter: use_exporter, ..*old(self) }),
    {
        self.use_exporter = use_exporter;
    }

    /// Reject server-mode connections on this context.
    pub fn enforce_client_only(&mut self, do_enforce: bool)
        ensures
            *final(self) == (Quic { enforce_client_only: do_enforce, ..*old(self) }),
    {
        self.enforce_client_only = do_enforce;
    }

    /// Default loss-bit policy for new connections.
    pub fn set_default_lossbit_policy(&mut self, default_lossbit_policy: LossbitVersion)
        ensures
            *final(self) == (Quic { default_lossbit_policy: default_lossbit_policy, ..*old(self) }),
    {
        self.default_lossbit_policy = default_lossbit_policy;
    }

    /// Default multipath option for new connections.
    pub fn set_default_multipath_option(&mut self, multipath_option: i32)
        ensures
            *final(self) == (Quic { default_multipath_option: multipath_option as u32, ..*old(self) }),
    {
        self.default_multipath_option = multipath_option as u32;
    }

    /// Enable or disable multipath event callbacks by default.
    pub fn enable_path_callbacks_default(&mut self, enabled: bool)
        ensures
            *final(self) == (Quic { are_path_callbacks_enabled: enabled, ..*old(self) }),
    {
        self.are_path_callbacks_enabled = enabled;
    }

    /// Default callback enablement for path-state events.
    pub fn set_path_callbacks_default(&mut self, are_enabled: bool)
        ensures
            *final(self) == (Quic { are_path_callbacks_enabled: are_enabled, ..*old(self) }),
    {
        self.are_path_callbacks_enabled = are_enabled;
    }

    /// Cap the maximum data control window of this context.
    pub fn set_max_data_control(&mut self, max_data: u64)
        ensures
            *final(self) == (Quic { max_data_limit: max_data, ..*old(self) }),
    {
        self.max_data_limit = max_data;
    }

    /// Default per-connection handshake timeout (microseconds).
    pub fn set_default_handshake_timeout(&mut self, handshake_timeout: Duration)
        ensures
            *final(self) == (Quic { default_handshake_timeout: handshake_timeout, ..*old(self) }),
    {
        self.default_handshake_timeout = handshake_timeout;
    }

    /// Default per-connection crypto-epoch length.
    pub fn set_default_crypto_epoch_length(&mut self, crypto_epoch_length_max: u64)
        ensures
            *final(self) == (Quic { crypto_epoch_length_max: crypto_epoch_length_max, ..*old(self) }),
    {
        self.crypto_epoch_length_max = crypto_epoch_length_max;
    }

    /// Toggle the BDP-frame extension on new connections.
    pub fn set_default_bdp_frame_option(&mut self, enable_bdp_frame: bool)
        ensures
            *final(self) == (Quic { default_send_receive_bdp_frame: enable_bdp_frame, ..*old(self) }),
    {
        self.default_send_receive_bdp_frame = enable_bdp_frame;
    }

    /// Default connection-ID time-to-live, in microseconds.
    pub fn set_default_connection_id_ttl(&mut self, ttl_usec: u64)
        ensures
            *final(self) == (Quic { local_connection_id_ttl: ttl_usec, ..*old(self) }),
    {
        self.local_connection_id_ttl = ttl_usec;
    }

    /// Cap the MTU that PMTUD probes up to.
    pub fn set_mtu_max(&mut self, mtu_max: u32)
        ensures
            *final(self) == (Quic { mtu_max: mtu_max, ..*old(self) }),
    {
        self.mtu_max = mtu_max;
    }

    /// Default minimum interval between stateless resets.
    pub fn set_default_stateless_reset_min_interval(&mut self, min_interval: Duration)
        ensures
            *final(self) == (Quic { stateless_reset_min_interval: min_interval, ..*old(self) }),
    {
        self.stateless_reset_min_interval = min_interval;
    }

    /// Cap the number of connections that log at the same time.
    pub fn set_max_simultaneous_logs(&mut self, max_simultaneous_logs: u32)
        ensures
            *final(self) == (Quic { max_simultaneous_logs: max_simultaneous_logs, ..*old(self) }),
    {
        self.max_simultaneous_logs = max_simultaneous_logs;
    }

    /// Default PMTUD policy for new connections.
    pub fn set_default_pmtud_policy(&mut self, pmtud_policy: PmtudPolicy)
        ensures
            *final(self) == (Quic { default_pmtud_policy: pmtud_policy, ..*old(self) }),
    {
        self.default_pmtud_policy = pmtud_policy;
    }

    /// Default priority of new streams.
    pub fn set_default_priority(&mut self, default_stream_priority: u8)
        ensures
            *final(self) == (Quic { default_stream_priority: default_stream_priority, ..*old(self) }),
    {
        self.default_stream_priority = default_stream_priority;
    }

    /// Default datagram priority of new connections.
    pub fn set_default_datagram_priority(&mut self, default_datagram_priority: u8)
        ensures
            *final(self) == (Quic { default_datagram_priority: default_datagram_priority, ..*old(self) }),
    {
        self.default_datagram_priority = default_datagram_priority;
    }

    /// Period, in packets, of the acknowledgement holes used against optimistic peers.
    pub fn set_optimistic_ack_policy(&mut self, sequence_hole_pseudo_period: u32)
        ensures
            *final(self) == (Quic { sequence_hole_pseudo_period: sequence_hole_pseudo_period, ..*old(self) }),
    {
        self.sequence_hole_pseudo_period = sequence_hole_pseudo_period;
    }

    /// Toggle preemptive repeat for the context.
    pub fn set_preemptive_repeat_policy(&mut self, do_repeat: bool)
        ensures
            *final(self) == (Quic { is_preemptive_repeat_enabled: do_repeat, ..*old(self) }),
    {
        self.is_preemptive_repeat_enabled = do_repeat;
    }

    /// Whether SSL-keylog output is enabled.
    pub fn is_sslkeylog_enabled(&self) -> (r: bool)
        ensures
            r == self.enable_sslkeylog,
    {
        self.enable_sslkeylog
    }

    /// Number of connections registered with this context.
    pub fn current_number_connections(&self) -> (r: u32)
        ensures
            r == self.current_number_connections,
    {
        self.current_number_connections
    }

    /// Configured half-open retry threshold.
    pub fn max_half_open_retry_threshold(&self) -> (r: u32)
        ensures
            r == self.max_half_open_before_retry,
    {
        self.max_half_open_before_retry
    }

    /// Maximum number of simultaneous connections configured at creation.
    pub fn max_nb_connections(&self) -> (r: u32)
        ensures
            r == self.max_number_connections,
    {
        self.max_number_connections
    }

    /// Per-context maximum data limit used for flow control.
    pub fn max_data_limit(&self) -> (r: u64)
        ensures
            r == self.max_data_limit,
    {
        self.max_data_limit
    }

    /// Current congestion-window cap.
    pub fn cwin_max(&self) -> (r: u64)
        ensures
            r == self.cwin_max,
    {
        self.cwin_max
    }

    /// Configured default crypto-epoch length.
    pub fn default_crypto_epoch_length(&self) -> (r: u64)
        ensures
            r == self.crypto_epoch_length_max,
    {
        self.crypto_epoch_length_max
    }

    /// Local connection-ID length in bytes.
    pub fn local_cid_length(&self) -> (r: u8)
        ensures
            r == self.local_connection_id_length,
    {
        self.local_connection_id_length
    }

    /// Configured default connection-ID time-to-live.
    pub fn default_connection_id_ttl(&self) -> (r: u64)
        ensures
            r == self.local_connection_id_ttl,
    {
        self.local_connection_id_ttl
    }

    /// Configured maximum of simultaneously logging connections.
    pub fn max_simultaneous_logs(&self) -> (r: u32)
        ensures
            r == self.max_simultaneous_logs,
    {
        self.max_simultaneous_logs
    }

    /// Number of data nodes currently allocated.
    pub fn nb_data_nodes_in_pool(&self) -> (r: i32)
        ensures
            r == self.nb_data_nodes_allocated,
    {
        self.nb_data_nodes_allocated
    }

    /// `log_level != 0` logs every packet; the setting is copied to every
    /// connection of the context.
    pub fn set_log_level(&mut self, log_level: i32)
        ensures
            final(self).connections@.len() == old(self).connections@.len(),
            forall|i: int| 0 <= i < old(self).connections@.len() ==> #[trigger] final(self).connections@[i]
                == with_long_log(old(self).connections@[i], log_level != 0),
            *final(self) == (Quic { use_long_log: log_level != 0, connections: final(self).connections, ..*old(self) }),
    {
        let v = log_level != 0;
        set_long_log_all(&mut self.connections, v);
        self.use_long_log = v;
    }

    /// Default padding policy applied to outbound packets.
    pub fn set_padding_policy(&mut self, padding_min_size: u32, padding_multiple: u32)
        ensures
            *final(self) == (Quic {
                padding_minsize_default: padding_min_size,
                padding_multiple_default: padding_multiple,
                ..*old(self)
            }),
    {
        self.padding_minsize_default = padding_min_size;
        self.padding_multiple_default = padding_multiple;
    }

    /// Default padding policy (multiple, min size).
    pub fn set_default_padding(&mut self, padding_multiple: u32, padding_minsize: u32)
        ensures
            *final(self) == (Quic {
                padding_minsize_default: padding_minsize,
                padding_multiple_default: padding_multiple,
                ..*old(self)
            }),
    {
        self.padding_multiple_default = padding_multiple;
        self.padding_minsize_default = padding_minsize;
    }

    /// Adjust the connection-pool ceiling; it cannot grow past the limit
    /// chosen at creation.
    pub fn adjust_max_connections(&mut self, max_nb_connections: u32) -> (r: Result<(), Error>)
        ensures
            max_nb_connections > old(self).max_number_connections ==> r == Err::<(), Error>(Error::InvalidArgument)
                && *final(self) == *old(self),
            max_nb_connections <= old(self).max_number_connections ==> r is Ok
                && *final(self) == (Quic { tentative_max_number_connections: max_nb_connections, ..*old(self) }),
    {
        if max_nb_connections > self.max_number_connections {
            return Err(Error::InvalidArgument);
        }
        self.tentative_max_number_connections = max_nb_connections;
        Ok(())
    }

    /// Toggle low-memory mode.
    pub fn set_low_memory_mode(&mut self, low_memory_mode: bool) -> (r: Result<(), Error>)
        ensures
            r is Ok,
            *final(self) == (Quic { use_low_memory: low_memory_mode, ..*old(self) }),
    {
        self.use_low_memory = low_memory_mode;
        Ok(())
    }

    /// Server cookie / retry-token mode: bit 0 check tokens, bit 1 force
    /// the check, bit 2 provide tokens.
    pub fn set_cookie_mode(&mut self, cookie_mode: i32)
        ensures
            *final(self) == (Quic {
                check_token: (cookie_mode & 1) != 0,
                force_check_token: (cookie_mode & 2) != 0,
                provide_token: (cookie_mode & 4) != 0,
                ..*old(self)
            }),
    {
        self.check_token = (cookie_mode & 1) != 0;
        self.force_check_token = (cookie_mode & 2) != 0;
        self.provide_token = (cookie_mode & 4) != 0;
    }

    /// Accept a cipher-suite restriction: 0 or one of the three supported
    /// suites; anything else is `InvalidArgument`.  Nothing is stored.
    pub fn set_cipher_suite(&mut self, cipher_suite_id: u16) -> (r: Result<(), Error>)
        ensures
            r is Ok <==> (cipher_suite_id == 0 || cipher_suite_id == AES_128_GCM_SHA256
                || cipher_suite_id == AES_256_GCM_SHA384 || cipher_suite_id == CHACHA20_POLY1305_SHA256),
            r is Err ==> r == Err::<(), Error>(Error::InvalidArgument),
            *final(self) == *old(self),
    {
        if cipher_suite_id == 0 || cipher_suite_id == AES_128_GCM_SHA256 || cipher_suite_id == AES_256_GCM_SHA384
            || cipher_suite_id == CHACHA20_POLY1305_SHA256 {
            Ok(())
        } else {
            Err(Error::InvalidArgument)
        }
    }

    /// Accept a key-exchange restriction: 0 or secp256r1; anything else is
    /// `InvalidArgument`.  Nothing is stored.
    pub fn set_key_exchange(&mut self, key_exchange_id: u16) -> (r: Result<(), Error>)
        ensures
            r is Ok <==> (key_exchange_id == 0 || key_exchange_id == GROUP_SECP256R1),
            r is Err ==> r == Err::<(), Error>(Error::InvalidArgument),
            *final(self) == *old(self),
    {
        if key_exchange_id == 0 || key_exchange_id == GROUP_SECP256R1 {
            Ok(())
        } else {
            Err(Error::InvalidArgument)
        }
    }

    /// Replace the default transport parameters of new connections.
    pub fn set_default_tp(&mut self, tp: &TransportParameters) -> (r: Result<(), Error>)
        ensures
            r is Ok,
            *final(self) == (Quic { default_tp: *tp, ..*old(self) }),
    {
        self.default_tp = *tp;
        Ok(())
    }

    /// Borrow the default transport parameters.
    pub fn default_tp(&self) -> (r: &TransportParameters)
        ensures
            *r == self.default_tp,
    {
        &self.default_tp
    }

    /// Default ALPN of accepted server connections, if set.
    pub fn default_alpn_string(&self) -> (r: Option<&str>)
        ensures
            r is Some <==> self.default_alpn is Some,
            r matches Some(a) ==> a@ == self.default_alpn.unwrap()@,
    {
        match &self.default_alpn {
            Some(a) => Some(a.as_str()),
            None => None,
        }
    }

    /// The stateless-reset seed of this context.
    pub fn reset_seed_bytes(&self) -> (r: &[u8])
        ensures
            r@ == self.reset_seed@,
    {
        self.reset_seed.as_slice()
    }

    /// Identifier of the default congestion-control algorithm, if set.
    pub fn default_congestion_algorithm_id(&self) -> (r: Option<&'static str>)
        ensures
            r is Some <==> self.default_congestion_alg is Some,
            r matches Some(a) ==> a == self.default_congestion_alg.unwrap().congestion_algorithm_id,
    {
        match self.default_congestion_alg {
            Some(a) => Some(a.congestion_algorithm_id),
            None => None,
        }
    }

    /// Override one default transport-parameter slot by wire id; unknown
    /// ids are `InvalidArgument`.
    pub fn set_default_tp_value(&mut self, tp_type: u64, tp_value: u64) -> (r: Result<(), Error>)
        ensures
            r is Ok <==> tp_type_known(tp_type),
            r is Err ==> r == Err::<(), Error>(Error::InvalidArgument),
            *final(self) == (Quic { default_tp: spec_tp_set(old(self).default_tp, tp_type, tp_value), ..*old(self) }),
    {
        set_tp_value_by_type(&mut self.default_tp, tp_type, tp_value)
    }

    /// Install a TLS certificate chain.  The TLS backend is not wired, so
    /// nothing changes.
    pub fn set_tls_certificate_chain(&mut self, certs: Vec<Vec<u8>>)
        ensures
            *final(self) == *old(self),
    {
    }

    /// Install TLS root certificates.  Not wired: succeeds, nothing changes.
    pub fn set_tls_root_certificates(&mut self, certs: Vec<Vec<u8>>) -> (r: Result<(), Error>)
        ensures
            r is Ok,
            *final(self) == *old(self),
    {
        Ok(())
    }

    /// Install a no-op certificate verifier.  Not wired: nothing changes.
    pub fn set_null_verifier(&mut self)
        ensures
            *final(self) == *old(self),
    {
    }

    /// Install the TLS private key.  Not wired: succeeds, nothing changes.
    pub fn set_tls_key(&mut self, key: &[u8]) -> (r: Result<(), Error>)
        ensures
            r is Ok,
            *final(self) == *old(self),
    {
        Ok(())
    }

    /// Load retry tokens from a store.  Not wired: succeeds, nothing changes.
    pub fn load_retry_tokens(&mut self, token_store_filename: &str) -> (r: Result<(), Error>)
        ensures
            r is Ok,
            *final(self) == *old(self),
    {
        Ok(())
    }

    /// Persist session tickets.  Not wired: succeeds, nothing changes.
    pub fn save_session_tickets(&mut self, ticket_store_filename: &str) -> (r: Result<(), Error>)
        ensures
            r is Ok,
            *final(self) == *old(self),
    {
        Ok(())
    }

    /// Persist retry tokens.  Not wired: succeeds, nothing changes.
    pub fn save_retry_tokens(&mut self, token_store_filename: &str) -> (r: Result<(), Error>)
        ensures
            r is Ok,
            *final(self) == *old(self),
    {
        Ok(())
    }

    /// Default spin-bit policy of new connections.  Every policy is
    /// accepted here, the test-only `On` among them: it is valid as this
    /// context-wide default, though not as a per-connection override.
    pub fn set_default_spinbit_policy(&mut self, default_spinbit_policy: SpinbitVersion) -> (r: Result<(), Error>)
        ensures
            r is Ok,
            *final(self) == (Quic { default_spin_policy: default_spinbit_policy, ..*old(self) }),
    {
        self.default_spin_policy = default_spinbit_policy;
        Ok(())
    }

    /// Default address-discovery mode: 1, 2 or 3 are kept, anything else
    /// becomes 0.
    pub fn set_default_address_discovery_mode(&mut self, mode: i32)
        ensures
            *final(self) == (Quic {
                default_tp: TransportParameters {
                    address_discovery_mode: if 0 < mode <= 3 { mode } else { 0 },
                    ..old(self).default_tp
                },
                ..*old(self)
            }),
    {
        if mode > 0 && mode <= 3 {
            self.default_tp.address_discovery_mode = mode;
        } else {
            self.default_tp.address_discovery_mode = 0;
        }
    }

    /// Default path-quality update thresholds for new connections.
    pub fn default_quality_update(&mut self, pacing_rate_delta: u64, rtt_delta: Duration)
        ensures
            *final(self) == (Quic { pacing_rate_update_delta: pacing_rate_delta, rtt_update_delta: rtt_delta, ..*old(self) }),
    {
        self.pacing_rate_update_delta = pacing_rate_delta;
        self.rtt_update_delta = rtt_delta;
    }

    /// Default path-quality update thresholds for new connections.
    pub fn set_default_quality_update(&mut self, pacing_rate_delta: u64, rtt_delta: Duration)
        ensures
            *final(self) == (Quic { pacing_rate_update_delta: pacing_rate_delta, rtt_update_delta: rtt_delta, ..*old(self) }),
    {
        self.pacing_rate_update_delta = pacing_rate_delta;
        self.rtt_update_delta = rtt_delta;
    }

    /// Cap the congestion window of all connections; 0 means no cap.
    pub fn set_cwin_max(&mut self, cwin_max: u64)
        ensures
            *final(self) == (Quic { cwin_max: if cwin_max == 0 { u64::MAX } else { cwin_max }, ..*old(self) }),
    {
        self.cwin_max = if cwin_max == 0 { u64::MAX } else { cwin_max };
    }

    /// Default idle timeout advertised on new connections.
    pub fn set_default_idle_timeout(&mut self, idle_timeout: Duration)
        ensures
            *final(self) == (Quic {
                default_tp: TransportParameters { max_idle_timeout: idle_timeout, ..old(self).default_tp },
                ..*old(self)
            }),
    {
        self.default_tp.max_idle_timeout = idle_timeout;
    }

    /// Local connection-ID length of new connections: at most 20 bytes, and
    /// only while no connection exists.
    pub fn set_default_connection_id_length(&mut self, cid_length: u8) -> (r: Result<(), Error>)
        ensures
            cid_length > CONNECTION_ID_MAX_SIZE ==> r == Err::<(), Error>(Error::Internal(InternalError::CnxidCheck))
                && *final(self) == *old(self),
            cid_length <= CONNECTION_ID_MAX_SIZE && old(self).current_number_connections > 0
                ==> r == Err::<(), Error>(Error::Internal(InternalError::CannotChangeActiveContext))
                && *final(self) == *old(self),
            cid_length <= CONNECTION_ID_MAX_SIZE && old(self).current_number_connections == 0 ==> r is Ok
                && *final(self) == (Quic { local_connection_id_length: cid_length, ..*old(self) }),
    {
        if cid_length as usize > CONNECTION_ID_MAX_SIZE {
            return Err(Error::Internal(InternalError::CnxidCheck));
        }
        if self.current_number_connections > 0 {
            return Err(Error::Internal(InternalError::CannotChangeActiveContext));
        }
        self.local_connection_id_length = cid_length;
        Ok(())
    }

    /// Set the default congestion-control algorithm of new connections.
    pub fn set_default_congestion_algorithm(&mut self, algo: CongestionAlgorithm)
        ensures
            *final(self) == (Quic {
                default_congestion_alg: Some(algo),
                default_congestion_alg_option_string: None,
                ..*old(self)
            }),
    {
        self.default_congestion_alg = Some(algo);
        self.default_congestion_alg_option_string = None;
    }

    /// Same as `set_default_congestion_algorithm` with an options string.
    pub fn set_default_congestion_algorithm_ex(&mut self, alg: CongestionAlgorithm, alg_option_string: Option<&str>)
        ensures
            *final(self) == (Quic {
                default_congestion_alg: Some(alg),
                default_congestion_alg_option_string: final(self).default_congestion_alg_option_string,
                ..*old(self)
            }),
            final(self).default_congestion_alg_option_string is Some <==> alg_option_string is Some,
            alg_option_string matches Some(o) ==> final(self).default_congestion_alg_option_string.unwrap()@ == o@,
    {
        self.default_congestion_alg = Some(alg);
        self.default_congestion_alg_option_string = match alg_option_string {
            Some(o) => Some(o.to_owned()),
            None => None,
        };
    }

    /// Select the default algorithm of new connections by name among the
    /// registered ones; `InvalidArgument`, and no change, when none has
    /// that name.
    pub fn set_default_congestion_algorithm_by_name(
        &mut self,
        alg_name: &str,
        registry: &CongestionAlgorithmRegistry,
    ) -> (r: Result<(), Error>)
        ensures
            ({
                let algs = spec_registered(registry@);
                let k = cc_index_from(algs, alg_name.spec_bytes(), 0);
                &&& k == -1 ==> r == Err::<(), Error>(Error::InvalidArgument) && *final(self) == *old(self)
                &&& k != -1 ==> r is Ok && *final(self) == (Quic {
                    default_congestion_alg: Some(algs[k]),
                    default_congestion_alg_option_string: None,
                    ..*old(self)
                })
            }),
    {
        match get_congestion_algorithm(registry, alg_name) {
            Some(alg) => {
                self.default_congestion_alg = Some(alg);
                self.default_congestion_alg_option_string = None;
                Ok(())
            },
            None => Err(Error::InvalidArgument),
        }
    }

    /// Configure server-side Encrypted ClientHello from key and config
    /// files.  The TLS backend is not wired, so this is a `Tls` error and
    /// nothing changes.
    pub fn ech_configure(&mut self, ech_private_key_file_name: Option<&str>, ech_config_file_name: Option<&str>) -> (r:
        Result<(), Error>)
        ensures
            r == Err::<(), Error>(Error::Tls),
            *final(self) == *old(self),
    {
        Err(Error::Tls)
    }

    /// Release the Encrypted ClientHello context; there is none to release.
    pub fn release_ech_ctx(&mut self)
        ensures
            *final(self) == *old(self),
    {
    }

    /// Enable qlog tracing into `qlog_dir`.
    pub fn set_qlog(&mut self, qlog_dir: &str) -> (r: Result<(), Error>)
        ensures
            r is Ok,
            final(self).qlog_dir is Some,
            final(self).qlog_dir.unwrap()@ == qlog_dir@,
            *final(self) == (Quic { qlog_dir: final(self).qlog_dir, ..*old(self) }),
    {
        self.qlog_dir = Some(qlog_dir.to_owned());
        Ok(())
    }

    /// Earliest wake time among the connections, if any.
    fn earliest_wake(&self) -> (r: Option<u64>)
        ensures
            r == min_wake(self.connections@),
    {
        let n = self.connections.len();
        let mut k: usize = n;
        let mut best: Option<u64> = None;
        while k > 0
            invariant
                n == self.connections@.len(),
                k <= n,
                best == min_wake_from(self.connections@, k as int),
            decreases k,
        {
            k = k - 1;
            let w = self.connections[k].next_wake_time;
            best = match best {
                None => Some(w),
                Some(m) => Some(if w <= m { w } else { m }),
            };
        }
        best
    }

    /// Microseconds until some connection next needs attention, capped at
    /// `delay_max`; `delay_max` when there is no connection.
    pub fn next_wake_delay(&self, current_time: Instant, delay_max: i64) -> (r: i64)
        ensures
            r == spec_next_wake_delay(self.connections@, current_time, delay_max),
    {
        match self.earliest_wake() {
            None => delay_max,
            Some(t) => {
                if t <= current_time {
                    0
                } else {
                    let d = (t - current_time) as i64;
                    if d < delay_max { d } else { delay_max }
                }
            },
        }
    }

    /// Time of the next scheduled event: the earliest connection wake time,
    /// or `current_time` when there is no connection.
    pub fn next_wake_time(&self, current_time: Instant) -> (r: u64)
        ensures
            r == (match min_wake(self.connections@) {
                Some(t) => t,
                None => current_time,
            }),
    {
        match self.earliest_wake() {
            Some(t) => t,
            None => current_time,
        }
    }

    /// Reschedule connection `connection` to wake up at `next_time`; an
    /// index past the table changes nothing.
    pub fn reinsert_by_wake_time(&mut self, connection: usize, next_time: Instant)
        ensures
            connection < old(self).connections@.len() ==> final(self).connections@ == old(self).connections@.update(
                connection as int,
                waking_at(old(self).connections@[connection as int], next_time),
            ),
            connection >= old(self).connections@.len() ==> final(self).connections@ == old(self).connections@,
            *final(self) == (Quic { connections: final(self).connections, ..*old(self) }),
    {
        conns_set_wake_time(&mut self.connections, connection, next_time);
    }

    /// Index of the first connection with the least wake time among those
    /// due at `wake_time`, or `None` when none is due.
    pub fn earliest_cnx_to_wake(&self, wake_time: Instant) -> (r: Option<usize>)
        ensures
            r matches Some(i) ==> is_earliest_to_wake(self.connections@, wake_time, i as int),
            r is None ==> forall|j: int| 0 <= j < self.connections@.len() ==> #[trigger] self.connections@[j].next_wake_time > wake_time,
    {
        let mut best: Option<usize> = None;
        let mut k: usize = 0;
        while k < self.connections.len()
            invariant
                k <= self.connections@.len(),
                best matches Some(b) ==> b < k && self.connections@[b as int].next_wake_time <= wake_time
                    && (forall|j: int| 0 <= j < k && self.connections@[j].next_wake_time <= wake_time
                        ==> self.connections@[b as int].next_wake_time <= #[trigger] self.connections@[j].next_wake_time)
                    && (forall|j: int| 0 <= j < b && self.connections@[j].next_wake_time <= wake_time
                        ==> self.connections@[b as int].next_wake_time < #[trigger] self.connections@[j].next_wake_time),
                best is None ==> forall|j: int| 0 <= j < k ==> #[trigger] self.connections@[j].next_wake_time > wake_time,
            decreases self.connections.len() - k,
        {
            let w = self.connections[k].next_wake_time;
            if w <= wake_time {
                match best {
                    None => {
                        best = Some(k);
                    },
                    Some(b) => {
                        if w < self.connections[b].next_wake_time {
                            best = Some(k);
                        }
                    },
                }
            }
            k = k + 1;
        }
        best
    }

    /// Add a new connection towards `peer_addr` to the context, set up with
    /// the context defaults; yields its index.
    pub fn create_connection(
        &mut self,
        initial_cnx_id: ConnectionId,
        remote_cnx_id: ConnectionId,
        peer_addr: crate::types::SocketAddr,
        start_time: Instant,
        client_mode: bool,
    ) -> (r: usize)
        ensures
            r == old(self).connections@.len(),
            final(self).connections@.len() == old(self).connections@.len() + 1,
            final(self).connections@.drop_last() == old(self).connections@,
            final(self).connections@[r as int].initial_connection_id == initial_cnx_id,
            final(self).connections@[r as int].original_connection_id == remote_cnx_id,
            final(self).connections@[r as int].client_mode == client_mode,
            final(self).connections@[r as int].start_time == start_time,
            final(self).connections@[r as int].local_parameters == old(self).default_tp,
            final(self).connections@[r as int].paths@.len() == 1,
            final(self).connections@[r as int].paths@[0].tuples@[0].peer_addr == peer_addr,
            final(self).connections@[r as int].spin_policy == old(self).default_spin_policy,
            final(self).connections@[r as int].pmtud_policy == old(self).default_pmtud_policy,
            final(self).connections@[r as int].use_long_log == old(self).use_long_log,
            final(self).connections@[r as int].crypto_epoch_length_max == old(self).crypto_epoch_length_max,
            final(self).connections@[r as int].padding_multiple == old(self).padding_multiple_default,
            final(self).connections@[r as int].padding_minsize == old(self).padding_minsize_default,
            final(self).connections@[r as int].datagram_priority == old(self).default_datagram_priority as u64,
            final(self).connections@[r as int].congestion_alg == old(self).default_congestion_alg,
            final(self).connections@[r as int].are_path_callbacks_enabled == old(self).are_path_callbacks_enabled,
            *final(self) == (Quic { connections: final(self).connections, ..*old(self) }),
    {
        let mut c = Connection::new(initial_cnx_id, remote_cnx_id, peer_addr, self.default_tp, start_time,
            client_mode, CWIN_INITIAL, crate::types::INITIAL_MTU_IPV4);
        c.spin_policy = self.default_spin_policy;
        c.pmtud_policy = self.default_pmtud_policy;
        c.use_long_log = self.use_long_log;
        c.crypto_epoch_length_max = self.crypto_epoch_length_max;
        c.padding_multiple = self.padding_multiple_default;
        c.padding_minsize = self.padding_minsize_default;
        c.datagram_priority = self.default_datagram_priority as u64;
        c.congestion_alg = self.default_congestion_alg;
        c.are_path_callbacks_enabled = self.are_path_callbacks_enabled;
        let r = self.connections.len();
        self.connections.push(c);
        proof {
            assert(final(self).connections@.drop_last() =~= old(self).connections@);
        }
        r
    }
}

} // verus!
