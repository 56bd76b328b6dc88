//! Per-path state of a connection: addresses, congestion window, RTT
//! statistics and quality-report snapshots.

use vstd::prelude::*;
use crate::types::{Duration, Instant, SocketAddr};

verus! {

/// One address pair (tuple) on a path.
#[derive(Debug, Copy, Clone, PartialEq, Eq, Structural)]
pub struct Tuple {
    pub peer_addr: SocketAddr,
    pub local_addr: SocketAddr,
    pub observed_addr: SocketAddr,
    pub if_index: u64,
    /// Index of the local connection ID in the connection's list.
    pub local_connection_id: Option<usize>,
    /// Index of the remote connection ID in the path's stash.
    pub remote_connection_id_index: Option<usize>,
    pub challenge_required: bool,
}

impl Tuple {
    /// A tuple between `local_addr` and `peer_addr` on interface `if_index`.
    pub fn new(peer_addr: SocketAddr, local_addr: SocketAddr, if_index: u64) -> (r: Tuple)
        ensures
            r == (Tuple {
                peer_addr,
                local_addr,
                observed_addr: crate::types::spec_unspecified_addr(),
                if_index,
                local_connection_id: None,
                remote_connection_id_index: None,
                challenge_required: false,
            }),
    {
        Tuple {
            peer_addr,
            local_addr,
            observed_addr: SocketAddr::unspecified(),
            if_index,
            local_connection_id: None,
            remote_connection_id_index: None,
            challenge_required: false,
        }
    }
}

/// Per packet-number-space counters.
#[derive(Debug, Copy, Clone, PartialEq, Eq, Structural)]
pub struct PacketContextState {
    pub send_sequence: u64,
    pub ecn_ect1_total_remote: u64,
    pub ecn_ce_total_remote: u64,
    pub highest_acknowledged: u64,
}

/// Per-path quality snapshot.
#[derive(Debug, Copy, Clone, PartialEq, Eq, Structural)]
pub struct PathQuality {
    /// Receive rate estimate in bytes per second.
    pub receive_rate_estimate: u64,
    /// Pacing rate in bytes per second.
    pub pacing_rate: u64,
    /// Number of bytes in the congestion window.
    pub cwin: u64,
    /// Smoothed RTT estimate in microseconds.
    pub rtt: Duration,
    /// Most recent RTT sample.
    pub rtt_sample: Duration,
    /// Estimated RTT variability.
    pub rtt_variant: Duration,
    /// Minimum observed RTT since path creation.
    pub rtt_min: Duration,
    /// Maximum observed RTT since path creation.
    pub rtt_max: Duration,
    pub sent: u64,
    pub lost: u64,
    pub timer_losses: u64,
    pub spurious_losses: u64,
    pub max_spurious_rtt: Duration,
    pub max_reorder_delay: Duration,
    pub max_reorder_gap: u64,
    pub bytes_in_transit: u64,
    pub bytes_sent: u64,
    pub bytes_received: u64,
}

/// The all-zero quality snapshot.
pub open spec fn spec_quality_zero() -> PathQuality {
    PathQuality {
        receive_rate_estimate: 0,
        pacing_rate: 0,
        cwin: 0,
        rtt: 0,
        rtt_sample: 0,
        rtt_variant: 0,
        rtt_min: 0,
        rtt_max: 0,
        sent: 0,
        lost: 0,
        timer_losses: 0,
        spurious_losses: 0,
        max_spurious_rtt: 0,
        max_reorder_delay: 0,
        max_reorder_gap: 0,
        bytes_in_transit: 0,
        bytes_sent: 0,
        bytes_received: 0,
    }
}

impl Default for PathQuality {
    fn default() -> (r: PathQuality)
        ensures
            r == spec_quality_zero(),
    {
        PathQuality {
            receive_rate_estimate: 0,
            pacing_rate: 0,
            cwin: 0,
            rtt: 0,
            rtt_sample: 0,
            rtt_variant: 0,
            rtt_min: 0,
            rtt_max: 0,
            sent: 0,
            lost: 0,
            timer_losses: 0,
            spurious_losses: 0,
            max_spurious_rtt: 0,
            max_reorder_delay: 0,
            max_reorder_gap: 0,
            bytes_in_transit: 0,
            bytes_sent: 0,
            bytes_received: 0,
        }
    }
}

/// State of one network path of a connection.
#[derive(Debug)]
pub struct Path {
    pub unique_path_id: u64,
    pub tuples: Vec<Tuple>,
    pub cwin: u64,
    pub bytes_in_transit: u64,
    pub smoothed_rtt: Duration,
    pub rtt_sample: Duration,
    pub rtt_variant: Duration,
    pub rtt_min: Duration,
    pub rtt_max: Duration,
    pub receive_rate_estimate: u64,
    pub pacing_rate: u64,
    pub pacing_rate_max: u64,
    pub pacing_quantum_max: u64,
    pub pacing_packet_time_microsec: u64,
    pub nb_losses_found: u64,
    pub nb_timer_losses: u64,
    pub nb_spurious: u64,
    pub max_spurious_rtt: Duration,
    pub max_reorder_delay: Duration,
    pub max_reorder_gap: u64,
    pub bytes_sent: u64,
    pub received: u64,
    /// Bytes received when the running receive-rate sample started.
    pub received_prior: u64,
    /// When the running receive-rate sample started (0: none runs).
    pub receive_rate_epoch: Instant,
    /// Highest receive rate measured.
    pub receive_rate_max: u64,
    pub delivered: u64,
    pub bandwidth_estimate_max: u64,
    pub send_mtu: usize,
    pub current_spin: bool,
    pub path_is_backup: bool,
    pub path_is_demoted: bool,
    pub is_datagram_ready: bool,
    pub pacing_rate_update_delta: u64,
    pub rtt_update_delta: Duration,
    pub is_cc_data_updated: bool,
    pub is_ssthresh_initialized: bool,
    pub last_time_acked_data_frame_sent: Instant,
    pub last_sender_limited_time: Instant,
    pub pkt_ctx: PacketContextState,
    /// Peer address under which the path is registered in the context.
    pub registered_peer_addr: SocketAddr,
    /// Whether the path holds an entry of the context's address table.
    pub is_registered_by_net: bool,
}

/// `p` is a fresh path carrying one tuple and an initial congestion window.
pub open spec fn is_new_path(p: Path, unique_path_id: u64, tuple: Tuple, cwin: u64, send_mtu: usize) -> bool {
    &&& p.tuples@ == seq![tuple]
    &&& p == Path {
        unique_path_id,
        tuples: p.tuples,
        cwin,
        bytes_in_transit: 0,
        smoothed_rtt: 0,
        rtt_sample: 0,
        rtt_variant: 0,
        rtt_min: 0,
        rtt_max: 0,
        receive_rate_estimate: 0,
        pacing_rate: 0,
        pacing_rate_max: 0,
        pacing_quantum_max: 0,
        pacing_packet_time_microsec: 0,
        nb_losses_found: 0,
        nb_timer_losses: 0,
        nb_spurious: 0,
        max_spurious_rtt: 0,
        max_reorder_delay: 0,
        max_reorder_gap: 0,
        bytes_sent: 0,
        received: 0,
        received_prior: 0,
        receive_rate_epoch: 0,
        receive_rate_max: 0,
        delivered: 0,
        bandwidth_estimate_max: 0,
        send_mtu,
        current_spin: false,
        path_is_backup: false,
        path_is_demoted: false,
        is_datagram_ready: false,
        pacing_rate_update_delta: 0,
        rtt_update_delta: 0,
        is_cc_data_updated: false,
        is_ssthresh_initialized: false,
        last_time_acked_data_frame_sent: 0,
        last_sender_limited_time: 0,
        pkt_ctx: PacketContextState { send_sequence: 0, ecn_ect1_total_remote: 0, ecn_ce_total_remote: 0, highest_acknowledged: 0 },
        registered_peer_addr: crate::types::spec_unspecified_addr(),
        is_registered_by_net: false,
    }
}

/// The quality snapshot a path reports, with `sent` packets counted in
/// the application packet-number space.
pub open spec fn spec_path_quality(p: Path, sent: u64) -> PathQuality {
    PathQuality {
        receive_rate_estimate: p.receive_rate_estimate,
        pacing_rate: p.pacing_rate,
        cwin: p.cwin,
        rtt: p.smoothed_rtt,
        rtt_sample: p.rtt_sample,
        rtt_variant: p.rtt_variant,
        rtt_min: p.rtt_min,
        rtt_max: p.rtt_max,
        sent,
        lost: p.nb_losses_found,
        timer_losses: p.nb_timer_losses,
        spurious_losses: p.nb_spurious,
        max_spurious_rtt: p.max_spurious_rtt,
        max_reorder_delay: p.max_reorder_delay,
        max_reorder_gap: p.max_reorder_gap,
        bytes_in_transit: p.bytes_in_transit,
        bytes_sent: p.bytes_sent,
        bytes_received: p.received,
    }
}

impl Path {
    /// A fresh path carrying one tuple and an initial congestion window.
    pub fn new(unique_path_id: u64, tuple: Tuple, cwin: u64, send_mtu: usize) -> (r: Path)
        ensures
            is_new_path(r, unique_path_id, tuple, cwin, send_mtu),
    {
        let mut tuples: Vec<Tuple> = Vec::new();
        tuples.push(tuple);
        assert(tuples@ =~= seq![tuple]);
        Path {
            unique_path_id,
            tuples,
            cwin,
            bytes_in_transit: 0,
            smoothed_rtt: 0,
            rtt_sample: 0,
            rtt_variant: 0,
            rtt_min: 0,
            rtt_max: 0,
            receive_rate_estimate: 0,
            pacing_rate: 0,
            pacing_rate_max: 0,
            pacing_quantum_max: 0,
            pacing_packet_time_microsec: 0,
            nb_losses_found: 0,
            nb_timer_losses: 0,
            nb_spurious: 0,
            max_spurious_rtt: 0,
            max_reorder_delay: 0,
            max_reorder_gap: 0,
            bytes_sent: 0,
            received: 0,
            received_prior: 0,
            receive_rate_epoch: 0,
            receive_rate_max: 0,
            delivered: 0,
            bandwidth_estimate_max: 0,
            send_mtu,
            current_spin: false,
            path_is_backup: false,
            path_is_demoted: false,
            is_datagram_ready: false,
            pacing_rate_update_delta: 0,
            rtt_update_delta: 0,
            is_cc_data_updated: false,
            is_ssthresh_initialized: false,
            last_time_acked_data_frame_sent: 0,
            last_sender_limited_time: 0,
            pkt_ctx: PacketContextState { send_sequence: 0, ecn_ect1_total_remote: 0, ecn_ce_total_remote: 0, highest_acknowledged: 0 },
            registered_peer_addr: SocketAddr::unspecified(),
            is_registered_by_net: false,
        }
    }

    /// Record the thresholds at which quality-update events fire.
    pub fn subscribe_to_quality_update_per_path_context(&mut self, pacing_rate_delta: u64, rtt_delta: Duration)
        ensures
            *final(self) == (Path { pacing_rate_update_delta: pacing_rate_delta, rtt_update_delta: rtt_delta, ..*old(self) }),
    {
        self.pacing_rate_update_delta = pacing_rate_delta;
        self.rtt_update_delta = rtt_delta;
    }

    /// Record the peer address under which the path is registered in the
    /// context's address table, and whether it holds an entry there.
    pub fn set_net_registration(&mut self, addr: SocketAddr, registered: bool)
        ensures
            *final(self) == (Path { registered_peer_addr: addr, is_registered_by_net: registered, ..*old(self) }),
    {
        self.registered_peer_addr = addr;
        self.is_registered_by_net = registered;
    }

    /// Remove the tuple at `index`; out-of-range indices leave the path unchanged.
    pub fn unchain_tuple(&mut self, index: usize)
        ensures
            index < old(self).tuples@.len() ==> *final(self) == (Path { tuples: final(self).tuples, ..*old(self) })
                && final(self).tuples@ == old(self).tuples@.remove(index as int),
            index >= old(self).tuples@.len() ==> *final(self) == *old(self),
    {
        if index < self.tuples.len() {
            self.tuples.remove(index);
        }
    }
}

/// Quality snapshot of a path.
pub fn get_path_quality_from_context(path_x: &Path, sent: u64) -> (r: PathQuality)
    ensures
        r == spec_path_quality(*path_x, sent),
{
    PathQuality {
        receive_rate_estimate: path_x.receive_rate_estimate,
        pacing_rate: path_x.pacing_rate,
        cwin: path_x.cwin,
        rtt: path_x.smoothed_rtt,
        rtt_sample: path_x.rtt_sample,
        rtt_variant: path_x.rtt_variant,
        rtt_min: path_x.rtt_min,
        rtt_max: path_x.rtt_max,
        sent,
        lost: path_x.nb_losses_found,
        timer_losses: path_x.nb_timer_losses,
        spurious_losses: path_x.nb_spurious,
        max_spurious_rtt: path_x.max_spurious_rtt,
        max_reorder_delay: path_x.max_reorder_delay,
        max_reorder_gap: path_x.max_reorder_gap,
        bytes_in_transit: path_x.bytes_in_transit,
        bytes_sent: path_x.bytes_sent,
        bytes_received: path_x.received,
    }
}


/// A path's quality snapshot reports each of the path's measures under its
/// own name: `rtt` is the smoothed RTT, `rtt_min` and `rtt_max` the extreme
/// samples, `cwin` the congestion window, the loss counters the path's
/// loss counters, and `sent` the packets counted for it.
pub proof fn law_quality_reports_path_fields(p: Path, sent: u64)
    ensures
        ({
            let q = spec_path_quality(p, sent);
            &&& q.rtt == p.smoothed_rtt
            &&& q.rtt_min == p.rtt_min
            &&& q.rtt_max == p.rtt_max
            &&& q.rtt_sample == p.rtt_sample
            &&& q.rtt_variant == p.rtt_variant
            &&& q.cwin == p.cwin
            &&& q.pacing_rate == p.pacing_rate
            &&& q.receive_rate_estimate == p.receive_rate_estimate
            &&& q.sent == sent
            &&& q.lost == p.nb_losses_found
            &&& q.timer_losses == p.nb_timer_losses
            &&& q.spurious_losses == p.nb_spurious
            &&& q.max_spurious_rtt == p.max_spurious_rtt
            &&& q.max_reorder_delay == p.max_reorder_delay
            &&& q.max_reorder_gap == p.max_reorder_gap
            &&& q.bytes_in_transit == p.bytes_in_transit
            &&& q.bytes_sent == p.bytes_sent
            &&& q.bytes_received == p.received
        }),
{
}

} // verus!
