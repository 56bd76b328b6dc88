//! The performance log: the per-connection metric vector written as one
//! CSV row when a connection closes, and the names of its columns.

use vstd::prelude::*;
use crate::connection::Connection;
use crate::path::{law_quality_reports_path_fields, spec_path_quality};

verus! {

/// Schema version at the start of every row.
pub const PER_LOG_VERSION: u32 = 1;

/// Number of metric columns.
pub const PERF_LOG_MAX_ITEMS: usize = 27;

/// The metric columns, in row order.
#[derive(Debug, Copy, Clone, PartialEq, Eq, Structural)]
pub enum PerflogColumn {
    IsClient,
    NbPacketsReceived,
    NbTrainsSent,
    NbTrainsShort,
    NbTrainsBlockedCwin,
    NbTrainsBlockedPacing,
    NbTrainsBlockedOthers,
    NbPacketsSent,
    NbRetransmissionTotal,
    NbSpurious,
    DelayedAckOption,
    MinAckDelayRemote,
    MaxAckDelayRemote,
    MaxAckGapRemote,
    MinAckDelayLocal,
    MaxAckDelayLocal,
    MaxAckGapLocal,
    MaxMtuSent,
    MaxMtuReceived,
    ZeroRtt,
    Srtt,
    Minrtt,
    Cwin,
    Ccalgo,
    BweMax,
    PacingQuantumMax,
    PacingRate,
}

/// Position of a column in the row.
pub open spec fn column_index(c: PerflogColumn) -> int {
    match c {
        PerflogColumn::IsClient => 0,
        PerflogColumn::NbPacketsReceived => 1,
        PerflogColumn::NbTrainsSent => 2,
        PerflogColumn::NbTrainsShort => 3,
        PerflogColumn::NbTrainsBlockedCwin => 4,
        PerflogColumn::NbTrainsBlockedPacing => 5,
        PerflogColumn::NbTrainsBlockedOthers => 6,
        PerflogColumn::NbPacketsSent => 7,
        PerflogColumn::NbRetransmissionTotal => 8,
        PerflogColumn::NbSpurious => 9,
        PerflogColumn::DelayedAckOption => 10,
        PerflogColumn::MinAckDelayRemote => 11,
        PerflogColumn::MaxAckDelayRemote => 12,
        PerflogColumn::MaxAckGapRemote => 13,
        PerflogColumn::MinAckDelayLocal => 14,
        PerflogColumn::MaxAckDelayLocal => 15,
        PerflogColumn::MaxAckGapLocal => 16,
        PerflogColumn::MaxMtuSent => 17,
        PerflogColumn::MaxMtuReceived => 18,
        PerflogColumn::ZeroRtt => 19,
        PerflogColumn::Srtt => 20,
        PerflogColumn::Minrtt => 21,
        PerflogColumn::Cwin => 22,
        PerflogColumn::Ccalgo => 23,
        PerflogColumn::BweMax => 24,
        PerflogColumn::PacingQuantumMax => 25,
        PerflogColumn::PacingRate => 26,
    }
}

/// Short CSV name of a column.
pub open spec fn spec_param_name(c: PerflogColumn) -> &'static str {
    match c {
        PerflogColumn::IsClient => "is_client",
        PerflogColumn::NbPacketsReceived => "pkt_recv",
        PerflogColumn::NbTrainsSent => "trains_s",
        PerflogColumn::NbTrainsShort => "t_short",
        PerflogColumn::NbTrainsBlockedCwin => "tb_cwin",
        PerflogColumn::NbTrainsBlockedPacing => "tb_pacing",
        PerflogColumn::NbTrainsBlockedOthers => "tb_others",
        PerflogColumn::NbPacketsSent => "pkt_sent",
        PerflogColumn::NbRetransmissionTotal => "retrans.",
        PerflogColumn::NbSpurious => "spurious",
        PerflogColumn::DelayedAckOption => "delayed_ack_option",
        PerflogColumn::MinAckDelayRemote => "min_ack_delay_remote",
        PerflogColumn::MaxAckDelayRemote => "max_ack_delay_remote",
        PerflogColumn::MaxAckGapRemote => "max_ack_gap_remote",
        PerflogColumn::MinAckDelayLocal => "min_ack_delay_local",
        PerflogColumn::MaxAckDelayLocal => "max_ack_delay_local",
        PerflogColumn::MaxAckGapLocal => "max_ack_gap_local",
        PerflogColumn::MaxMtuSent => "max_mtu_sent",
        PerflogColumn::MaxMtuReceived => "max_mtu_received",
        PerflogColumn::ZeroRtt => "zero_rtt",
        PerflogColumn::Srtt => "srtt",
        PerflogColumn::Minrtt => "minrtt",
        PerflogColumn::Cwin => "cwin",
        PerflogColumn::Ccalgo => "ccalgo",
        PerflogColumn::BweMax => "bwe_max",
        PerflogColumn::PacingQuantumMax => "p_quantum",
        PerflogColumn::PacingRate => "p_rate",
    }
}

/// The column at position `i` of the row.
pub open spec fn column_at(i: int) -> PerflogColumn {
    if i <= 0 {
        PerflogColumn::IsClient
    } else if i == 1 {
        PerflogColumn::NbPacketsReceived
    } else if i == 2 {
        PerflogColumn::NbTrainsSent
    } else if i == 3 {
        PerflogColumn::NbTrainsShort
    } else if i == 4 {
        PerflogColumn::NbTrainsBlockedCwin
    } else if i == 5 {
        PerflogColumn::NbTrainsBlockedPacing
    } else if i == 6 {
        PerflogColumn::NbTrainsBlockedOthers
    } else if i == 7 {
        PerflogColumn::NbPacketsSent
    } else if i == 8 {
        PerflogColumn::NbRetransmissionTotal
    } else if i == 9 {
        PerflogColumn::NbSpurious
    } else if i == 10 {
        PerflogColumn::DelayedAckOption
    } else if i == 11 {
        PerflogColumn::MinAckDelayRemote
    } else if i == 12 {
        PerflogColumn::MaxAckDelayRemote
    } else if i == 13 {
        PerflogColumn::MaxAckGapRemote
    } else if i == 14 {
        PerflogColumn::MinAckDelayLocal
    } else if i == 15 {
        PerflogColumn::MaxAckDelayLocal
    } else if i == 16 {
        PerflogColumn::MaxAckGapLocal
    } else if i == 17 {
        PerflogColumn::MaxMtuSent
    } else if i == 18 {
        PerflogColumn::MaxMtuReceived
    } else if i == 19 {
        PerflogColumn::ZeroRtt
    } else if i == 20 {
        PerflogColumn::Srtt
    } else if i == 21 {
        PerflogColumn::Minrtt
    } else if i == 22 {
        PerflogColumn::Cwin
    } else if i == 23 {
        PerflogColumn::Ccalgo
    } else if i == 24 {
        PerflogColumn::BweMax
    } else if i == 25 {
        PerflogColumn::PacingQuantumMax
    } else {
        PerflogColumn::PacingRate
    }
}

impl PerflogColumn {
    /// Position of the column in the row.
    pub fn index(self) -> (r: usize)
        ensures
            r == column_index(self),
    {
        match self {
            PerflogColumn::IsClient => 0,
            PerflogColumn::NbPacketsReceived => 1,
            PerflogColumn::NbTrainsSent => 2,
            PerflogColumn::NbTrainsShort => 3,
            PerflogColumn::NbTrainsBlockedCwin => 4,
            PerflogColumn::NbTrainsBlockedPacing => 5,
            PerflogColumn::NbTrainsBlockedOthers => 6,
            PerflogColumn::NbPacketsSent => 7,
            PerflogColumn::NbRetransmissionTotal => 8,
            PerflogColumn::NbSpurious => 9,
            PerflogColumn::DelayedAckOption => 10,
            PerflogColumn::MinAckDelayRemote => 11,
            PerflogColumn::MaxAckDelayRemote => 12,
            PerflogColumn::MaxAckGapRemote => 13,
            PerflogColumn::MinAckDelayLocal => 14,
            PerflogColumn::MaxAckDelayLocal => 15,
            PerflogColumn::MaxAckGapLocal => 16,
            PerflogColumn::MaxMtuSent => 17,
            PerflogColumn::MaxMtuReceived => 18,
            PerflogColumn::ZeroRtt => 19,
            PerflogColumn::Srtt => 20,
            PerflogColumn::Minrtt => 21,
            PerflogColumn::Cwin => 22,
            PerflogColumn::Ccalgo => 23,
            PerflogColumn::BweMax => 24,
            PerflogColumn::PacingQuantumMax => 25,
            PerflogColumn::PacingRate => 26,
        }
    }

    /// Short CSV name of the column.
    pub fn param_name(self) -> (r: &'static str)
        ensures
            r == spec_param_name(self),
    {
        match self {
            PerflogColumn::IsClient => "is_client",
            PerflogColumn::NbPacketsReceived => "pkt_recv",
            PerflogColumn::NbTrainsSent => "trains_s",
            PerflogColumn::NbTrainsShort => "t_short",
            PerflogColumn::NbTrainsBlockedCwin => "tb_cwin",
            PerflogColumn::NbTrainsBlockedPacing => "tb_pacing",
            PerflogColumn::NbTrainsBlockedOthers => "tb_others",
            PerflogColumn::NbPacketsSent => "pkt_sent",
            PerflogColumn::NbRetransmissionTotal => "retrans.",
            PerflogColumn::NbSpurious => "spurious",
            PerflogColumn::DelayedAckOption => "delayed_ack_option",
            PerflogColumn::MinAckDelayRemote => "min_ack_delay_remote",
            PerflogColumn::MaxAckDelayRemote => "max_ack_delay_remote",
            PerflogColumn::MaxAckGapRemote => "max_ack_gap_remote",
            PerflogColumn::MinAckDelayLocal => "min_ack_delay_local",
            PerflogColumn::MaxAckDelayLocal => "max_ack_delay_local",
            PerflogColumn::MaxAckGapLocal => "max_ack_gap_local",
            PerflogColumn::MaxMtuSent => "max_mtu_sent",
            PerflogColumn::MaxMtuReceived => "max_mtu_received",
            PerflogColumn::ZeroRtt => "zero_rtt",
            PerflogColumn::Srtt => "srtt",
            PerflogColumn::Minrtt => "minrtt",
            PerflogColumn::Cwin => "cwin",
            PerflogColumn::Ccalgo => "ccalgo",
            PerflogColumn::BweMax => "bwe_max",
            PerflogColumn::PacingQuantumMax => "p_quantum",
            PerflogColumn::PacingRate => "p_rate",
        }
    }

    /// The columns in row order.
    pub fn all() -> (r: Vec<PerflogColumn>)
        ensures
            r@.len() == PERF_LOG_MAX_ITEMS,
            forall|i: int| 0 <= i < PERF_LOG_MAX_ITEMS ==> #[trigger] r@[i] == column_at(i),
    {
        let mut r: Vec<PerflogColumn> = Vec::new();
        r.push(PerflogColumn::IsClient);
        r.push(PerflogColumn::NbPacketsReceived);
        r.push(PerflogColumn::NbTrainsSent);
        r.push(PerflogColumn::NbTrainsShort);
        r.push(PerflogColumn::NbTrainsBlockedCwin);
        r.push(PerflogColumn::NbTrainsBlockedPacing);
        r.push(PerflogColumn::NbTrainsBlockedOthers);
        r.push(PerflogColumn::NbPacketsSent);
        r.push(PerflogColumn::NbRetransmissionTotal);
        r.push(PerflogColumn::NbSpurious);
        r.push(PerflogColumn::DelayedAckOption);
        r.push(PerflogColumn::MinAckDelayRemote);
        r.push(PerflogColumn::MaxAckDelayRemote);
        r.push(PerflogColumn::MaxAckGapRemote);
        r.push(PerflogColumn::MinAckDelayLocal);
        r.push(PerflogColumn::MaxAckDelayLocal);
        r.push(PerflogColumn::MaxAckGapLocal);
        r.push(PerflogColumn::MaxMtuSent);
        r.push(PerflogColumn::MaxMtuReceived);
        r.push(PerflogColumn::ZeroRtt);
        r.push(PerflogColumn::Srtt);
        r.push(PerflogColumn::Minrtt);
        r.push(PerflogColumn::Cwin);
        r.push(PerflogColumn::Ccalgo);
        r.push(PerflogColumn::BweMax);
        r.push(PerflogColumn::PacingQuantumMax);
        r.push(PerflogColumn::PacingRate);
        r
    }
}

/// Position and column correspond one to one over the whole row.
pub proof fn law_columns_are_positions(c: PerflogColumn, i: int)
    ensures
        0 <= column_index(c) < PERF_LOG_MAX_ITEMS,
        column_at(column_index(c)) == c,
        0 <= i < PERF_LOG_MAX_ITEMS ==> column_index(column_at(i)) == i,
{
}

/// Value of a metric column for a closing connection; path metrics come
/// from the primary path (0 without one).
pub open spec fn spec_perflog_value(c: Connection, col: PerflogColumn) -> u64 {
    let has_path = c.paths@.len() > 0;
    let p = c.paths@[0];
    match col {
        PerflogColumn::IsClient => if c.client_mode { 1 } else { 0 },
        PerflogColumn::NbPacketsReceived => c.nb_packets_received,
        PerflogColumn::NbTrainsSent => c.nb_trains_sent,
        PerflogColumn::NbTrainsShort => c.nb_trains_short,
        PerflogColumn::NbTrainsBlockedCwin => c.nb_trains_blocked_cwin,
        PerflogColumn::NbTrainsBlockedPacing => c.nb_trains_blocked_pacing,
        PerflogColumn::NbTrainsBlockedOthers => c.nb_trains_blocked_others,
        PerflogColumn::NbPacketsSent => c.nb_packets_sent,
        PerflogColumn::NbRetransmissionTotal => c.nb_retransmission_total,
        PerflogColumn::NbSpurious => c.nb_spurious,
        PerflogColumn::DelayedAckOption => if c.is_ack_frequency_negotiated { 1 } else { 0 },
        PerflogColumn::MinAckDelayRemote => c.min_ack_delay_remote,
        PerflogColumn::MaxAckDelayRemote => c.max_ack_delay_remote,
        PerflogColumn::MaxAckGapRemote => c.max_ack_gap_remote,
        PerflogColumn::MinAckDelayLocal => c.min_ack_delay_local,
        PerflogColumn::MaxAckDelayLocal => c.max_ack_delay_local,
        PerflogColumn::MaxAckGapLocal => c.max_ack_gap_local,
        PerflogColumn::MaxMtuSent => c.max_mtu_sent as u64,
        PerflogColumn::MaxMtuReceived => c.max_mtu_received as u64,
        PerflogColumn::ZeroRtt => if c.nb_zero_rtt_received > 0 || c.nb_zero_rtt_acked > 0 { 1 } else { 0 },
        PerflogColumn::Srtt => if has_path { p.smoothed_rtt } else { 0 },
        PerflogColumn::Minrtt => if has_path { p.rtt_min } else { 0 },
        PerflogColumn::Cwin => if has_path { p.cwin } else { 0 },
        PerflogColumn::Ccalgo => match c.congestion_alg {
            Some(a) => a.congestion_algorithm_number as u64,
            None => 0,
        },
        PerflogColumn::BweMax => if has_path { p.bandwidth_estimate_max } else { 0 },
        PerflogColumn::PacingQuantumMax => if has_path { p.pacing_quantum_max } else { 0 },
        PerflogColumn::PacingRate => if has_path { p.pacing_rate_max } else { 0 },
    }
}

/// The metric row of a closing connection, one value per column.
pub fn perflog_values(connection: &Connection) -> (v: Vec<u64>)
    ensures
        v@.len() == PERF_LOG_MAX_ITEMS,
        forall|i: int| 0 <= i < PERF_LOG_MAX_ITEMS ==> #[trigger] v@[i] == spec_perflog_value(*connection, column_at(i)),
{
    let c = connection;
    let has_path = c.paths.len() > 0;
    let mut v: Vec<u64> = Vec::new();
    v.push(if c.client_mode { 1 } else { 0 });
    v.push(c.nb_packets_received);
    v.push(c.nb_trains_sent);
    v.push(c.nb_trains_short);
    v.push(c.nb_trains_blocked_cwin);
    v.push(c.nb_trains_blocked_pacing);
    v.push(c.nb_trains_blocked_others);
    v.push(c.nb_packets_sent);
    v.push(c.nb_retransmission_total);
    v.push(c.nb_spurious);
    v.push(if c.is_ack_frequency_negotiated { 1 } else { 0 });
    v.push(c.min_ack_delay_remote);
    v.push(c.max_ack_delay_remote);
    v.push(c.max_ack_gap_remote);
    v.push(c.min_ack_delay_local);
    v.push(c.max_ack_delay_local);
    v.push(c.max_ack_gap_local);
    v.push(c.max_mtu_sent as u64);
    v.push(c.max_mtu_received as u64);
    v.push(if c.nb_zero_rtt_received > 0 || c.nb_zero_rtt_acked > 0 { 1 } else { 0 });
    v.push(if has_path { c.paths[0].smoothed_rtt } else { 0 });
    v.push(if has_path { c.paths[0].rtt_min } else { 0 });
    v.push(if has_path { c.paths[0].cwin } else { 0 });
    v.push(
        match c.congestion_alg {
            Some(a) => a.congestion_algorithm_number as u64,
            None => 0,
        },
    );
    v.push(if has_path { c.paths[0].bandwidth_estimate_max } else { 0 });
    v.push(if has_path { c.paths[0].pacing_quantum_max } else { 0 });
    v.push(if has_path { c.paths[0].pacing_rate_max } else { 0 });
    v
}


/// The path columns of the performance row hold the primary path's
/// measures under their names (`srtt` its smoothed RTT, `minrtt` its
/// minimum RTT, `cwin` its window, `bwe_max`, `pacing_quantum_max` and
/// `pacing_rate` its bandwidth and pacing maxima), and 0 for a connection
/// without a path.
pub proof fn law_path_columns_hold_primary_path(c: Connection)
    ensures
        c.paths@.len() > 0 ==> {
            let p = c.paths@[0];
            &&& spec_perflog_value(c, PerflogColumn::Srtt) == p.smoothed_rtt
            &&& spec_perflog_value(c, PerflogColumn::Minrtt) == p.rtt_min
            &&& spec_perflog_value(c, PerflogColumn::Cwin) == p.cwin
            &&& spec_perflog_value(c, PerflogColumn::BweMax) == p.bandwidth_estimate_max
            &&& spec_perflog_value(c, PerflogColumn::PacingQuantumMax) == p.pacing_quantum_max
            &&& spec_perflog_value(c, PerflogColumn::PacingRate) == p.pacing_rate_max
        },
        c.paths@.len() == 0 ==> {
            &&& spec_perflog_value(c, PerflogColumn::Srtt) == 0
            &&& spec_perflog_value(c, PerflogColumn::Minrtt) == 0
            &&& spec_perflog_value(c, PerflogColumn::Cwin) == 0
            &&& spec_perflog_value(c, PerflogColumn::BweMax) == 0
            &&& spec_perflog_value(c, PerflogColumn::PacingQuantumMax) == 0
            &&& spec_perflog_value(c, PerflogColumn::PacingRate) == 0
        },
{
}

/// The RTT and window that the performance row records for a connection
/// are those its default path-quality snapshot reports.
pub proof fn law_row_agrees_with_path_quality(c: Connection)
    requires
        c.paths@.len() > 0,
    ensures
        spec_perflog_value(c, PerflogColumn::Srtt) == spec_path_quality(c.paths@[0], c.pkt_ctx@[0].send_sequence).rtt,
        spec_perflog_value(c, PerflogColumn::Minrtt) == spec_path_quality(c.paths@[0], c.pkt_ctx@[0].send_sequence).rtt_min,
        spec_perflog_value(c, PerflogColumn::Cwin) == spec_path_quality(c.paths@[0], c.pkt_ctx@[0].send_sequence).cwin,
{
    law_quality_reports_path_fields(c.paths@[0], c.pkt_ctx@[0].send_sequence);
}

/// The counters of the performance row hold the connection's counters
/// under their names.
pub proof fn law_counter_columns_hold_counters(c: Connection)
    ensures
        spec_perflog_value(c, PerflogColumn::NbPacketsReceived) == c.nb_packets_received,
        spec_perflog_value(c, PerflogColumn::NbPacketsSent) == c.nb_packets_sent,
        spec_perflog_value(c, PerflogColumn::NbTrainsSent) == c.nb_trains_sent,
        spec_perflog_value(c, PerflogColumn::NbTrainsShort) == c.nb_trains_short,
        spec_perflog_value(c, PerflogColumn::NbTrainsBlockedCwin) == c.nb_trains_blocked_cwin,
        spec_perflog_value(c, PerflogColumn::NbTrainsBlockedPacing) == c.nb_trains_blocked_pacing,
        spec_perflog_value(c, PerflogColumn::NbTrainsBlockedOthers) == c.nb_trains_blocked_others,
        spec_perflog_value(c, PerflogColumn::NbRetransmissionTotal) == c.nb_retransmission_total,
        spec_perflog_value(c, PerflogColumn::NbSpurious) == c.nb_spurious,
        spec_perflog_value(c, PerflogColumn::MinAckDelayRemote) == c.min_ack_delay_remote,
        spec_perflog_value(c, PerflogColumn::MaxAckDelayRemote) == c.max_ack_delay_remote,
        spec_perflog_value(c, PerflogColumn::MaxAckGapRemote) == c.max_ack_gap_remote,
        spec_perflog_value(c, PerflogColumn::MinAckDelayLocal) == c.min_ack_delay_local,
        spec_perflog_value(c, PerflogColumn::MaxAckDelayLocal) == c.max_ack_delay_local,
        spec_perflog_value(c, PerflogColumn::MaxAckGapLocal) == c.max_ack_gap_local,
        spec_perflog_value(c, PerflogColumn::IsClient) == (if c.client_mode { 1u64 } else { 0u64 }),
{
}

} // verus!
