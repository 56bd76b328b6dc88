//! Congestion-control descriptors and the per-path arithmetic of the
//! baseline, New Reno and Prague controllers.

use vstd::prelude::*;
use vstd::string::StringSliceAdditionalSpecFns;
use crate::connection::Connection;
use crate::path::{PacketContextState, Path};
use crate::quic::{CWIN_INITIAL, CWIN_MINIMUM};
use crate::types::{CongestionNotification, Duration, Instant, ECN_ECT_0, ECN_ECT_1};

verus! {

/// Congestion-control algorithm descriptor: identifier, numeric tag and
/// the ECN code point the algorithm marks its packets with.
#[derive(Debug, Copy, Clone)]
pub struct CongestionAlgorithm {
    pub congestion_algorithm_id: &'static str,
    pub congestion_algorithm_number: u8,
    pub ecn_mark: u8,
}

/// Per-acknowledgement state handed to a congestion controller.
#[derive(Debug, Copy, Clone, PartialEq, Eq, Structural)]
pub struct PerAckState {
    pub rtt_measurement: Duration,
    pub send_delay: Duration,
    pub one_way_delay: Duration,
    pub nb_bytes_acknowledged: u64,
    pub nb_bytes_newly_lost: u64,
    pub nb_bytes_lost_since_packet_sent: u64,
    pub nb_bytes_delivered_since_packet_sent: u64,
    pub inflight_prior: u64,
    pub lost_packet_number: u64,
    pub lost_packet_sent_time: Instant,
    pub pc: i32,
    pub is_app_limited: bool,
    pub is_cwnd_limited: bool,
}

impl Default for PerAckState {
    fn default() -> (r: PerAckState)
        ensures
            r == (PerAckState {
                rtt_measurement: 0,
                send_delay: 0,
                one_way_delay: 0,
                nb_bytes_acknowledged: 0,
                nb_bytes_newly_lost: 0,
                nb_bytes_lost_since_packet_sent: 0,
                nb_bytes_delivered_since_packet_sent: 0,
                inflight_prior: 0,
                lost_packet_number: 0,
                lost_packet_sent_time: 0,
                pc: 0,
                is_app_limited: false,
                is_cwnd_limited: false,
            }),
    {
        PerAckState {
            rtt_measurement: 0,
            send_delay: 0,
            one_way_delay: 0,
            nb_bytes_acknowledged: 0,
            nb_bytes_newly_lost: 0,
            nb_bytes_lost_since_packet_sent: 0,
            nb_bytes_delivered_since_packet_sent: 0,
            inflight_prior: 0,
            lost_packet_number: 0,
            lost_packet_sent_time: 0,
            pc: 0,
            is_app_limited: false,
            is_cwnd_limited: false,
        }
    }
}

/// The New Reno descriptor ("newreno", number 1, ECT(0)).
pub fn newreno_algorithm() -> (r: CongestionAlgorithm)
    ensures
        r == spec_cc_table()[0],
        r.congestion_algorithm_id == "newreno",
        r.congestion_algorithm_number == 1,
        r.ecn_mark == ECN_ECT_0,
{
    CongestionAlgorithm { congestion_algorithm_id: "newreno", congestion_algorithm_number: 1, ecn_mark: ECN_ECT_0 }
}

/// Every algorithm shipped with the library, in table order.
pub open spec fn spec_cc_table() -> Seq<CongestionAlgorithm> {
    seq![
        CongestionAlgorithm { congestion_algorithm_id: "newreno", congestion_algorithm_number: 1, ecn_mark: ECN_ECT_0 },
        CongestionAlgorithm { congestion_algorithm_id: "reno", congestion_algorithm_number: 1, ecn_mark: ECN_ECT_0 },
        CongestionAlgorithm { congestion_algorithm_id: "cubic", congestion_algorithm_number: 2, ecn_mark: ECN_ECT_0 },
        CongestionAlgorithm { congestion_algorithm_id: "dcubic", congestion_algorithm_number: 3, ecn_mark: ECN_ECT_0 },
        CongestionAlgorithm { congestion_algorithm_id: "fast", congestion_algorithm_number: 4, ecn_mark: ECN_ECT_0 },
        CongestionAlgorithm { congestion_algorithm_id: "fastcc", congestion_algorithm_number: 4, ecn_mark: ECN_ECT_0 },
        CongestionAlgorithm { congestion_algorithm_id: "bbr", congestion_algorithm_number: 5, ecn_mark: ECN_ECT_0 },
        CongestionAlgorithm { congestion_algorithm_id: "prague", congestion_algorithm_number: 6, ecn_mark: ECN_ECT_1 },
        CongestionAlgorithm { congestion_algorithm_id: "bbr1", congestion_algorithm_number: 7, ecn_mark: ECN_ECT_0 },
        CongestionAlgorithm { congestion_algorithm_id: "c4", congestion_algorithm_number: 8, ecn_mark: ECN_ECT_1 },
    ]
}

/// Every algorithm shipped with the library: newreno, reno, cubic, dcubic,
/// fast, fastcc, bbr, prague, bbr1, c4.
pub fn congestion_algorithm_table() -> (r: Vec<CongestionAlgorithm>)
    ensures
        r@ == spec_cc_table(),
{
    let mut r: Vec<CongestionAlgorithm> = Vec::new();
    r.push(CongestionAlgorithm { congestion_algorithm_id: "newreno", congestion_algorithm_number: 1, ecn_mark: ECN_ECT_0 });
    r.push(CongestionAlgorithm { congestion_algorithm_id: "reno", congestion_algorithm_number: 1, ecn_mark: ECN_ECT_0 });
    r.push(CongestionAlgorithm { congestion_algorithm_id: "cubic", congestion_algorithm_number: 2, ecn_mark: ECN_ECT_0 });
    r.push(CongestionAlgorithm { congestion_algorithm_id: "dcubic", congestion_algorithm_number: 3, ecn_mark: ECN_ECT_0 });
    r.push(CongestionAlgorithm { congestion_algorithm_id: "fast", congestion_algorithm_number: 4, ecn_mark: ECN_ECT_0 });
    r.push(CongestionAlgorithm { congestion_algorithm_id: "fastcc", congestion_algorithm_number: 4, ecn_mark: ECN_ECT_0 });
    r.push(CongestionAlgorithm { congestion_algorithm_id: "bbr", congestion_algorithm_number: 5, ecn_mark: ECN_ECT_0 });
    r.push(CongestionAlgorithm { congestion_algorithm_id: "prague", congestion_algorithm_number: 6, ecn_mark: ECN_ECT_1 });
    r.push(CongestionAlgorithm { congestion_algorithm_id: "bbr1", congestion_algorithm_number: 7, ecn_mark: ECN_ECT_0 });
    r.push(CongestionAlgorithm { congestion_algorithm_id: "c4", congestion_algorithm_number: 8, ecn_mark: ECN_ECT_1 });
    assert(r@ =~= spec_cc_table());
    r
}

/// The algorithms that can be chosen by name.  It is filled at most once:
/// a registration after the first leaves it as it was.
#[derive(Debug)]
pub struct CongestionAlgorithmRegistry {
    algorithms: Option<Vec<CongestionAlgorithm>>,
}

impl View for CongestionAlgorithmRegistry {
    type V = Option<Seq<CongestionAlgorithm>>;

    closed spec fn view(&self) -> Option<Seq<CongestionAlgorithm>> {
        match self.algorithms {
            Some(v) => Some(v@),
            None => None,
        }
    }
}

/// The registry after registering `alg`: unchanged once filled.
pub open spec fn spec_register(r: Option<Seq<CongestionAlgorithm>>, alg: Seq<CongestionAlgorithm>) -> Option<Seq<CongestionAlgorithm>> {
    match r {
        Some(v) => Some(v),
        None => Some(alg),
    }
}

/// The algorithms a registry offers (none before any registration).
pub open spec fn spec_registered(r: Option<Seq<CongestionAlgorithm>>) -> Seq<CongestionAlgorithm> {
    match r {
        Some(v) => v,
        None => Seq::empty(),
    }
}

impl CongestionAlgorithmRegistry {
    /// A registry with nothing registered.
    pub fn new() -> (r: CongestionAlgorithmRegistry)
        ensures
            r@ is None,
    {
        CongestionAlgorithmRegistry { algorithms: None }
    }
}

/// Register the algorithms of `alg`, unless a registration was made
/// before (then nothing changes).
pub fn register_congestion_control_algorithms(registry: &mut CongestionAlgorithmRegistry, alg: &[CongestionAlgorithm])
    ensures
        final(registry)@ == spec_register(old(registry)@, alg@),
{
    if registry.algorithms.is_none() {
        registry.algorithms = Some(vstd::slice::slice_to_vec(alg));
    }
}

/// Register every algorithm shipped with the library, unless a
/// registration was made before.
pub fn register_all_congestion_control_algorithms(registry: &mut CongestionAlgorithmRegistry)
    ensures
        final(registry)@ == spec_register(old(registry)@, spec_cc_table()),
{
    if registry.algorithms.is_none() {
        registry.algorithms = Some(congestion_algorithm_table());
    }
}

/// The registered algorithms; empty before any registration.
pub fn congestion_control_algorithms(registry: &CongestionAlgorithmRegistry) -> (r: &[CongestionAlgorithm])
    ensures
        r@ == spec_registered(registry@),
{
    match &registry.algorithms {
        Some(v) => v.as_slice(),
        None => &[],
    }
}

/// Registration happens once: a second registration, of anything, leaves
/// the registry as the first one made it.
pub proof fn law_first_registration_wins(
    r: Option<Seq<CongestionAlgorithm>>,
    a: Seq<CongestionAlgorithm>,
    b: Seq<CongestionAlgorithm>,
)
    ensures
        spec_register(spec_register(r, a), b) == spec_register(r, a),
        r is None ==> spec_registered(spec_register(spec_register(r, a), b)) == a,
{
}

/// Byte-wise equality of two strings.
fn str_equal(a: &str, b: &str) -> (r: bool)
    ensures
        r == (a.spec_bytes() == b.spec_bytes()),
{
    let x = a.as_bytes();
    let y = b.as_bytes();
    if x.len() != y.len() {
        return false;
    }
    let mut i: usize = 0;
    while i < x.len()
        invariant
            x@ == a.spec_bytes(),
            y@ == b.spec_bytes(),
            x@.len() == y@.len(),
            i <= x@.len(),
            forall|j: int| 0 <= j < i ==> x@[j] == y@[j],
        decreases x.len() - i,
    {
        if x[i] != y[i] {
            return false;
        }
        i = i + 1;
    }
    assert(x@ =~= y@);
    true
}

/// Index of the first algorithm, from `k` on, whose identifier has the
/// bytes `id`, or -1.
pub open spec fn cc_index_from(table: Seq<CongestionAlgorithm>, id: Seq<u8>, k: int) -> int
    decreases table.len() - k,
{
    if k < 0 || k >= table.len() {
        -1
    } else if table[k].congestion_algorithm_id.spec_bytes() == id {
        k
    } else {
        cc_index_from(table, id, k + 1)
    }
}

/// The first algorithm of `table` whose identifier is `alg_id`.
pub fn find_congestion_algorithm(table: &[CongestionAlgorithm], alg_id: &str) -> (r: Option<CongestionAlgorithm>)
    ensures
        cc_index_from(table@, alg_id.spec_bytes(), 0) == -1 ==> r is None,
        cc_index_from(table@, alg_id.spec_bytes(), 0) != -1 ==> r == Some(
            table@[cc_index_from(table@, alg_id.spec_bytes(), 0)]),
{
    let mut k: usize = 0;
    while k < table.len()
        invariant
            k <= table@.len(),
            cc_index_from(table@, alg_id.spec_bytes(), 0) == cc_index_from(table@, alg_id.spec_bytes(), k as int),
        decreases table.len() - k,
    {
        if str_equal(table[k].congestion_algorithm_id, alg_id) {
            return Some(table[k]);
        }
        k = k + 1;
    }
    None
}

/// The first registered algorithm whose identifier is `alg_id`.
pub fn get_congestion_algorithm(registry: &CongestionAlgorithmRegistry, alg_id: &str) -> (r: Option<CongestionAlgorithm>)
    ensures
        cc_index_from(spec_registered(registry@), alg_id.spec_bytes(), 0) == -1 ==> r is None,
        cc_index_from(spec_registered(registry@), alg_id.spec_bytes(), 0) != -1 ==> r == Some(
            spec_registered(registry@)[cc_index_from(spec_registered(registry@), alg_id.spec_bytes(), 0)]),
{
    find_congestion_algorithm(congestion_control_algorithms(registry), alg_id)
}

/// Baseline controller start: initial window, nothing in transit.
pub fn baseline_cc_init(path_x: &mut Path)
    ensures
        *final(path_x) == (Path { cwin: CWIN_INITIAL, bytes_in_transit: 0, ..*old(path_x) }),
{
    path_x.cwin = CWIN_INITIAL;
    path_x.bytes_in_transit = 0;
}

/// Window of the baseline controller after a notification.
pub open spec fn spec_baseline_cwin(cwin: u64, notification: CongestionNotification, ack: PerAckState) -> u64 {
    match notification {
        CongestionNotification::Acknowledgement => {
            let growth = if ack.nb_bytes_acknowledged > 1 { ack.nb_bytes_acknowledged } else { 1 };
            if cwin + growth > u64::MAX { u64::MAX } else { (cwin + growth) as u64 }
        },
        CongestionNotification::Repeat | CongestionNotification::Timeout => {
            if cwin / 2 > CWIN_MINIMUM { cwin / 2 } else { CWIN_MINIMUM }
        },
        CongestionNotification::SeedCwin => if ack.inflight_prior > 0 {
            if ack.inflight_prior > CWIN_MINIMUM { ack.inflight_prior } else { CWIN_MINIMUM }
        } else {
            cwin
        },
        CongestionNotification::Reset => CWIN_INITIAL,
        _ => cwin,
    }
}

/// Baseline controller: grow by the acknowledged bytes (at least one),
/// halve on loss or timeout down to the floor, seed from the prior
/// in-flight count, reset to the initial window.
pub fn baseline_cc_notify(path_x: &mut Path, notification: CongestionNotification, ack_state: &PerAckState)
    ensures
        final(path_x).cwin == spec_baseline_cwin(old(path_x).cwin, notification, *ack_state),
        final(path_x).bytes_in_transit == (if notification == CongestionNotification::Reset { 0 } else { old(path_x).bytes_in_transit }),
        *final(path_x) == (Path { cwin: final(path_x).cwin, bytes_in_transit: final(path_x).bytes_in_transit, ..*old(path_x) }),
{
    match notification {
        CongestionNotification::Acknowledgement => {
            let growth: u64 = if ack_state.nb_bytes_acknowledged > 1 { ack_state.nb_bytes_acknowledged } else { 1 };
            path_x.cwin = path_x.cwin.saturating_add(growth);
        },
        CongestionNotification::Repeat | CongestionNotification::Timeout => {
            let half: u64 = path_x.cwin / 2;
            path_x.cwin = if half > CWIN_MINIMUM { half } else { CWIN_MINIMUM };
        },
        CongestionNotification::SeedCwin => {
            if ack_state.inflight_prior > 0 {
                path_x.cwin = if ack_state.inflight_prior > CWIN_MINIMUM { ack_state.inflight_prior } else { CWIN_MINIMUM };
            }
        },
        CongestionNotification::Reset => {
            path_x.cwin = CWIN_INITIAL;
            path_x.bytes_in_transit = 0;
        },
        _ => {},
    }
}

/// Baseline controller observation: `(cwin, bytes_in_transit)`.
pub fn baseline_cc_observe(path_x: &Path) -> (r: (u64, u64))
    ensures
        r == (path_x.cwin, path_x.bytes_in_transit),
{
    (path_x.cwin, path_x.bytes_in_transit)
}

/// Phase of the embedded New Reno simulator.
#[derive(Debug, Copy, Clone, PartialEq, Eq, Structural)]
pub enum NewRenoAlgState {
    SlowStart,
    CongestionAvoidance,
}

/// Embedded New Reno simulator state.
#[derive(Debug, Copy, Clone, PartialEq, Eq, Structural)]
pub struct NewRenoSimState {
    pub alg_state: NewRenoAlgState,
    pub cwin: u64,
    pub ssthresh: u64,
    pub recovery_start: u64,
    pub recovery_sequence: u64,
    pub residual_ack: u64,
}

/// Per-path state of the standalone New Reno algorithm.
#[derive(Debug, Copy, Clone, PartialEq, Eq, Structural)]
pub struct NewrenoState {
    pub nrss: NewRenoSimState,
}

/// Next packet number of the packet-number space that the path uses.
pub open spec fn spec_sequence_number(cnx: Connection, path_x: Path) -> u64 {
    if cnx.is_multipath_enabled { path_x.pkt_ctx.send_sequence } else { cnx.pkt_ctx@[0].send_sequence }
}

/// Enter New Reno recovery for a loss, an ECN mark or a timeout: the
/// threshold is half the window (at least the floor); a timeout restarts
/// slow start from the floor, anything else continues in congestion
/// avoidance from the threshold.
pub fn picoquic_newreno_sim_enter_recovery(
    nr_state: &mut NewRenoSimState,
    connection: &Connection,
    path_x: &Path,
    notification: CongestionNotification,
    current_time: Instant,
)
    ensures
        final(nr_state).ssthresh == (if old(nr_state).cwin / 2 < CWIN_MINIMUM { CWIN_MINIMUM } else { old(nr_state).cwin / 2 }),
        notification == CongestionNotification::Timeout ==> final(nr_state).cwin == CWIN_MINIMUM
            && final(nr_state).alg_state == NewRenoAlgState::SlowStart,
        notification != CongestionNotification::Timeout ==> final(nr_state).cwin == final(nr_state).ssthresh
            && final(nr_state).alg_state == NewRenoAlgState::CongestionAvoidance,
        final(nr_state).recovery_start == current_time,
        final(nr_state).recovery_sequence == spec_sequence_number(*connection, *path_x),
        final(nr_state).residual_ack == 0,
{
    nr_state.ssthresh = nr_state.cwin / 2;
    if nr_state.ssthresh < CWIN_MINIMUM {
        nr_state.ssthresh = CWIN_MINIMUM;
    }
    if notification == CongestionNotification::Timeout {
        nr_state.cwin = CWIN_MINIMUM;
        nr_state.alg_state = NewRenoAlgState::SlowStart;
    } else {
        nr_state.cwin = nr_state.ssthresh;
        nr_state.alg_state = NewRenoAlgState::CongestionAvoidance;
    }
    nr_state.recovery_start = current_time;
    nr_state.recovery_sequence = if connection.is_multipath_enabled {
        path_x.pkt_ctx.send_sequence
    } else {
        connection.pkt_ctx[0].send_sequence
    };
    nr_state.residual_ack = 0;
}

/// New Reno is in slow start with no threshold set yet.
pub open spec fn newreno_unbounded_slow_start(st: NewrenoState) -> bool {
    st.nrss.alg_state == NewRenoAlgState::SlowStart && st.nrss.ssthresh == u64::MAX
}

/// What the New Reno controller does with one notification, before and
/// around the embedded simulator.
#[derive(Debug, Copy, Clone, PartialEq, Eq, Structural)]
pub struct NewRenoNotifyPlan {
    /// Seed the window from the target estimate first.
    pub reseed_cwin: bool,
    /// Hand the notification to the simulator and take its window.
    pub run_simulator: bool,
    /// Test the delay for an exit from slow start (after raising the window
    /// for a long round trip).
    pub hystart_check: bool,
    /// Start the controller over.
    pub reset: bool,
}

/// The plan for `notification` on a path in state `st`: an acknowledgement
/// re-seeds the window during unbounded slow start and reaches the
/// simulator only when data was acknowledged after the sender was last
/// limited; seeding, losses, ECN marks, timeouts and spurious repeats always
/// reach it; an RTT measurement is tested for an exit only during unbounded
/// slow start.
pub open spec fn spec_newreno_notify_plan(st: NewrenoState, path_x: Path, n: CongestionNotification) -> NewRenoNotifyPlan {
    NewRenoNotifyPlan {
        reseed_cwin: n == CongestionNotification::Acknowledgement && newreno_unbounded_slow_start(st),
        run_simulator: (n == CongestionNotification::Acknowledgement && path_x.last_time_acked_data_frame_sent
            > path_x.last_sender_limited_time) || n == CongestionNotification::SeedCwin || n
            == CongestionNotification::EcnEc || n == CongestionNotification::Repeat || n
            == CongestionNotification::Timeout || n == CongestionNotification::SpuriousRepeat,
        hystart_check: n == CongestionNotification::RttMeasurement && newreno_unbounded_slow_start(st),
        reset: n == CongestionNotification::Reset,
    }
}

/// Plan what the New Reno controller does with `notification`.
pub fn newreno_notify_plan(st: &NewrenoState, path_x: &Path, notification: CongestionNotification) -> (r: NewRenoNotifyPlan)
    ensures
        r == spec_newreno_notify_plan(*st, *path_x, notification),
{
    let unbounded = st.nrss.alg_state == NewRenoAlgState::SlowStart && st.nrss.ssthresh == u64::MAX;
    let (reseed, run, hystart, reset) = match notification {
        CongestionNotification::Acknowledgement => (
            unbounded,
            path_x.last_time_acked_data_frame_sent > path_x.last_sender_limited_time,
            false,
            false,
        ),
        CongestionNotification::SeedCwin | CongestionNotification::EcnEc | CongestionNotification::Repeat
        | CongestionNotification::Timeout | CongestionNotification::SpuriousRepeat => (false, true, false, false),
        CongestionNotification::RttMeasurement => (false, false, unbounded, false),
        CongestionNotification::Reset => (false, false, false, true),
        _ => (false, false, false, false),
    };
    NewRenoNotifyPlan { reseed_cwin: reseed, run_simulator: run, hystart_check: hystart, reset }
}

/// After the simulator ran on `notification`: the path takes its window,
/// and a spurious repeat marks the threshold as initialized.
pub fn newreno_take_simulator_cwin(st: &NewrenoState, path_x: &mut Path, notification: CongestionNotification)
    ensures
        *final(path_x) == (Path {
            cwin: st.nrss.cwin,
            is_ssthresh_initialized: old(path_x).is_ssthresh_initialized || notification
                == CongestionNotification::SpuriousRepeat,
            ..*old(path_x)
        }),
{
    path_x.cwin = st.nrss.cwin;
    if notification == CongestionNotification::SpuriousRepeat {
        path_x.is_ssthresh_initialized = true;
    }
}

/// Leave slow start on a delay increase: the threshold becomes the window,
/// the controller moves to congestion avoidance, and the path takes the
/// window with its threshold marked as initialized.
pub fn newreno_hystart_exit(st: &mut NewrenoState, path_x: &mut Path)
    ensures
        *final(st) == (NewrenoState {
            nrss: NewRenoSimState {
                ssthresh: old(st).nrss.cwin,
                alg_state: NewRenoAlgState::CongestionAvoidance,
                ..old(st).nrss
            },
        }),
        *final(path_x) == (Path { cwin: old(st).nrss.cwin, is_ssthresh_initialized: true, ..*old(path_x) }),
{
    st.nrss.ssthresh = st.nrss.cwin;
    st.nrss.alg_state = NewRenoAlgState::CongestionAvoidance;
    path_x.cwin = st.nrss.cwin;
    path_x.is_ssthresh_initialized = true;
}

/// After a delay exit from slow start, the controller is no longer in
/// unbounded slow start: RTT samples are no longer tested for an exit, and
/// acknowledgements no longer re-seed the window.
pub proof fn law_hystart_exit_leaves_slow_start(st: NewrenoState, p: Path)
    ensures
        ({
            let st2 = NewrenoState {
                nrss: NewRenoSimState {
                    ssthresh: st.nrss.cwin,
                    alg_state: NewRenoAlgState::CongestionAvoidance,
                    ..st.nrss
                },
            };
            &&& !newreno_unbounded_slow_start(st2)
            &&& !spec_newreno_notify_plan(st2, p, CongestionNotification::RttMeasurement).hystart_check
            &&& !spec_newreno_notify_plan(st2, p, CongestionNotification::Acknowledgement).reseed_cwin
        }),
{
}

impl NewrenoState {
    /// `(phase, ssthresh)`, the threshold reported as 0 while unset.
    pub fn observe(&self) -> (r: (u64, u64))
        ensures
            r.0 == (if self.nrss.alg_state == NewRenoAlgState::SlowStart { 0u64 } else { 1u64 }),
            r.1 == (if self.nrss.ssthresh == u64::MAX { 0 } else { self.nrss.ssthresh }),
    {
        let cc_state: u64 = match self.nrss.alg_state {
            NewRenoAlgState::SlowStart => 0,
            NewRenoAlgState::CongestionAvoidance => 1,
        };
        let cc_param: u64 = if self.nrss.ssthresh == u64::MAX { 0 } else { self.nrss.ssthresh };
        (cc_state, cc_param)
    }
}

/// Phase of the Prague controller.
#[derive(Debug, Copy, Clone, PartialEq, Eq, Structural)]
pub enum PragueAlgState {
    SlowStart,
    CongestionAvoidance,
}

/// Per-path Prague state.
#[derive(Debug, Copy, Clone, PartialEq, Eq, Structural)]
pub struct PragueState {
    pub alg_state: PragueAlgState,
    pub alpha: u64,
    pub residual_ack: u64,
    pub ssthresh: u64,
    pub recovery_stamp: u64,
    pub recovery_sequence: u64,
    pub l4s_update_sent: u64,
    pub l4s_epoch_send: u64,
    pub l4s_epoch_ect1: u64,
    pub l4s_epoch_ce: u64,
    pub l4s_packet_ect1: u64,
    pub l4s_packet_ce: u64,
}

/// Largest value of the ECN fraction `alpha` (1024 stands for 1).
pub open spec fn prague_alpha_max() -> u64 {
    1024
}

impl PragueState {
    /// The ECN fraction stays within 0..=1024.
    pub open spec fn wf(self) -> bool {
        self.alpha <= prague_alpha_max()
    }

    /// `(phase, ssthresh)`, the threshold reported as 0 while unset.
    pub fn observe(&self) -> (r: (u64, u64))
        ensures
            r.0 == (if self.alg_state == PragueAlgState::SlowStart { 0u64 } else { 1u64 }),
            r.1 == (if self.ssthresh == u64::MAX { 0 } else { self.ssthresh }),
    {
        let cc_state: u64 = match self.alg_state {
            PragueAlgState::SlowStart => 0,
            PragueAlgState::CongestionAvoidance => 1,
        };
        let cc_param: u64 = if self.ssthresh == u64::MAX { 0 } else { self.ssthresh };
        (cc_state, cc_param)
    }
}

impl Default for PragueState {
    fn default() -> (r: PragueState)
        ensures
            r == (PragueState {
                alg_state: PragueAlgState::SlowStart,
                alpha: 0,
                residual_ack: 0,
                ssthresh: u64::MAX,
                recovery_stamp: 0,
                recovery_sequence: 0,
                l4s_update_sent: 0,
                l4s_epoch_send: 0,
                l4s_epoch_ect1: 0,
                l4s_epoch_ce: 0,
                l4s_packet_ect1: 0,
                l4s_packet_ce: 0,
            }),
    {
        PragueState {
            alg_state: PragueAlgState::SlowStart,
            alpha: 0,
            residual_ack: 0,
            ssthresh: u64::MAX,
            recovery_stamp: 0,
            recovery_sequence: 0,
            l4s_update_sent: 0,
            l4s_epoch_send: 0,
            l4s_epoch_ect1: 0,
            l4s_epoch_ce: 0,
            l4s_packet_ect1: 0,
            l4s_packet_ce: 0,
        }
    }
}

/// Counters Prague reads: the path's own space under multipath, else the
/// connection's application space.
pub open spec fn spec_prague_pkt_ctx(cnx: Connection, path_x: Path) -> PacketContextState {
    if cnx.is_multipath_enabled { path_x.pkt_ctx } else { cnx.pkt_ctx@[0] }
}

/// The packet-number-space counters Prague reads for ECN accounting.
pub fn prague_get_pkt_ctx(cnx: &Connection, path_x: &Path) -> (r: PacketContextState)
    ensures
        r == spec_prague_pkt_ctx(*cnx, *path_x),
{
    if cnx.is_multipath_enabled {
        path_x.pkt_ctx
    } else {
        cnx.pkt_ctx[0]
    }
}

/// Reset to slow start with no threshold, `alpha = 0`, initial window.
pub fn prague_init_reno(pr_state: &mut PragueState, path_x: &mut Path)
    ensures
        *final(pr_state) == (PragueState {
            alg_state: PragueAlgState::SlowStart,
            ssthresh: u64::MAX,
            alpha: 0,
            ..*old(pr_state)
        }),
        *final(path_x) == (Path { cwin: CWIN_INITIAL, ..*old(path_x) }),
{
    pr_state.alg_state = PragueAlgState::SlowStart;
    pr_state.ssthresh = u64::MAX;
    pr_state.alpha = 0;
    path_x.cwin = CWIN_INITIAL;
}

/// Restart the L4S measurement epoch at the current counters.
pub fn prague_reset_l3s(cnx: &Connection, pr_state: &mut PragueState, path_x: &Path)
    ensures
        *final(pr_state) == (PragueState {
            l4s_epoch_send: spec_prague_pkt_ctx(*cnx, *path_x).send_sequence,
            l4s_epoch_ect1: spec_prague_pkt_ctx(*cnx, *path_x).ecn_ect1_total_remote,
            l4s_epoch_ce: spec_prague_pkt_ctx(*cnx, *path_x).ecn_ce_total_remote,
            alpha: 0,
            ..*old(pr_state)
        }),
{
    let pkt_ctx = prague_get_pkt_ctx(cnx, path_x);
    pr_state.l4s_epoch_send = pkt_ctx.send_sequence;
    pr_state.l4s_epoch_ect1 = pkt_ctx.ecn_ect1_total_remote;
    pr_state.l4s_epoch_ce = pkt_ctx.ecn_ce_total_remote;
    pr_state.alpha = 0;
}

/// Reset Prague: Reno-compatible restart and a fresh L4S epoch.
pub fn prague_reset(cnx: &Connection, pr_state: &mut PragueState, path_x: &mut Path)
    ensures
        *final(pr_state) == (PragueState {
            alg_state: PragueAlgState::SlowStart,
            ssthresh: u64::MAX,
            alpha: 0,
            l4s_epoch_send: spec_prague_pkt_ctx(*cnx, *old(path_x)).send_sequence,
            l4s_epoch_ect1: spec_prague_pkt_ctx(*cnx, *old(path_x)).ecn_ect1_total_remote,
            l4s_epoch_ce: spec_prague_pkt_ctx(*cnx, *old(path_x)).ecn_ce_total_remote,
            ..*old(pr_state)
        }),
        *final(path_x) == (Path { cwin: CWIN_INITIAL, ..*old(path_x) }),
{
    prague_init_reno(pr_state, path_x);
    prague_reset_l3s(cnx, pr_state, path_x);
}

/// Start a new era at the current ECN counters and send sequence.
pub fn prague_initialize_era(cnx: &Connection, path_x: &Path, pr_state: &mut PragueState, current_time: Instant)
    ensures
        *final(pr_state) == (PragueState {
            l4s_epoch_ect1: spec_prague_pkt_ctx(*cnx, *path_x).ecn_ect1_total_remote,
            l4s_epoch_ce: spec_prague_pkt_ctx(*cnx, *path_x).ecn_ce_total_remote,
            recovery_stamp: current_time,
            recovery_sequence: spec_sequence_number(*cnx, *path_x),
            ..*old(pr_state)
        }),
{
    let pkt_ctx = prague_get_pkt_ctx(cnx, path_x);
    pr_state.l4s_epoch_ect1 = pkt_ctx.ecn_ect1_total_remote;
    pr_state.l4s_epoch_ce = pkt_ctx.ecn_ce_total_remote;
    pr_state.recovery_stamp = current_time;
    pr_state.recovery_sequence = if cnx.is_multipath_enabled {
        path_x.pkt_ctx.send_sequence
    } else {
        cnx.pkt_ctx[0].send_sequence
    };
}

/// Enter recovery: halve the window (not below the floor), continue in
/// congestion avoidance, start a new era.
pub fn prague_enter_recovery(cnx: &Connection, path_x: &mut Path, pr_state: &mut PragueState, current_time: Instant)
    ensures
        final(path_x).cwin == (if old(path_x).cwin / 2 > CWIN_MINIMUM { old(path_x).cwin / 2 } else { CWIN_MINIMUM }),
        *final(path_x) == (Path { cwin: final(path_x).cwin, ..*old(path_x) }),
        *final(pr_state) == (PragueState {
            ssthresh: final(path_x).cwin,
            alg_state: PragueAlgState::CongestionAvoidance,
            l4s_epoch_ect1: spec_prague_pkt_ctx(*cnx, *old(path_x)).ecn_ect1_total_remote,
            l4s_epoch_ce: spec_prague_pkt_ctx(*cnx, *old(path_x)).ecn_ce_total_remote,
            recovery_stamp: current_time,
            recovery_sequence: spec_sequence_number(*cnx, *old(path_x)),
            ..*old(pr_state)
        }),
{
    let half: u64 = path_x.cwin / 2;
    pr_state.ssthresh = if half > CWIN_MINIMUM { half } else { CWIN_MINIMUM };
    path_x.cwin = pr_state.ssthresh;
    pr_state.alg_state = PragueAlgState::CongestionAvoidance;
    prague_initialize_era(cnx, path_x, pr_state, current_time);
}

/// Saturating product.
pub open spec fn sat_mul(a: u64, b: u64) -> u64 {
    if a * b > u64::MAX { u64::MAX } else { (a * b) as u64 }
}

/// Saturating sum.
pub open spec fn sat_add(a: u64, b: u64) -> u64 {
    if a + b > u64::MAX { u64::MAX } else { (a + b) as u64 }
}

/// Fraction of CE marks in 1/1024 units.
pub open spec fn prague_frac(delta_ect1: u64, delta_ce: u64) -> u64 {
    if delta_ce > 0 { sat_mul(delta_ce, 1024) / sat_add(delta_ce, delta_ect1) } else { 0 }
}

/// The ECN fraction of the previous era, at most 1024.
proof fn lemma_prague_frac_bound(delta_ect1: u64, delta_ce: u64)
    ensures
        prague_frac(delta_ect1, delta_ce) <= 1024,
{
    if delta_ce > 0 {
        let m: int = sat_mul(delta_ce, 1024) as int;
        let s: int = sat_add(delta_ce, delta_ect1) as int;
        let d: int = delta_ce as int;
        assert(s >= d);
        assert(m <= d * 1024);
        assert(m / s <= m / d) by (nonlinear_arith)
            requires
                s >= d,
                d > 0,
                m >= 0,
        ;
        assert(m / d <= 1024) by (nonlinear_arith)
            requires
                m <= d * 1024,
                d > 0,
                m >= 0,
        ;
    }
}

/// `alpha` after an era with the given ECT(1) and CE deltas.
pub open spec fn spec_prague_alpha(pr: PragueState, path_x: Path, delta_ect1: u64, delta_ce: u64, now: u64) -> u64 {
    let frac0 = prague_frac(delta_ect1, delta_ce);
    let elapsed = if now >= pr.recovery_stamp { now - pr.recovery_stamp } else { 0 };
    let is_suspect = pr.l4s_update_sent != 0 && frac0 >= 512 && pr.alpha < 128 && elapsed > path_x.smoothed_rtt;
    let frac = if is_suspect { 128 } else { frac0 };
    if delta_ce > 0 || delta_ect1 > 0 {
        if frac > pr.alpha && (frac >= 512 || is_suspect) {
            frac
        } else {
            ((pr.alpha * 16 - pr.alpha + frac) / 16) as u64
        }
    } else {
        pr.alpha
    }
}

/// Update the ECN fraction `alpha` from the previous era's ECT(1) and CE
/// deltas: jump to the new fraction when it is high (or the era looks
/// suspicious), otherwise move one sixteenth of the way towards it.
pub fn prague_update_alpha(
    cnx: &Connection,
    path_x: &Path,
    pr_state: &mut PragueState,
    delta_ect1: u64,
    delta_ce: u64,
    current_time: Instant,
)
    requires
        old(pr_state).wf(),
    ensures
        final(pr_state).wf(),
        *final(pr_state) == (PragueState {
            alpha: spec_prague_alpha(*old(pr_state), *path_x, delta_ect1, delta_ce, current_time),
            ..*old(pr_state)
        }),
{
    proof {
        lemma_prague_frac_bound(delta_ect1, delta_ce);
    }
    let mut frac: u64 = if delta_ce > 0 {
        let m: u64 = if delta_ce > u64::MAX / 1024 { u64::MAX } else { delta_ce * 1024 };
        m / delta_ce.saturating_add(delta_ect1)
    } else {
        0
    };
    let mut is_suspect = false;
    let elapsed: u64 = current_time.saturating_sub(pr_state.recovery_stamp);
    if pr_state.l4s_update_sent != 0 && frac >= 512 && pr_state.alpha < 128 && elapsed > path_x.smoothed_rtt {
        is_suspect = true;
        frac = 128;
    }
    if delta_ce > 0 || delta_ect1 > 0 {
        if frac > pr_state.alpha && (frac >= 512 || is_suspect) {
            pr_state.alpha = frac;
        } else {
            let a: u64 = pr_state.alpha;
            assert((a << 4u64) == a * 16) by (bit_vector)
                requires
                    a <= 1024,
            ;
            let alpha_shifted: u64 = (a << 4u64) - a + frac;
            assert(alpha_shifted >> 4u64 == alpha_shifted / 16) by (bit_vector);
            pr_state.alpha = alpha_shifted >> 4u64;
        }
    }
}

/// Start Prague on a path: slow start, no threshold, initial window.
pub fn picoquic_prague_init(path_x: &mut Path) -> (r: PragueState)
    ensures
        r.wf(),
        r == (PragueState {
            alg_state: PragueAlgState::SlowStart,
            alpha: 0,
            residual_ack: 0,
            ssthresh: u64::MAX,
            recovery_stamp: 0,
            recovery_sequence: 0,
            l4s_update_sent: 0,
            l4s_epoch_send: 0,
            l4s_epoch_ect1: 0,
            l4s_epoch_ce: 0,
            l4s_packet_ect1: 0,
            l4s_packet_ce: 0,
        }),
        *final(path_x) == (Path { cwin: CWIN_INITIAL, ..*old(path_x) }),
{
    let mut state = PragueState::default();
    prague_init_reno(&mut state, path_x);
    state
}

/// Saturating difference.
pub open spec fn sat_sub(a: u64, b: u64) -> u64 {
    if a >= b { (a - b) as u64 } else { 0 }
}

/// Highest packet number acknowledged in the space Prague reads.
pub open spec fn spec_ack_number(cnx: Connection, path_x: Path) -> u64 {
    spec_prague_pkt_ctx(cnx, path_x).highest_acknowledged
}

/// ECT(1) and CE marks counted since the marks `(ect1, ce)`, when neither
/// counter is behind them.
pub open spec fn marks_since(pc: PacketContextState, ect1: u64, ce: u64) -> Option<(u64, u64)> {
    if pc.ecn_ect1_total_remote >= ect1 && pc.ecn_ce_total_remote >= ce {
        Some(((pc.ecn_ect1_total_remote - ect1) as u64, (pc.ecn_ce_total_remote - ce) as u64))
    } else {
        None
    }
}

/// The ECT(1) and CE marks acknowledged since Prague last counted marks
/// per packet; `None` when a counter is behind that count.
pub open spec fn spec_prague_packet_marks(cnx: Connection, path_x: Path, pr: PragueState) -> Option<(u64, u64)> {
    marks_since(spec_prague_pkt_ctx(cnx, path_x), pr.l4s_packet_ect1, pr.l4s_packet_ce)
}

/// The marks acknowledged since Prague last counted them per packet.
pub fn prague_packet_marks(cnx: &Connection, path_x: &Path, pr_state: &PragueState) -> (r: Option<(u64, u64)>)
    ensures
        r == spec_prague_packet_marks(*cnx, *path_x, *pr_state),
{
    let pc = prague_get_pkt_ctx(cnx, path_x);
    if pc.ecn_ect1_total_remote >= pr_state.l4s_packet_ect1 && pc.ecn_ce_total_remote >= pr_state.l4s_packet_ce {
        Some((pc.ecn_ect1_total_remote - pr_state.l4s_packet_ect1, pc.ecn_ce_total_remote - pr_state.l4s_packet_ce))
    } else {
        None
    }
}

/// Window and state after the end-of-era step of an ACK: once the ACK
/// passes the recovery sequence, marks seen in the era update `alpha` and
/// cut the window by `alpha / 2048` of itself (not below the floor, and
/// the threshold follows), and a new era starts.
pub open spec fn prague_after_era(cnx: Connection, path_x: Path, pr: PragueState, now: u64) -> (u64, PragueState) {
    let pc = spec_prague_pkt_ctx(cnx, path_x);
    if spec_ack_number(cnx, path_x) <= pr.recovery_sequence {
        (path_x.cwin, pr)
    } else {
        let (cwin1, pr1) = match marks_since(pc, pr.l4s_epoch_ect1, pr.l4s_epoch_ce) {
            Some(d) => if d.0 > 0 || d.1 > 0 {
                let a = spec_prague_alpha(pr, path_x, d.0, d.1, now);
                let c0 = sat_sub(path_x.cwin, sat_mul(path_x.cwin, a) / 2048);
                let c = if c0 > CWIN_MINIMUM { c0 } else { CWIN_MINIMUM };
                (c, PragueState { alpha: a, ssthresh: c, ..pr })
            } else {
                (path_x.cwin, pr)
            },
            None => (path_x.cwin, pr),
        };
        (
            cwin1,
            PragueState {
                l4s_epoch_ect1: pc.ecn_ect1_total_remote,
                l4s_epoch_ce: pc.ecn_ce_total_remote,
                recovery_stamp: now,
                recovery_sequence: spec_sequence_number(cnx, path_x),
                ..pr1
            },
        )
    }
}

/// Window after the additive increase of an ACK of `ack_bytes`: one
/// packet of `send_mtu` bytes per window acknowledged, while the mark
/// counters are not behind and the window is not empty.
pub open spec fn prague_after_increase(cwin: u64, cnx: Connection, path_x: Path, pr: PragueState, ack_bytes: u64) -> u64 {
    if spec_prague_packet_marks(cnx, path_x, pr) is Some && cwin > 0 {
        sat_add(cwin, sat_mul(path_x.send_mtu as u64, ack_bytes) / cwin)
    } else {
        cwin
    }
}

/// Cut the window by `alpha / 2048` of itself, not below the floor.
fn prague_cut(cwin: u64, alpha: u64) -> (r: u64)
    ensures
        r == (if sat_sub(cwin, sat_mul(cwin, alpha) / 2048) > CWIN_MINIMUM {
            sat_sub(cwin, sat_mul(cwin, alpha) / 2048)
        } else {
            CWIN_MINIMUM
        }),
{
    let m: u64 = match cwin.checked_mul(alpha) {
        Some(v) => v,
        None => u64::MAX,
    };
    let c: u64 = cwin.saturating_sub(m / 2048);
    if c > CWIN_MINIMUM { c } else { CWIN_MINIMUM }
}

/// An ACK while Prague is in congestion avoidance.  `ack_bytes` is the
/// number of bytes the ACK acknowledged, already scaled by the share of
/// ECT(1) among the marks counted since the last ACK when there are any
/// (a floating-point ratio, computed by the caller from
/// `prague_packet_marks`).  The era step of `prague_after_era` comes first,
/// then the increase of `prague_after_increase`.
pub fn picoquic_prague_process_ack(
    cnx: &Connection,
    path_x: &mut Path,
    pr_state: &mut PragueState,
    ack_bytes: u64,
    current_time: Instant,
)
    requires
        old(pr_state).wf(),
    ensures
        final(pr_state).wf(),
        *final(pr_state) == prague_after_era(*cnx, *old(path_x), *old(pr_state), current_time).1,
        *final(path_x) == (Path {
            cwin: prague_after_increase(
                prague_after_era(*cnx, *old(path_x), *old(pr_state), current_time).0,
                *cnx,
                *old(path_x),
                *old(pr_state),
                ack_bytes,
            ),
            ..*old(path_x)
        }),
{
    let pc = prague_get_pkt_ctx(cnx, path_x);
    let next_sequence = pc.highest_acknowledged;
    if next_sequence > pr_state.recovery_sequence {
        if pc.ecn_ect1_total_remote >= pr_state.l4s_epoch_ect1 && pc.ecn_ce_total_remote >= pr_state.l4s_epoch_ce {
            let delta_ect1 = pc.ecn_ect1_total_remote - pr_state.l4s_epoch_ect1;
            let delta_ce = pc.ecn_ce_total_remote - pr_state.l4s_epoch_ce;
            if delta_ce > 0 || delta_ect1 > 0 {
                prague_update_alpha(cnx, path_x, pr_state, delta_ect1, delta_ce, current_time);
                path_x.cwin = prague_cut(path_x.cwin, pr_state.alpha);
                pr_state.ssthresh = path_x.cwin;
            }
        }
        prague_initialize_era(cnx, path_x, pr_state, current_time);
    }
    if pc.ecn_ect1_total_remote >= pr_state.l4s_packet_ect1 && pc.ecn_ce_total_remote >= pr_state.l4s_packet_ce
        && path_x.cwin > 0 {
        let m: u64 = match (path_x.send_mtu as u64).checked_mul(ack_bytes) {
            Some(v) => v,
            None => u64::MAX,
        };
        path_x.cwin = path_x.cwin.saturating_add(m / path_x.cwin);
    }
}

/// Window and state after a slow-start acknowledgement: `target_cwin` is
/// the window estimate taken while no threshold is set, `increase` the
/// slow-start increase for the acknowledged bytes.  New CE marks enter
/// recovery; otherwise the window grows, and reaching the threshold starts
/// congestion avoidance with a new era.
pub open spec fn prague_after_start_ack(
    cnx: Connection,
    path_x: Path,
    pr: PragueState,
    target_cwin: u64,
    increase: u64,
    now: u64,
) -> (u64, PragueState) {
    let cwin = if pr.ssthresh == u64::MAX { target_cwin } else { path_x.cwin };
    let pc = spec_prague_pkt_ctx(cnx, path_x);
    let era = PragueState {
        l4s_epoch_ect1: pc.ecn_ect1_total_remote,
        l4s_epoch_ce: pc.ecn_ce_total_remote,
        recovery_stamp: now,
        recovery_sequence: spec_sequence_number(cnx, path_x),
        ..pr
    };
    if pc.ecn_ce_total_remote > pr.l4s_epoch_ce {
        let c = if cwin / 2 > CWIN_MINIMUM { (cwin / 2) as u64 } else { CWIN_MINIMUM };
        (c, PragueState { ssthresh: c, alg_state: PragueAlgState::CongestionAvoidance, ..era })
    } else {
        let c = sat_add(cwin, increase);
        if c >= pr.ssthresh {
            (c, PragueState { alg_state: PragueAlgState::CongestionAvoidance, ..era })
        } else {
            (c, pr)
        }
    }
}

/// Take an acknowledgement in slow start.
pub fn picoquic_prague_process_start_ack(
    cnx: &Connection,
    path_x: &mut Path,
    pr_state: &mut PragueState,
    target_cwin: u64,
    increase: u64,
    current_time: Instant,
)
    ensures
        *final(path_x) == (Path {
            cwin: prague_after_start_ack(*cnx, *old(path_x), *old(pr_state), target_cwin, increase, current_time).0,
            ..*old(path_x)
        }),
        *final(pr_state) == prague_after_start_ack(
            *cnx,
            *old(path_x),
            *old(pr_state),
            target_cwin,
            increase,
            current_time,
        ).1,
        old(pr_state).wf() ==> final(pr_state).wf(),
{
    let ce = prague_get_pkt_ctx(cnx, path_x).ecn_ce_total_remote;
    if pr_state.ssthresh == u64::MAX {
        path_x.cwin = target_cwin;
    }
    if ce > pr_state.l4s_epoch_ce {
        prague_enter_recovery(cnx, path_x, pr_state, current_time);
    } else {
        path_x.cwin = path_x.cwin.saturating_add(increase);
        if path_x.cwin >= pr_state.ssthresh {
            pr_state.alg_state = PragueAlgState::CongestionAvoidance;
            prague_initialize_era(cnx, path_x, pr_state, current_time);
        }
    }
}

/// What Prague does with one notification.
#[derive(Debug, Copy, Clone, PartialEq, Eq, Structural)]
pub enum PragueStep {
    /// An acknowledgement in slow start.
    StartAck,
    /// An acknowledgement in congestion avoidance.
    ProcessAck,
    /// A loss that enters recovery.
    EnterRecovery,
    /// An RTT sample tested for an exit from slow start.
    HystartCheck,
    /// Start the controller over.
    Reset,
    /// Nothing.
    Nothing,
}

/// The step for `n`: a repeat enters recovery only when the loss test
/// passed (`loss_test`) and more than a smoothed RTT has gone by since the
/// last recovery; RTT samples matter only in unbounded slow start; ECN
/// echoes, timeouts and spurious repeats change nothing.
pub open spec fn spec_prague_step(pr: PragueState, path_x: Path, n: CongestionNotification, loss_test: bool, now: u64) -> PragueStep {
    if n == CongestionNotification::Acknowledgement {
        if pr.alg_state == PragueAlgState::SlowStart { PragueStep::StartAck } else { PragueStep::ProcessAck }
    } else if n == CongestionNotification::Repeat && loss_test && sat_sub(now, pr.recovery_stamp) > path_x.smoothed_rtt {
        PragueStep::EnterRecovery
    } else if n == CongestionNotification::RttMeasurement && pr.alg_state == PragueAlgState::SlowStart && pr.ssthresh
        == u64::MAX {
        PragueStep::HystartCheck
    } else if n == CongestionNotification::Reset {
        PragueStep::Reset
    } else {
        PragueStep::Nothing
    }
}

/// Decide what Prague does with `notification`; `loss_test` is what the
/// loss filter said of a repeat.
pub fn prague_notify_step(
    pr: &PragueState,
    path_x: &Path,
    notification: CongestionNotification,
    loss_test: bool,
    current_time: Instant,
) -> (r: PragueStep)
    ensures
        r == spec_prague_step(*pr, *path_x, notification, loss_test, current_time),
{
    match notification {
        CongestionNotification::Acknowledgement => if pr.alg_state == PragueAlgState::SlowStart {
            PragueStep::StartAck
        } else {
            PragueStep::ProcessAck
        },
        CongestionNotification::Repeat => if loss_test && current_time.saturating_sub(pr.recovery_stamp)
            > path_x.smoothed_rtt {
            PragueStep::EnterRecovery
        } else {
            PragueStep::Nothing
        },
        CongestionNotification::RttMeasurement => if pr.alg_state == PragueAlgState::SlowStart && pr.ssthresh
            == u64::MAX {
            PragueStep::HystartCheck
        } else {
            PragueStep::Nothing
        },
        CongestionNotification::Reset => PragueStep::Reset,
        _ => PragueStep::Nothing,
    }
}

/// Leave slow start on a delay increase: the threshold becomes the path's
/// window, which is marked as initialized.
pub fn prague_hystart_exit(pr_state: &mut PragueState, path_x: &mut Path)
    ensures
        *final(pr_state) == (PragueState {
            ssthresh: old(path_x).cwin,
            alg_state: PragueAlgState::CongestionAvoidance,
            ..*old(pr_state)
        }),
        *final(path_x) == (Path { is_ssthresh_initialized: true, ..*old(path_x) }),
        old(pr_state).wf() ==> final(pr_state).wf(),
{
    pr_state.ssthresh = path_x.cwin;
    pr_state.alg_state = PragueAlgState::CongestionAvoidance;
    path_x.is_ssthresh_initialized = true;
}


/// An ACK that ends an era in which ECT(1) marks were counted and no CE
/// mark was lets alpha decay by a sixteenth, to `15 * alpha / 16`, and cuts
/// the window by `alpha / 2048` of itself (the new alpha), not below the
/// floor; the threshold follows the window and a new era starts.
pub proof fn law_prague_ect1_era_decays_alpha(cnx: Connection, p: Path, pr: PragueState, now: u64)
    requires
        pr.wf(),
        spec_ack_number(cnx, p) > pr.recovery_sequence,
        spec_prague_pkt_ctx(cnx, p).ecn_ect1_total_remote > pr.l4s_epoch_ect1,
        spec_prague_pkt_ctx(cnx, p).ecn_ce_total_remote == pr.l4s_epoch_ce,
        p.cwin * pr.alpha <= u64::MAX,
    ensures
        ({
            let r = prague_after_era(cnx, p, pr, now);
            let a = (15 * pr.alpha) / 16;
            let cut = p.cwin - (p.cwin * a) / 2048;
            &&& r.1.alpha == a
            &&& r.0 == (if cut > CWIN_MINIMUM { cut } else { CWIN_MINIMUM as int })
            &&& r.1.ssthresh == r.0
            &&& r.1.l4s_epoch_ect1 == spec_prague_pkt_ctx(cnx, p).ecn_ect1_total_remote
            &&& r.1.l4s_epoch_ce == spec_prague_pkt_ctx(cnx, p).ecn_ce_total_remote
            &&& r.1.recovery_stamp == now
            &&& r.1.recovery_sequence == spec_sequence_number(cnx, p)
        }),
{
    let a = (15 * pr.alpha) / 16;
    assert(a <= pr.alpha);
    assert(p.cwin * a <= p.cwin * pr.alpha) by (nonlinear_arith)
        requires
            a <= pr.alpha,
    ;
    assert((p.cwin * a) / 2048 <= p.cwin) by (nonlinear_arith)
        requires
            a <= 1024,
    ;
}

/// An ACK that ends an era in which only CE marks were counted sets alpha
/// to its full value (1024) and halves the window, not below the floor
/// (for an era that did not look suspicious: no L4S update was sent).
pub proof fn law_prague_ce_era_halves_window(cnx: Connection, p: Path, pr: PragueState, now: u64)
    requires
        pr.wf(),
        pr.l4s_update_sent == 0,
        spec_ack_number(cnx, p) > pr.recovery_sequence,
        spec_prague_pkt_ctx(cnx, p).ecn_ect1_total_remote == pr.l4s_epoch_ect1,
        spec_prague_pkt_ctx(cnx, p).ecn_ce_total_remote > pr.l4s_epoch_ce,
        (spec_prague_pkt_ctx(cnx, p).ecn_ce_total_remote - pr.l4s_epoch_ce) * 1024 <= u64::MAX,
        p.cwin * 1024 <= u64::MAX,
    ensures
        ({
            let r = prague_after_era(cnx, p, pr, now);
            let cut = p.cwin - (p.cwin / 2);
            &&& r.1.alpha == 1024
            &&& r.0 == (if cut > CWIN_MINIMUM { cut } else { CWIN_MINIMUM as int })
            &&& r.1.ssthresh == r.0
        }),
{
    let d: int = spec_prague_pkt_ctx(cnx, p).ecn_ce_total_remote - pr.l4s_epoch_ce;
    assert((d * 1024) / d == 1024) by (nonlinear_arith)
        requires
            d > 0,
    ;
    assert((p.cwin * 1024) / 2048 == p.cwin / 2) by (nonlinear_arith);
}

/// An ACK that ends an era without any new mark starts a new era and
/// leaves alpha, the window and the threshold as they were.
pub proof fn law_prague_quiet_era_keeps_window(cnx: Connection, p: Path, pr: PragueState, now: u64)
    requires
        spec_ack_number(cnx, p) > pr.recovery_sequence,
        spec_prague_pkt_ctx(cnx, p).ecn_ect1_total_remote == pr.l4s_epoch_ect1,
        spec_prague_pkt_ctx(cnx, p).ecn_ce_total_remote == pr.l4s_epoch_ce,
    ensures
        ({
            let r = prague_after_era(cnx, p, pr, now);
            &&& r.0 == p.cwin
            &&& r.1.alpha == pr.alpha
            &&& r.1.ssthresh == pr.ssthresh
            &&& r.1.recovery_stamp == now
            &&& r.1.recovery_sequence == spec_sequence_number(cnx, p)
        }),
{
}

/// An ACK that does not pass the recovery sequence leaves the era, alpha
/// and the window alone.
pub proof fn law_prague_ack_within_era_changes_nothing(cnx: Connection, p: Path, pr: PragueState, now: u64)
    requires
        spec_ack_number(cnx, p) <= pr.recovery_sequence,
    ensures
        prague_after_era(cnx, p, pr, now) == (p.cwin, pr),
{
}


/// An ACK that ends an era in which CE marks were under half of the marks
/// counted moves alpha a sixteenth of the way towards that share (in 1024ths),
/// to `(15 * alpha + share) / 16`, and cuts the window by the new
/// `alpha / 2048` of itself, not below the floor (for an era that did not
/// look suspicious: no L4S update was sent).
pub proof fn law_prague_mixed_era_moves_alpha(cnx: Connection, p: Path, pr: PragueState, now: u64)
    requires
        pr.wf(),
        pr.l4s_update_sent == 0,
        spec_ack_number(cnx, p) > pr.recovery_sequence,
        spec_prague_pkt_ctx(cnx, p).ecn_ect1_total_remote >= pr.l4s_epoch_ect1,
        spec_prague_pkt_ctx(cnx, p).ecn_ce_total_remote >= pr.l4s_epoch_ce,
        ({
            let de = spec_prague_pkt_ctx(cnx, p).ecn_ect1_total_remote - pr.l4s_epoch_ect1;
            let dc = spec_prague_pkt_ctx(cnx, p).ecn_ce_total_remote - pr.l4s_epoch_ce;
            &&& dc > 0
            &&& 2 * dc < dc + de
            &&& dc * 1024 <= u64::MAX
            &&& dc + de <= u64::MAX
        }),
        p.cwin * 1024 <= u64::MAX,
    ensures
        ({
            let r = prague_after_era(cnx, p, pr, now);
            let de = spec_prague_pkt_ctx(cnx, p).ecn_ect1_total_remote - pr.l4s_epoch_ect1;
            let dc = spec_prague_pkt_ctx(cnx, p).ecn_ce_total_remote - pr.l4s_epoch_ce;
            let share = (dc * 1024) / (dc + de);
            let a = (15 * pr.alpha + share) / 16;
            let cut = p.cwin - (p.cwin * a) / 2048;
            &&& share < 512
            &&& r.1.alpha == a
            &&& r.0 == (if cut > CWIN_MINIMUM { cut } else { CWIN_MINIMUM as int })
            &&& r.1.ssthresh == r.0
        }),
{
    let de: int = spec_prague_pkt_ctx(cnx, p).ecn_ect1_total_remote - pr.l4s_epoch_ect1;
    let dc: int = spec_prague_pkt_ctx(cnx, p).ecn_ce_total_remote - pr.l4s_epoch_ce;
    let share: int = (dc * 1024) / (dc + de);
    assert(share < 512) by (nonlinear_arith)
        requires
            dc > 0,
            2 * dc < dc + de,
            share == (dc * 1024) / (dc + de),
    ;
    let a: int = (15 * pr.alpha + share) / 16;
    assert(0 <= share);
    assert(a <= 1024);
    assert(p.cwin * a <= p.cwin * 1024) by (nonlinear_arith)
        requires
            0 <= a <= 1024,
    ;
    assert((p.cwin * a) / 2048 <= p.cwin) by (nonlinear_arith)
        requires
            0 <= a <= 1024,
    ;
}

/// The increase of an ACK in congestion avoidance: one `send_mtu` per
/// window of `ack_bytes` acknowledged, that is `send_mtu * ack_bytes /
/// cwin` more bytes, while the mark counters are not behind and the
/// window is not empty; otherwise the window stays.
pub proof fn law_prague_increase_is_one_packet_per_window(
    cwin: u64,
    cnx: Connection,
    p: Path,
    pr: PragueState,
    ack_bytes: u64,
)
    requires
        (p.send_mtu as u64) * ack_bytes <= u64::MAX,
        cwin > 0 ==> cwin + (p.send_mtu as u64) * ack_bytes / (cwin as int) <= u64::MAX,
    ensures
        spec_prague_packet_marks(cnx, p, pr) is Some && cwin > 0 ==> prague_after_increase(cwin, cnx, p, pr, ack_bytes)
            == cwin + (p.send_mtu as u64) * ack_bytes / (cwin as int),
        spec_prague_packet_marks(cnx, p, pr) is None || cwin == 0 ==> prague_after_increase(cwin, cnx, p, pr, ack_bytes)
            == cwin,
        prague_after_increase(cwin, cnx, p, pr, ack_bytes) >= cwin,
{
}

} // verus!
