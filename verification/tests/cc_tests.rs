use fq::cc::{
    baseline_cc_init, baseline_cc_notify, baseline_cc_observe, congestion_algorithm_table,
    congestion_control_algorithms, find_congestion_algorithm, get_congestion_algorithm, newreno_algorithm,
    picoquic_newreno_sim_enter_recovery, picoquic_prague_init, picoquic_prague_process_ack,
    picoquic_prague_process_start_ack, prague_enter_recovery, prague_hystart_exit, prague_notify_step, PragueStep,
    prague_packet_marks, prague_update_alpha,
    register_all_congestion_control_algorithms, register_congestion_control_algorithms,
    newreno_hystart_exit, newreno_notify_plan, newreno_take_simulator_cwin,
    CongestionAlgorithmRegistry, NewRenoAlgState, NewRenoNotifyPlan, NewRenoSimState, NewrenoState, PerAckState, PragueAlgState, PragueState,
};
use fq::cid::ConnectionId;
use fq::connection::Connection;
use fq::path::{Path, Tuple};
use fq::quic::{CWIN_INITIAL, CWIN_MINIMUM};
use fq::tp::TransportParameters;
use fq::types::{CongestionNotification, SocketAddr, ECN_ECT_1};

fn addr() -> SocketAddr {
    SocketAddr::V4 { ip4: 0x0a00_0001, port: 4433 }
}

fn path() -> Path {
    Path::new(0, Tuple::new(addr(), SocketAddr::unspecified(), 0), CWIN_INITIAL, 1252)
}

fn connection() -> Connection {
    Connection::new(
        ConnectionId::empty(),
        ConnectionId::empty(),
        addr(),
        TransportParameters::default(),
        0,
        true,
        CWIN_INITIAL,
        1252,
    )
}

#[test]
fn table_of_algorithms() {
    let t = congestion_algorithm_table();
    assert_eq!(t.len(), 10);
    let prague = find_congestion_algorithm(&t, "prague").unwrap();
    assert_eq!(prague.congestion_algorithm_number, 6);
    assert_eq!(prague.ecn_mark, ECN_ECT_1);
    assert!(find_congestion_algorithm(&t, "vegas").is_none());
    assert_eq!(find_congestion_algorithm(&t, "reno").unwrap().congestion_algorithm_number, 1);
    assert_eq!(newreno_algorithm().congestion_algorithm_id, "newreno");
}

#[test]
fn registry_first_registration_wins() {
    let mut reg = CongestionAlgorithmRegistry::new();
    assert!(congestion_control_algorithms(&reg).is_empty());
    assert!(get_congestion_algorithm(&reg, "newreno").is_none());
    register_congestion_control_algorithms(&mut reg, &[newreno_algorithm()]);
    register_all_congestion_control_algorithms(&mut reg);
    assert_eq!(congestion_control_algorithms(&reg).len(), 1);
    assert!(get_congestion_algorithm(&reg, "cubic").is_none());
    assert_eq!(get_congestion_algorithm(&reg, "newreno").unwrap().congestion_algorithm_number, 1);
}

#[test]
fn registry_all() {
    let mut reg = CongestionAlgorithmRegistry::new();
    register_all_congestion_control_algorithms(&mut reg);
    assert_eq!(congestion_control_algorithms(&reg).len(), 10);
    assert_eq!(get_congestion_algorithm(&reg, "c4").unwrap().congestion_algorithm_number, 8);
}

#[test]
fn baseline_window() {
    let mut p = path();
    p.cwin = 1;
    p.bytes_in_transit = 5;
    baseline_cc_init(&mut p);
    assert_eq!(baseline_cc_observe(&p), (CWIN_INITIAL, 0));
    let mut ack = PerAckState::default();
    ack.nb_bytes_acknowledged = 1000;
    baseline_cc_notify(&mut p, CongestionNotification::Acknowledgement, &ack);
    assert_eq!(p.cwin, CWIN_INITIAL + 1000);
    baseline_cc_notify(&mut p, CongestionNotification::Repeat, &ack);
    assert_eq!(p.cwin, (CWIN_INITIAL + 1000) / 2);
    p.cwin = 4000;
    baseline_cc_notify(&mut p, CongestionNotification::Timeout, &ack);
    assert_eq!(p.cwin, CWIN_MINIMUM);
}

#[test]
fn newreno_recovery() {
    let c = connection();
    let p = path();
    let mut nr = NewRenoSimState {
        alg_state: NewRenoAlgState::SlowStart,
        cwin: 100_000,
        ssthresh: u64::MAX,
        recovery_start: 0,
        recovery_sequence: 0,
        residual_ack: 7,
    };
    picoquic_newreno_sim_enter_recovery(&mut nr, &c, &p, CongestionNotification::Repeat, 1234);
    assert_eq!(nr.ssthresh, 50_000);
    assert_eq!(nr.cwin, 50_000);
    assert_eq!(nr.alg_state, NewRenoAlgState::CongestionAvoidance);
    assert_eq!(nr.recovery_start, 1234);
    assert_eq!(nr.residual_ack, 0);
    picoquic_newreno_sim_enter_recovery(&mut nr, &c, &p, CongestionNotification::Timeout, 2000);
    assert_eq!(nr.ssthresh, 25_000);
    assert_eq!(nr.cwin, CWIN_MINIMUM);
    assert_eq!(nr.alg_state, NewRenoAlgState::SlowStart);
    nr.cwin = 1000;
    picoquic_newreno_sim_enter_recovery(&mut nr, &c, &p, CongestionNotification::EcnEc, 3000);
    assert_eq!(nr.ssthresh, CWIN_MINIMUM);
}

#[test]
fn prague_lifecycle() {
    let c = connection();
    let mut p = path();
    p.cwin = 1;
    let mut st = picoquic_prague_init(&mut p);
    assert_eq!(p.cwin, CWIN_INITIAL);
    assert_eq!(st, PragueState::default());
    assert_eq!(st.observe(), (0, 0));
    p.cwin = 40_000;
    prague_enter_recovery(&c, &mut p, &mut st, 77);
    assert_eq!(p.cwin, 20_000);
    assert_eq!(st.ssthresh, 20_000);
    assert_eq!(st.alg_state, PragueAlgState::CongestionAvoidance);
    assert_eq!(st.recovery_stamp, 77);
    assert_eq!(st.observe(), (1, 20_000));
}

#[test]
fn prague_alpha_updates() {
    let c = connection();
    let p = path();
    let mut st = PragueState::default();
    // Half the packets marked: frac = 512, jumps directly.
    prague_update_alpha(&c, &p, &mut st, 10, 10, 0);
    assert_eq!(st.alpha, 512);
    // No mark at all: alpha decays by one sixteenth.
    prague_update_alpha(&c, &p, &mut st, 10, 0, 0);
    assert_eq!(st.alpha, (512 * 15) / 16);
    // Nothing observed: unchanged.
    let before = st.alpha;
    prague_update_alpha(&c, &p, &mut st, 0, 0, 0);
    assert_eq!(st.alpha, before);
    // All marked: alpha reaches 1024, never more.
    prague_update_alpha(&c, &p, &mut st, 0, 100, 0);
    assert_eq!(st.alpha, 1024);
    // Saturated counters: the fraction is computed on saturated numbers.
    prague_update_alpha(&c, &p, &mut st, 0, u64::MAX, 0);
    assert_eq!(st.alpha, (1024 * 15 + 1) / 16);
    assert!(st.alpha <= 1024);
}

#[test]
fn prague_ack_ends_era_and_grows_window() {
    let mut c = connection();
    c.pkt_ctx[0].highest_acknowledged = 10;
    c.pkt_ctx[0].ecn_ect1_total_remote = 10;
    c.pkt_ctx[0].ecn_ce_total_remote = 10;
    c.pkt_ctx[0].send_sequence = 20;
    let mut p = path();
    p.cwin = 40_000;
    let mut st = PragueState::default();
    st.alg_state = PragueAlgState::CongestionAvoidance;
    st.ssthresh = 30_000;
    st.recovery_sequence = 5;
    assert_eq!(prague_packet_marks(&c, &p, &st), Some((10, 10)));
    picoquic_prague_process_ack(&c, &mut p, &mut st, 3000, 99);
    // Half the packets of the era marked: alpha 512, window cut by a quarter.
    assert_eq!(st.alpha, 512);
    assert_eq!(st.ssthresh, 30_000);
    assert_eq!(st.l4s_epoch_ect1, 10);
    assert_eq!(st.l4s_epoch_ce, 10);
    assert_eq!(st.recovery_stamp, 99);
    assert_eq!(st.recovery_sequence, 20);
    // Then one MTU per window acknowledged: 1252 * 3000 / 30000.
    assert_eq!(p.cwin, 30_000 + 125);
    // Within the new era only the increase applies.
    picoquic_prague_process_ack(&c, &mut p, &mut st, 30_000, 100);
    assert_eq!(p.cwin, 30_125 + 1252 * 30_000 / 30_125);
    assert_eq!(st.recovery_stamp, 99);
    // A window cut never goes below the floor.
    c.pkt_ctx[0].highest_acknowledged = 30;
    c.pkt_ctx[0].ecn_ce_total_remote = 1000;
    p.cwin = 4000;
    picoquic_prague_process_ack(&c, &mut p, &mut st, 0, 200);
    assert_eq!(p.cwin, CWIN_MINIMUM);
}

fn newreno(alg_state: NewRenoAlgState, cwin: u64, ssthresh: u64) -> NewrenoState {
    NewrenoState {
        nrss: NewRenoSimState { alg_state, cwin, ssthresh, recovery_start: 0, recovery_sequence: 0, residual_ack: 0 },
    }
}

#[test]
fn newreno_notification_plans() {
    let unbounded = newreno(NewRenoAlgState::SlowStart, 20000, u64::MAX);
    let mut p = path();
    p.last_time_acked_data_frame_sent = 10;
    p.last_sender_limited_time = 20;
    let plan = newreno_notify_plan(&unbounded, &p, CongestionNotification::Acknowledgement);
    assert_eq!(plan, NewRenoNotifyPlan { reseed_cwin: true, run_simulator: false, hystart_check: false, reset: false });
    p.last_time_acked_data_frame_sent = 30;
    assert!(newreno_notify_plan(&unbounded, &p, CongestionNotification::Acknowledgement).run_simulator);
    let bounded = newreno(NewRenoAlgState::SlowStart, 20000, 40000);
    assert!(!newreno_notify_plan(&bounded, &p, CongestionNotification::Acknowledgement).reseed_cwin);
    for n in [
        CongestionNotification::SeedCwin,
        CongestionNotification::EcnEc,
        CongestionNotification::Repeat,
        CongestionNotification::Timeout,
        CongestionNotification::SpuriousRepeat,
    ] {
        assert_eq!(
            newreno_notify_plan(&bounded, &p, n),
            NewRenoNotifyPlan { reseed_cwin: false, run_simulator: true, hystart_check: false, reset: false }
        );
    }
    assert!(newreno_notify_plan(&unbounded, &p, CongestionNotification::RttMeasurement).hystart_check);
    assert!(!newreno_notify_plan(&bounded, &p, CongestionNotification::RttMeasurement).hystart_check);
    assert!(newreno_notify_plan(&bounded, &p, CongestionNotification::Reset).reset);
    assert_eq!(
        newreno_notify_plan(&bounded, &p, CongestionNotification::CwinBlocked),
        NewRenoNotifyPlan { reseed_cwin: false, run_simulator: false, hystart_check: false, reset: false }
    );
}

#[test]
fn newreno_window_updates() {
    let mut st = newreno(NewRenoAlgState::SlowStart, 30000, u64::MAX);
    let mut p = path();
    newreno_take_simulator_cwin(&st, &mut p, CongestionNotification::Repeat);
    assert_eq!(p.cwin, 30000);
    assert!(!p.is_ssthresh_initialized);
    newreno_take_simulator_cwin(&st, &mut p, CongestionNotification::SpuriousRepeat);
    assert!(p.is_ssthresh_initialized);
    let mut p = path();
    newreno_hystart_exit(&mut st, &mut p);
    assert_eq!(st.nrss.ssthresh, 30000);
    assert_eq!(st.nrss.alg_state, NewRenoAlgState::CongestionAvoidance);
    assert_eq!(p.cwin, 30000);
    assert!(p.is_ssthresh_initialized);
    assert!(!newreno_notify_plan(&st, &p, CongestionNotification::RttMeasurement).hystart_check);
}

#[test]
fn prague_slow_start_acks() {
    let mut c = connection();
    let mut p = path();
    let mut st = picoquic_prague_init(&mut p);
    // No threshold yet: the window starts from the target estimate and grows.
    picoquic_prague_process_start_ack(&c, &mut p, &mut st, 30_000, 1_500, 5);
    assert_eq!(p.cwin, 31_500);
    assert_eq!(st.alg_state, PragueAlgState::SlowStart);
    // Reaching the threshold starts congestion avoidance and a new era.
    st.ssthresh = 32_000;
    c.pkt_ctx[0].send_sequence = 44;
    picoquic_prague_process_start_ack(&c, &mut p, &mut st, 0, 1_000, 9);
    assert_eq!(p.cwin, 32_500);
    assert_eq!(st.alg_state, PragueAlgState::CongestionAvoidance);
    assert_eq!(st.recovery_stamp, 9);
    assert_eq!(st.recovery_sequence, 44);
    // New CE marks enter recovery instead.
    let mut p = path();
    let mut st = picoquic_prague_init(&mut p);
    c.pkt_ctx[0].ecn_ce_total_remote = 3;
    picoquic_prague_process_start_ack(&c, &mut p, &mut st, 40_000, 1_000, 12);
    assert_eq!(p.cwin, 20_000);
    assert_eq!(st.ssthresh, 20_000);
    assert_eq!(st.alg_state, PragueAlgState::CongestionAvoidance);
    assert_eq!(st.l4s_epoch_ce, 3);
    // The increase saturates.
    let mut p = path();
    let mut st = picoquic_prague_init(&mut p);
    c.pkt_ctx[0].ecn_ce_total_remote = 0;
    picoquic_prague_process_start_ack(&c, &mut p, &mut st, u64::MAX - 1, 10, 1);
    assert_eq!(p.cwin, u64::MAX);
}

#[test]
fn prague_notification_steps() {
    let mut p = path();
    let mut st = picoquic_prague_init(&mut p);
    p.smoothed_rtt = 100;
    assert_eq!(prague_notify_step(&st, &p, CongestionNotification::Acknowledgement, false, 0), PragueStep::StartAck);
    assert_eq!(prague_notify_step(&st, &p, CongestionNotification::RttMeasurement, false, 0), PragueStep::HystartCheck);
    assert_eq!(prague_notify_step(&st, &p, CongestionNotification::Repeat, true, 101), PragueStep::EnterRecovery);
    assert_eq!(prague_notify_step(&st, &p, CongestionNotification::Repeat, true, 100), PragueStep::Nothing);
    assert_eq!(prague_notify_step(&st, &p, CongestionNotification::Repeat, false, 500), PragueStep::Nothing);
    assert_eq!(prague_notify_step(&st, &p, CongestionNotification::Timeout, true, 500), PragueStep::Nothing);
    assert_eq!(prague_notify_step(&st, &p, CongestionNotification::EcnEc, true, 500), PragueStep::Nothing);
    assert_eq!(prague_notify_step(&st, &p, CongestionNotification::Reset, false, 0), PragueStep::Reset);
    p.cwin = 25_000;
    prague_hystart_exit(&mut st, &mut p);
    assert_eq!(st.ssthresh, 25_000);
    assert_eq!(st.alg_state, PragueAlgState::CongestionAvoidance);
    assert!(p.is_ssthresh_initialized);
    assert_eq!(prague_notify_step(&st, &p, CongestionNotification::Acknowledgement, false, 0), PragueStep::ProcessAck);
    assert_eq!(prague_notify_step(&st, &p, CongestionNotification::RttMeasurement, false, 0), PragueStep::Nothing);
}
