use fq::perflog::{PerflogColumn, PERF_LOG_MAX_ITEMS};

#[test]
fn columns_in_order() {
    let all = PerflogColumn::all();
    assert_eq!(all.len(), PERF_LOG_MAX_ITEMS);
    for (i, c) in all.iter().enumerate() {
        assert_eq!(c.index(), i);
    }
    assert_eq!(all[0], PerflogColumn::IsClient);
    assert_eq!(all[26], PerflogColumn::PacingRate);
}

#[test]
fn param_names() {
    assert_eq!(PerflogColumn::IsClient.param_name(), "is_client");
    assert_eq!(PerflogColumn::NbRetransmissionTotal.param_name(), "retrans.");
    assert_eq!(PerflogColumn::PacingQuantumMax.param_name(), "p_quantum");
    assert_eq!(PerflogColumn::PacingRate.param_name(), "p_rate");
    let names: Vec<&str> = PerflogColumn::all().iter().map(|c| c.param_name()).collect();
    assert_eq!(names.join(","), "is_client,pkt_recv,trains_s,t_short,tb_cwin,tb_pacing,tb_others,pkt_sent,retrans.,spurious,delayed_ack_option,min_ack_delay_remote,max_ack_delay_remote,max_ack_gap_remote,min_ack_delay_local,max_ack_delay_local,max_ack_gap_local,max_mtu_sent,max_mtu_received,zero_rtt,srtt,minrtt,cwin,ccalgo,bwe_max,p_quantum,p_rate");
}
