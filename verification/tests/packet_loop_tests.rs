use fq::packet_loop::{packet_loop_step, PacketLoopAction, PacketLoopEvent, PACKET_LOOP_RECV_MAX};
use fq::packet_loop::{
    af_for_addr, loopback_addr, monitor_system_call_duration, packets_in_send, select_send_socket, unspecified_addr,
    LoopOptions, LoopParam, SocketSlot, SystemCallDuration, TimeCheckArg, AF_INET, AF_INET6,
};
use fq::types::SocketAddr;

#[test]
fn first_call_sets_max_and_notifies() {
    let mut scd = SystemCallDuration::default();
    assert!(monitor_system_call_duration(&mut scd, 1_000_500, 1_000_000));
    assert_eq!(scd.scd_max, 500);
    assert_eq!(scd.scd_last, 0);
    assert_eq!(scd.scd_smoothed, 500 / 16);
    // dev = |0 - 500| = 500; (7*0 + 500) / 8
    assert_eq!(scd.scd_dev, 62);
}

#[test]
fn small_change_is_quiet() {
    let mut scd = SystemCallDuration { scd_last: 100, scd_max: 1000, scd_smoothed: 100, scd_dev: 0 };
    // duration 100 == last: no notification.
    assert!(!monitor_system_call_duration(&mut scd, 200, 100));
    assert_eq!(scd.scd_smoothed, 100);
    // duration 0 after 100: delta = 100, within a millisecond and not below last: quiet.
    let mut scd2 = SystemCallDuration { scd_last: 100, scd_max: 1000, scd_smoothed: 100, scd_dev: 0 };
    assert!(!monitor_system_call_duration(&mut scd2, 150, 150));
    assert_eq!(scd2.scd_last, 0);
    // duration 150 after 100: delta = -50 is below last: reported.
    let mut scd3 = SystemCallDuration { scd_last: 100, scd_max: 1000, scd_smoothed: 100, scd_dev: 0 };
    assert!(monitor_system_call_duration(&mut scd3, 150, 0));
    assert_eq!(scd3.scd_last, 150);
}

#[test]
fn drop_in_duration_notifies() {
    let mut scd = SystemCallDuration { scd_last: 100, scd_max: 1000, scd_smoothed: 100, scd_dev: 16 };
    // duration 50: delta = 50 < last = 100 → notify.
    assert!(monitor_system_call_duration(&mut scd, 50, 0));
    assert_eq!(scd.scd_last, 50);
    assert_eq!(scd.scd_smoothed, (50 + 15 * 100) / 16);
    assert_eq!(scd.scd_dev, (7 * 16 + 50) / 8);
}

#[test]
fn clock_going_back_counts_as_zero() {
    let mut scd = SystemCallDuration { scd_last: 5, scd_max: 10, scd_smoothed: 0, scd_dev: 0 };
    monitor_system_call_duration(&mut scd, 10, 20);
    assert_eq!(scd.scd_last, 0);
}

#[test]
fn families_and_addresses() {
    assert_eq!(af_for_addr(&SocketAddr::V4 { ip4: 1, port: 2 }), AF_INET);
    assert_eq!(af_for_addr(&SocketAddr::V6 { ip6: 1, port: 2 }), AF_INET6);
    assert_eq!(loopback_addr(AF_INET, 443), Some(SocketAddr::V4 { ip4: 0x7f00_0001, port: 443 }));
    assert_eq!(loopback_addr(AF_INET6, 443), Some(SocketAddr::V6 { ip6: 1, port: 443 }));
    assert_eq!(loopback_addr(7, 443), None);
    assert_eq!(unspecified_addr(AF_INET6, 5), SocketAddr::V6 { ip6: 0, port: 5 });
    assert_eq!(unspecified_addr(0, 5), SocketAddr::V4 { ip4: 0, port: 5 });
}

#[test]
fn send_socket_choice() {
    let slots = [
        SocketSlot { af: AF_INET, port: 4433, is_open: true },
        SocketSlot { af: AF_INET6, port: 4433, is_open: true },
        SocketSlot { af: AF_INET, port: 5000, is_open: true },
        SocketSlot { af: AF_INET, port: 6000, is_open: false },
    ];
    let v4 = SocketAddr::V4 { ip4: 0x0a00_0001, port: 80 };
    let v6 = SocketAddr::V6 { ip6: 5, port: 80 };
    // No source port asked: the first socket of the family.
    assert_eq!(select_send_socket(&slots, 4, &v4, 0, false), Some(0));
    assert_eq!(select_send_socket(&slots, 4, &v6, 0, false), Some(1));
    // A source port: the socket bound to it.
    assert_eq!(select_send_socket(&slots, 4, &v4, 5000, false), Some(2));
    // No socket has the port: the last open one of the family.
    assert_eq!(select_send_socket(&slots, 4, &v4, 7000, false), Some(2));
    // Prefer the extra socket: keep scanning.
    assert_eq!(select_send_socket(&slots, 4, &v4, 0, true), Some(2));
    // Only the first socket available.
    assert_eq!(select_send_socket(&slots, 1, &v6, 0, false), None);
}

#[test]
fn datagrams_per_send() {
    assert_eq!(packets_in_send(3000, 0), 1);
    assert_eq!(packets_in_send(3000, 1000), 3);
    assert_eq!(packets_in_send(3001, 1000), 4);
    assert_eq!(packets_in_send(999, 1000), 1);
    assert_eq!(packets_in_send(0, 1000), 0);
}

#[test]
fn defaults() {
    let p = LoopParam::default();
    assert_eq!(p.local_port, 0);
    assert!(!p.simulate_eio);
    assert_eq!(p.send_length_max, 0);
    let o = LoopOptions::default();
    assert!(!o.do_time_check);
    let t = TimeCheckArg::default();
    assert_eq!(t.delta_t, 0);
}

fn loop_state() -> fq::packet_loop::PacketLoopState {
    fq::packet_loop::PacketLoopState {
        loop_immediate: false,
        nb_loop_immediate: 0,
        nb_sockets: 4,
        nb_sockets_available: 4,
        gso_enabled: true,
        nb_packets_sent: 0,
        bytes_sent: 0,
        send_length_max: 0,
    }
}

#[test]
fn packet_loop_step_waits_and_receives() {
    let s = loop_state();
    let (s, a) = packet_loop_step(s, PacketLoopEvent::Turn { wake_delay: 5000, time_check_delay: Some(300) }, false);
    assert_eq!(a, PacketLoopAction::Wait { delta_t: 300 });
    assert_eq!(s.nb_loop_immediate, 1);
    let (s, a) = packet_loop_step(s, PacketLoopEvent::Received { simulate_nat: false }, false);
    assert_eq!(a, PacketLoopAction::ReceiveAgain);
    assert!(s.loop_immediate);
    let (mut s, a) = packet_loop_step(s, PacketLoopEvent::Turn { wake_delay: 5000, time_check_delay: None }, false);
    assert_eq!(a, PacketLoopAction::Wait { delta_t: 0 });
    assert_eq!(s.nb_loop_immediate, 2);
    // After the most receptions in a row, sending comes next.
    s.nb_loop_immediate = PACKET_LOOP_RECV_MAX;
    let (s, a) = packet_loop_step(s, PacketLoopEvent::Received { simulate_nat: false }, false);
    assert_eq!(a, PacketLoopAction::PrepareNext);
    assert!(!s.loop_immediate);
    // A simulated NAT rebinding halves the sockets in use.
    let (s, a) = packet_loop_step(s, PacketLoopEvent::Received { simulate_nat: true }, true);
    assert_eq!(a, PacketLoopAction::PrepareNext);
    assert_eq!(s.nb_sockets_available, 2);
}

#[test]
fn packet_loop_step_sends() {
    let s = loop_state();
    let (s, _) = packet_loop_step(s, PacketLoopEvent::NothingReceived, false);
    let (s, a) = packet_loop_step(s, PacketLoopEvent::Prepared { send_length: 3000, send_msg_size: Some(1200) }, false);
    assert_eq!(a, PacketLoopAction::Send { msg_size: 1200 });
    assert_eq!((s.nb_packets_sent, s.bytes_sent, s.send_length_max), (3, 3000, 3000));
    let (s, a) = packet_loop_step(s, PacketLoopEvent::SegmentedSendFailed, false);
    assert_eq!(a, PacketLoopAction::PrepareNext);
    assert!(!s.gso_enabled);
    let (s, a) = packet_loop_step(s, PacketLoopEvent::Prepared { send_length: 1000, send_msg_size: Some(500) }, false);
    assert_eq!(a, PacketLoopAction::Send { msg_size: 0 });
    assert_eq!((s.nb_packets_sent, s.bytes_sent, s.send_length_max), (4, 4000, 3000));
    let (_, a) = packet_loop_step(s, PacketLoopEvent::Prepared { send_length: 0, send_msg_size: None }, false);
    assert_eq!(a, PacketLoopAction::DoneSending);
}
