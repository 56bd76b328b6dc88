//! The decisions of the UDP packet loop that do not touch a socket: its
//! parameters and options, system-call timing statistics, the choice of
//! the socket a datagram leaves from, and address helpers.

use vstd::prelude::*;
use crate::types::{Instant, SocketAddr};

verus! {

/// Address family number of IPv4 sockets.
pub const AF_INET: i32 = 2;

/// Address family number of IPv6 sockets.
pub const AF_INET6: i32 = 10;

/// Longest wait of one loop iteration (microseconds).
pub const PACKET_LOOP_DELAY_MAX: i64 = 10_000_000;

/// Most sockets one loop drives.
pub const PACKET_LOOP_SOCKETS_MAX: usize = 4;

/// Most datagrams received in a row before sending.
pub const PACKET_LOOP_RECV_MAX: usize = 10;

/// Most datagrams sent in one iteration.
pub const PACKET_LOOP_SEND_MAX: usize = 10;

/// Longest delay between iterations when there is data to send
/// (microseconds).
pub const PACKET_LOOP_SEND_DELAY_MAX: u64 = 2500;

/// Statistics of the duration of system calls that should not block.
#[derive(Debug, Copy, Clone, PartialEq, Eq, Structural)]
pub struct SystemCallDuration {
    pub scd_last: u64,
    pub scd_max: u64,
    pub scd_smoothed: u64,
    pub scd_dev: u64,
}

impl Default for SystemCallDuration {
    fn default() -> (r: SystemCallDuration)
        ensures
            r == (SystemCallDuration { scd_last: 0, scd_max: 0, scd_smoothed: 0, scd_dev: 0 }),
    {
        SystemCallDuration { scd_last: 0, scd_max: 0, scd_smoothed: 0, scd_dev: 0 }
    }
}

/// Argument of the time-check callback: the loop's time and the wait it
/// proposes, which the application may shorten.
#[derive(Debug, Copy, Clone, PartialEq, Eq, Structural)]
pub struct TimeCheckArg {
    pub current_time: Instant,
    pub delta_t: i64,
}

impl Default for TimeCheckArg {
    fn default() -> (r: TimeCheckArg)
        ensures
            r == (TimeCheckArg { current_time: 0, delta_t: 0 }),
    {
        TimeCheckArg { current_time: 0, delta_t: 0 }
    }
}

/// Callbacks the application asks the loop for.
#[derive(Debug, Copy, Clone, PartialEq, Eq, Structural)]
pub struct LoopOptions {
    pub do_time_check: bool,
    pub do_system_call_duration: bool,
    pub provide_alt_port: bool,
}

impl Default for LoopOptions {
    fn default() -> (r: LoopOptions)
        ensures
            r == (LoopOptions { do_time_check: false, do_system_call_duration: false, provide_alt_port: false }),
    {
        LoopOptions { do_time_check: false, do_system_call_duration: false, provide_alt_port: false }
    }
}

/// Parameters of a packet loop.
#[derive(Debug, Copy, Clone, PartialEq, Eq, Structural)]
pub struct LoopParam {
    pub local_port: u16,
    pub local_af: i32,
    pub dest_if: i32,
    pub public_port: u16,
    pub is_port_shared: bool,
    pub socket_buffer_size: i32,
    pub do_not_use_gso: bool,
    pub extra_socket_required: bool,
    pub prefer_extra_socket: bool,
    pub simulate_eio: bool,
    pub send_length_max: usize,
}

impl Default for LoopParam {
    fn default() -> (r: LoopParam)
        ensures
            r == (LoopParam {
                local_port: 0,
                local_af: 0,
                dest_if: 0,
                public_port: 0,
                is_port_shared: false,
                socket_buffer_size: 0,
                do_not_use_gso: false,
                extra_socket_required: false,
                prefer_extra_socket: false,
                simulate_eio: false,
                send_length_max: 0,
            }),
    {
        LoopParam {
            local_port: 0,
            local_af: 0,
            dest_if: 0,
            public_port: 0,
            is_port_shared: false,
            socket_buffer_size: 0,
            do_not_use_gso: false,
            extra_socket_required: false,
            prefer_extra_socket: false,
            simulate_eio: false,
            send_length_max: 0,
        }
    }
}

/// Duration of the call that ran from `previous_time` to `current_time`
/// (0 if the clock went back).
pub open spec fn spec_call_duration(current_time: u64, previous_time: u64) -> u64 {
    if current_time >= previous_time { (current_time - previous_time) as u64 } else { 0 }
}

/// Signed distance of the smoothed duration from the new one, as the
/// loop computes it on 64-bit signed numbers.
pub open spec fn spec_scd_delta(scd: SystemCallDuration, duration: u64) -> int {
    (scd.scd_smoothed as i64) as int - (duration as i64) as int
}

/// Absolute value.
pub open spec fn abs_int(x: int) -> int {
    if x < 0 { -x } else { x }
}

/// The statistics after a call of `duration`, and whether the duration is
/// worth reporting: a new maximum, or a change of more than a millisecond
/// (or a decrease beyond the last value) from the last one.
pub open spec fn spec_monitor_system_call(scd: SystemCallDuration, duration: u64) -> (SystemCallDuration, bool) {
    let dev = spec_scd_delta(scd, duration);
    let (max, last, notify) = if duration > scd.scd_max {
        (duration, scd.scd_last, true)
    } else if duration != scd.scd_last {
        let delta_d = (scd.scd_last as i64) as int - (duration as i64) as int;
        (scd.scd_max, duration, delta_d < -1000 || delta_d > 1000 || delta_d < (scd.scd_last as i64) as int)
    } else {
        (scd.scd_max, scd.scd_last, false)
    };
    (
        SystemCallDuration {
            scd_last: last,
            scd_max: max,
            scd_smoothed: ((duration + 15 * scd.scd_smoothed) / 16) as u64,
            scd_dev: ((7 * scd.scd_dev + abs_int(dev)) / 8) as u64,
        },
        notify,
    )
}

/// Update the system-call statistics with the call that ran from
/// `previous_time` to `current_time`; `true` when the application should
/// be told.  The `requires` leave out the inputs on which the loop's
/// fixed-width arithmetic would overflow.
pub fn monitor_system_call_duration(
    sc_duration: &mut SystemCallDuration,
    current_time: Instant,
    previous_time: Instant,
) -> (r: bool)
    requires
        ({
            let d = spec_call_duration(current_time, previous_time);
            let dev = spec_scd_delta(*old(sc_duration), d);
            &&& 15 * old(sc_duration).scd_smoothed + d <= u64::MAX
            &&& i64::MIN < dev <= i64::MAX
            &&& (old(sc_duration).scd_last as i64) as int - (d as i64) as int >= i64::MIN
            &&& (old(sc_duration).scd_last as i64) as int - (d as i64) as int <= i64::MAX
            &&& 7 * old(sc_duration).scd_dev + abs_int(dev) <= u64::MAX
        }),
    ensures
        (*final(sc_duration), r) == spec_monitor_system_call(
            *old(sc_duration),
            spec_call_duration(current_time, previous_time),
        ),
{
    let duration: u64 = current_time.saturating_sub(previous_time);
    let mut dev: i64 = sc_duration.scd_smoothed as i64 - duration as i64;
    let mut shall_notify = false;
    if duration > sc_duration.scd_max {
        shall_notify = true;
        sc_duration.scd_max = duration;
    } else if duration != sc_duration.scd_last {
        let delta_d: i64 = sc_duration.scd_last as i64 - duration as i64;
        if delta_d < -1000 || delta_d > 1000 || delta_d < sc_duration.scd_last as i64 {
            shall_notify = true;
        }
        sc_duration.scd_last = duration;
    }
    sc_duration.scd_smoothed = (duration + 15 * sc_duration.scd_smoothed) / 16;
    if dev < 0 {
        dev = -dev;
    }
    sc_duration.scd_dev = (7 * sc_duration.scd_dev + dev as u64) / 8;
    shall_notify
}

/// Address family of an address.
pub open spec fn spec_af_for_addr(addr: SocketAddr) -> i32 {
    match addr {
        SocketAddr::V4 { .. } => AF_INET,
        SocketAddr::V6 { .. } => AF_INET6,
    }
}

/// Address family of an address.
pub fn af_for_addr(addr: &SocketAddr) -> (r: i32)
    ensures
        r == spec_af_for_addr(*addr),
{
    match addr {
        SocketAddr::V4 { .. } => AF_INET,
        SocketAddr::V6 { .. } => AF_INET6,
    }
}

/// The loopback address of a family (127.0.0.1 or ::1) with `port`;
/// `None` for another family.
pub fn loopback_addr(af: i32, port: u16) -> (r: Option<SocketAddr>)
    ensures
        af == AF_INET ==> r == Some(SocketAddr::V4 { ip4: 0x7f00_0001, port }),
        af == AF_INET6 ==> r == Some(SocketAddr::V6 { ip6: 1, port }),
        af != AF_INET && af != AF_INET6 ==> r is None,
{
    if af == AF_INET {
        Some(SocketAddr::V4 { ip4: 0x7f00_0001, port })
    } else if af == AF_INET6 {
        Some(SocketAddr::V6 { ip6: 1, port })
    } else {
        None
    }
}

/// The unspecified address of a family with `port` (IPv4 for any family
/// but IPv6).
pub fn unspecified_addr(af: i32, port: u16) -> (r: SocketAddr)
    ensures
        af == AF_INET6 ==> r == (SocketAddr::V6 { ip6: 0, port }),
        af != AF_INET6 ==> r == (SocketAddr::V4 { ip4: 0, port }),
{
    if af == AF_INET6 {
        SocketAddr::V6 { ip6: 0, port }
    } else {
        SocketAddr::V4 { ip4: 0, port }
    }
}

/// What the loop knows of one of its sockets when choosing where a
/// datagram leaves from.
#[derive(Debug, Copy, Clone, PartialEq, Eq, Structural)]
pub struct SocketSlot {
    pub af: i32,
    pub port: u16,
    pub is_open: bool,
}

/// The socket chosen among `slots[k..n]`, `acc` being the one chosen
/// among the earlier slots: the last open slot of the right family, or
/// the first such slot that has the sending port (or any, when no port is
/// asked and the extra socket is not preferred).
pub open spec fn spec_select_from(
    slots: Seq<SocketSlot>,
    n: int,
    af: i32,
    send_port: u16,
    prefer_extra_socket: bool,
    k: int,
    acc: Option<int>,
) -> Option<int>
    decreases n - k,
{
    if k < 0 || k >= n || k >= slots.len() {
        acc
    } else if slots[k].af == af && slots[k].is_open {
        if (send_port == 0 && !prefer_extra_socket) || slots[k].port == send_port {
            Some(k)
        } else {
            spec_select_from(slots, n, af, send_port, prefer_extra_socket, k + 1, Some(k))
        }
    } else {
        spec_select_from(slots, n, af, send_port, prefer_extra_socket, k + 1, acc)
    }
}

/// Choose the socket a datagram to `addr_to` from port `send_port`
/// leaves from, among the first `nb_available` sockets.
pub fn select_send_socket(
    slots: &[SocketSlot],
    nb_available: usize,
    addr_to: &SocketAddr,
    send_port: u16,
    prefer_extra_socket: bool,
) -> (r: Option<usize>)
    ensures
        match spec_select_from(slots@, nb_available as int, spec_af_for_addr(*addr_to), send_port, prefer_extra_socket, 0, None) {
            Some(k) => r == Some(k as usize),
            None => r is None,
        },
{
    let af = af_for_addr(addr_to);
    let mut chosen: Option<usize> = None;
    let mut k: usize = 0;
    while k < nb_available && k < slots.len()
        invariant
            k <= slots@.len(),
            af == spec_af_for_addr(*addr_to),
            chosen matches Some(c) ==> c < k,
            spec_select_from(slots@, nb_available as int, af, send_port, prefer_extra_socket, 0, None)
                == spec_select_from(slots@, nb_available as int, af, send_port, prefer_extra_socket, k as int,
                match chosen {
                    Some(c) => Some(c as int),
                    None => None,
                }),
        decreases slots.len() - k,
    {
        let s = slots[k];
        if s.af == af && s.is_open {
            chosen = Some(k);
            if (send_port == 0 && !prefer_extra_socket) || s.port == send_port {
                return chosen;
            }
        }
        k = k + 1;
    }
    chosen
}

/// Datagrams in a send of `send_length` bytes cut in segments of
/// `msg_size` bytes (one when not segmented).
pub fn packets_in_send(send_length: usize, msg_size: usize) -> (r: usize)
    ensures
        msg_size == 0 ==> r == 1,
        msg_size > 0 ==> r == (send_length + msg_size - 1) / (msg_size as int),
{
    if msg_size == 0 {
        1
    } else {
        let q = send_length / msg_size;
        let rm = send_length % msg_size;
        proof {
            let x = send_length as int;
            let m = msg_size as int;
            assert(x == (x / m) * m + x % m) by (nonlinear_arith)
                requires
                    m > 0,
            ;
            assert(0 <= x % m < m) by (nonlinear_arith)
                requires
                    m > 0,
            ;
            if rm == 0 {
                vstd::arithmetic::div_mod::lemma_fundamental_div_mod_converse(x + m - 1, m, q as int, m - 1);
            } else {
                assert((q + 1) * m == q * m + m) by (nonlinear_arith);
                vstd::arithmetic::div_mod::lemma_fundamental_div_mod_converse(x + m - 1, m, q + 1, rm - 1);
                assert(q < x) by (nonlinear_arith)
                    requires
                        x == q * m + rm,
                        m >= 2,
                        0 < rm,
                        q >= 0,
                ;
            }
        }
        if rm == 0 { q } else { q + 1 }
    }
}

/// The decisions of a packet loop between one socket operation and the
/// next.
#[derive(Debug, Copy, Clone, PartialEq, Eq, Structural)]
pub struct PacketLoopState {
    /// Receive again at once, without waiting.
    pub loop_immediate: bool,
    /// Receptions in a row without waiting.
    pub nb_loop_immediate: usize,
    /// Sockets opened.
    pub nb_sockets: usize,
    /// Sockets in use.
    pub nb_sockets_available: usize,
    /// Sends may be segmented (GSO).
    pub gso_enabled: bool,
    /// Datagrams sent in this round of sending.
    pub nb_packets_sent: usize,
    /// Bytes sent in this round of sending.
    pub bytes_sent: usize,
    /// Largest send so far.
    pub send_length_max: usize,
}

/// What happened since the last step.
#[derive(Debug, Copy, Clone, PartialEq, Eq, Structural)]
pub enum PacketLoopEvent {
    /// A new turn of the loop: the context's delay until its next wake-up,
    /// and the delay the application asked for when it checks the time.
    Turn { wake_delay: i64, time_check_delay: Option<i64> },
    /// A datagram was received and handed to the stack; `simulate_nat`
    /// when the stack or the application asked to simulate a NAT rebinding.
    Received { simulate_nat: bool },
    /// The wait ended without a datagram.
    NothingReceived,
    /// The stack prepared a send of `send_length` bytes, in segments of
    /// `send_msg_size` bytes when it gives one.
    Prepared { send_length: usize, send_msg_size: Option<usize> },
    /// A segmented send failed with an I/O error and was sent again one
    /// segment at a time.
    SegmentedSendFailed,
}

/// What the loop does next.
#[derive(Debug, Copy, Clone, PartialEq, Eq, Structural)]
pub enum PacketLoopAction {
    /// Wait up to `delta_t` microseconds for a datagram or a wake-up.
    Wait { delta_t: i64 },
    /// Receive again without waiting.
    ReceiveAgain,
    /// Ask the stack for the next datagram to send.
    PrepareNext,
    /// Send the prepared datagram, cut in segments of `msg_size` bytes
    /// (0: not cut).
    Send { msg_size: usize },
    /// The round of sending is over.
    DoneSending,
}

/// The step of the packet loop for `event` in state `s`, with the loop's
/// parameter `extra_socket_required`.
pub open spec fn spec_packet_loop_step(s: PacketLoopState, event: PacketLoopEvent, extra_socket_required: bool) -> (
    PacketLoopState,
    PacketLoopAction,
) {
    match event {
        PacketLoopEvent::Turn { wake_delay, time_check_delay } => if !s.loop_immediate {
            let d = match time_check_delay {
                Some(t) => if t < wake_delay { t } else { wake_delay },
                None => wake_delay,
            };
            (PacketLoopState { loop_immediate: false, nb_loop_immediate: 1, ..s }, PacketLoopAction::Wait { delta_t: d })
        } else {
            (
                PacketLoopState { loop_immediate: false, nb_loop_immediate: (s.nb_loop_immediate + 1) as usize, ..s },
                PacketLoopAction::Wait { delta_t: 0 },
            )
        },
        PacketLoopEvent::Received { simulate_nat } => if !simulate_nat && s.nb_loop_immediate < PACKET_LOOP_RECV_MAX {
            (PacketLoopState { loop_immediate: true, ..s }, PacketLoopAction::ReceiveAgain)
        } else {
            let avail = if simulate_nat && extra_socket_required {
                (s.nb_sockets / 2) as usize
            } else {
                s.nb_sockets_available
            };
            (
                PacketLoopState { nb_sockets_available: avail, nb_packets_sent: 0, bytes_sent: 0, ..s },
                PacketLoopAction::PrepareNext,
            )
        },
        PacketLoopEvent::NothingReceived => (
            PacketLoopState { nb_packets_sent: 0, bytes_sent: 0, ..s },
            PacketLoopAction::PrepareNext,
        ),
        PacketLoopEvent::Prepared { send_length, send_msg_size } => if send_length == 0 {
            (s, PacketLoopAction::DoneSending)
        } else {
            let msg_size: usize = if s.gso_enabled {
                match send_msg_size {
                    Some(m) => m,
                    None => 0,
                }
            } else {
                0
            };
            let n: int = if msg_size == 0 { 1 } else { (send_length + msg_size - 1) / (msg_size as int) };
            (
                PacketLoopState {
                    nb_packets_sent: (s.nb_packets_sent + n) as usize,
                    bytes_sent: (s.bytes_sent + send_length) as usize,
                    send_length_max: if send_length > s.send_length_max { send_length } else { s.send_length_max },
                    ..s
                },
                PacketLoopAction::Send { msg_size },
            )
        },
        PacketLoopEvent::SegmentedSendFailed => (PacketLoopState { gso_enabled: false, ..s }, PacketLoopAction::PrepareNext),
    }
}

/// Decide the packet loop's next move: how long to wait at the start of a
/// turn (the wake delay, or the application's shorter one; no wait while
/// receiving in a row), whether to receive again (up to
/// `PACKET_LOOP_RECV_MAX` receptions in a row, not after a simulated NAT
/// rebinding, which halves the sockets in use when extra sockets were
/// required), and how to send what the stack prepared (segmented only
/// while GSO is on, counting datagrams, bytes and the largest send).
pub fn packet_loop_step(s: PacketLoopState, event: PacketLoopEvent, extra_socket_required: bool) -> (r: (
    PacketLoopState,
    PacketLoopAction,
))
    requires
        event is Turn && s.loop_immediate ==> s.nb_loop_immediate < usize::MAX,
        event matches PacketLoopEvent::Prepared { send_length, send_msg_size } ==> s.bytes_sent + send_length
            <= usize::MAX && s.nb_packets_sent + send_length <= usize::MAX,
    ensures
        r == spec_packet_loop_step(s, event, extra_socket_required),
{
    match event {
        PacketLoopEvent::Turn { wake_delay, time_check_delay } => {
            if !s.loop_immediate {
                let d = match time_check_delay {
                    Some(t) => if t < wake_delay { t } else { wake_delay },
                    None => wake_delay,
                };
                (PacketLoopState { loop_immediate: false, nb_loop_immediate: 1, ..s }, PacketLoopAction::Wait { delta_t: d })
            } else {
                (
                    PacketLoopState { loop_immediate: false, nb_loop_immediate: s.nb_loop_immediate + 1, ..s },
                    PacketLoopAction::Wait { delta_t: 0 },
                )
            }
        },
        PacketLoopEvent::Received { simulate_nat } => {
            if !simulate_nat && s.nb_loop_immediate < PACKET_LOOP_RECV_MAX {
                (PacketLoopState { loop_immediate: true, ..s }, PacketLoopAction::ReceiveAgain)
            } else {
                let avail = if simulate_nat && extra_socket_required {
                    s.nb_sockets / 2
                } else {
                    s.nb_sockets_available
                };
                (
                    PacketLoopState { nb_sockets_available: avail, nb_packets_sent: 0, bytes_sent: 0, ..s },
                    PacketLoopAction::PrepareNext,
                )
            }
        },
        PacketLoopEvent::NothingReceived => (
            PacketLoopState { nb_packets_sent: 0, bytes_sent: 0, ..s },
            PacketLoopAction::PrepareNext,
        ),
        PacketLoopEvent::Prepared { send_length, send_msg_size } => {
            if send_length == 0 {
                (s, PacketLoopAction::DoneSending)
            } else {
                let msg_size: usize = if s.gso_enabled {
                    match send_msg_size {
                        Some(m) => m,
                        None => 0,
                    }
                } else {
                    0
                };
                let n = packets_in_send(send_length, msg_size);
                proof {
                    if msg_size > 0 {
                        assert((send_length + msg_size - 1) / (msg_size as int) <= send_length) by (nonlinear_arith)
                            requires
                                msg_size >= 1,
                                send_length >= 1,
                        ;
                    }
                }
                (
                    PacketLoopState {
                        nb_packets_sent: s.nb_packets_sent + n,
                        bytes_sent: s.bytes_sent + send_length,
                        send_length_max: if send_length > s.send_length_max { send_length } else { s.send_length_max },
                        ..s
                    },
                    PacketLoopAction::Send { msg_size },
                )
            }
        },
        PacketLoopEvent::SegmentedSendFailed => (PacketLoopState { gso_enabled: false, ..s }, PacketLoopAction::PrepareNext),
    }
}

/// The loop's bound on receptions in a row: never more than
/// `PACKET_LOOP_RECV_MAX`, and receiving again only below it.
pub open spec fn receptions_bounded(s: PacketLoopState) -> bool {
    &&& s.nb_loop_immediate <= PACKET_LOOP_RECV_MAX
    &&& s.loop_immediate ==> s.nb_loop_immediate < PACKET_LOOP_RECV_MAX
}

/// Every step keeps the receptions in a row within
/// `PACKET_LOOP_RECV_MAX`, so the loop always comes back to sending.
pub proof fn law_receptions_in_a_row_bounded(s: PacketLoopState, event: PacketLoopEvent, extra_socket_required: bool)
    requires
        receptions_bounded(s),
    ensures
        receptions_bounded(spec_packet_loop_step(s, event, extra_socket_required).0),
{
}

/// Name the current thread.  Threads are not named by default.
pub fn internal_thread_setname(thread_name: &str) {
}

} // verus!
