//! Error type, protocol constants, small enums and helpers shared by the
//! whole library.

use vstd::prelude::*;
use vstd::string::StringSliceAdditionalSpecFns;

verus! {

/// Library version string.
pub const VERSION: &'static str = "1.1.48.0";

/// Microseconds since an application-chosen epoch.
pub type Instant = u64;

/// A span of microseconds.
pub type Duration = u64;

/// Codes of the stack's internal error class that the library reports.
#[derive(Debug, Clone, Copy, PartialEq, Eq, Structural)]
pub enum InternalError {
    CnxidCheck,
    CannotChangeActiveContext,
    MigrationDisabled,
    PathNotReady,
    PathLimitExceeded,
    PathIdBlocked,
    PathCidBlocked,
    InvalidStreamId,
    StreamAlreadyClosed,
    CannotSetActiveStream,
    UnexpectedPacket,
    Detected,
    VersionNegotiation,
    VersionNegotiationSpoofed,
    VersionNotSupported,
    AeadCheck,
    AeadNotReady,
    InitialTooShort,
    InitialCidTooShort,
    PacketWrongVersion,
    PacketTooLong,
    PortBlocked,
    Retry,
    ServerBusy,
    ConnectionDeleted,
    CnxidSegment,
    Duplicate,
    Redirected,
    InvalidToken,
    RetryNeeded,
    StatelessReset,
    SendBufferTooSmall,
    PacketHeaderParsing,
}

/// Crate-level error type for fallible operations.
#[derive(Debug, Clone, Copy, PartialEq, Eq, Structural)]
pub enum Error {
    /// Catch-all for paths that collapse to a generic failure.
    Generic,
    /// Allocation failed.
    Memory,
    /// Caller supplied an invalid argument.
    InvalidArgument,
    /// A buffer the caller supplied was too small.
    BufferTooSmall,
    /// Caller-supplied file does not exist.
    NoSuchFile,
    /// Caller-supplied file was malformed.
    InvalidFile,
    /// Connection has been disconnected.
    Disconnected,
    /// Connection state didn't permit the requested operation.
    InvalidState,
    /// Operation produced or received a malformed QUIC frame.
    InvalidFrame,
    /// TLS / crypto error.
    Tls,
    /// Other QUIC protocol error, carrying its numeric code.
    Protocol(u64),
    /// An error of the stack's internal error class.
    Internal(InternalError),
}

pub const MAX_PACKET_SIZE: usize = 1536;
pub const INITIAL_MTU_IPV4: usize = 1252;
pub const INITIAL_MTU_IPV6: usize = 1232;
pub const RESET_SECRET_SIZE: usize = 16;
pub const RESET_PACKET_PAD_SIZE: usize = 23;
pub const RESET_PACKET_MIN_SIZE: usize = 39;
pub const MAX_CRYPTO_BUFFER_GAP: usize = 16384;
pub const LOG_PACKET_MAX_SEQUENCE: u32 = 100;
pub const RESERVED_IF_INDEX: u32 = 0x09cb8ed3;
pub const AES_128_GCM_SHA256: u16 = 0x1301;
pub const AES_256_GCM_SHA384: u16 = 0x1302;
pub const CHACHA20_POLY1305_SHA256: u16 = 0x1303;
pub const GROUP_SECP256R1: u16 = 23;
pub const ECN_ECT_0: u8 = 0x02;
pub const ECN_ECT_1: u8 = 0x01;
pub const ECN_CE: u8 = 0x03;
pub const NB_PACKET_CONTEXT: usize = 3;
pub const CONNECTION_ID_MIN_SIZE: usize = 0;
pub const CONNECTION_ID_MAX_SIZE: usize = 20;
pub const DEFAULT_STREAM_PRIORITY: u8 = 9;
pub const DATAGRAM_QUEUE_CAUTIOUS_LENGTH: usize = 1252;
pub const TLS_API_INIT_FLAGS_NO_OPENSSL: u64 = 1;
pub const TLS_API_INIT_FLAGS_NO_MINICRYPTO: u64 = 2;
pub const TLS_API_INIT_FLAGS_NO_FUSION: u64 = 4;

/// The 32-bit code made of four bytes in little-endian order.
pub open spec fn spec_fourcc(a: u8, b: u8, c: u8, d: u8) -> int {
    a + 256 * b + 65536 * c + 16777216 * d
}

/// Produces a 32-bit code from four bytes in little-endian order.
pub fn fourcc(a: u8, b: u8, c: u8, d: u8) -> (r: u32)
    ensures
        r == spec_fourcc(a, b, c, d),
{
    let r: u32 = (a as u32) | ((b as u32) << 8u32) | ((c as u32) << 16u32) | ((d as u32) << 24u32);
    assert(r == (a as u32) + 256 * (b as u32) + 65536 * (c as u32) + 16777216 * (d as u32)) by (bit_vector)
        requires
            r == (a as u32) | ((b as u32) << 8u32) | ((c as u32) << 16u32) | ((d as u32) << 24u32),
    ;
    r
}


/// Connection-state machine positions, in handshake-to-teardown order.
#[derive(Debug, Copy, Clone, PartialEq, Eq, Structural)]
pub enum State {
    ClientInit,
    ClientInitSent,
    ClientRenegotiate,
    ClientRetryReceived,
    ClientInitResent,
    ServerInit,
    ServerHandshake,
    ClientHandshakeStart,
    HandshakeFailure,
    HandshakeFailureResend,
    ClientAlmostReady,
    ServerFalseStart,
    ServerAlmostReady,
    ClientReadyStart,
    Ready,
    Disconnecting,
    ClosingReceived,
    Closing,
    Draining,
    Disconnected,
}

/// Position of a state in the declaration order.
pub open spec fn state_rank(s: State) -> int {
    match s {
        State::ClientInit => 0,
        State::ClientInitSent => 1,
        State::ClientRenegotiate => 2,
        State::ClientRetryReceived => 3,
        State::ClientInitResent => 4,
        State::ServerInit => 5,
        State::ServerHandshake => 6,
        State::ClientHandshakeStart => 7,
        State::HandshakeFailure => 8,
        State::HandshakeFailureResend => 9,
        State::ClientAlmostReady => 10,
        State::ServerFalseStart => 11,
        State::ServerAlmostReady => 12,
        State::ClientReadyStart => 13,
        State::Ready => 14,
        State::Disconnecting => 15,
        State::ClosingReceived => 16,
        State::Closing => 17,
        State::Draining => 18,
        State::Disconnected => 19,
    }
}

impl State {
    /// Position of this state in the declaration order.
    pub fn rank(&self) -> (r: u8)
        ensures
            r == state_rank(*self),
    {
        match self {
            State::ClientInit => 0,
            State::ClientInitSent => 1,
            State::ClientRenegotiate => 2,
            State::ClientRetryReceived => 3,
            State::ClientInitResent => 4,
            State::ServerInit => 5,
            State::ServerHandshake => 6,
            State::ClientHandshakeStart => 7,
            State::HandshakeFailure => 8,
            State::HandshakeFailureResend => 9,
            State::ClientAlmostReady => 10,
            State::ServerFalseStart => 11,
            State::ServerAlmostReady => 12,
            State::ClientReadyStart => 13,
            State::Ready => 14,
            State::Disconnecting => 15,
            State::ClosingReceived => 16,
            State::Closing => 17,
            State::Draining => 18,
            State::Disconnected => 19,
        }
    }
}

/// Encryption-level packet context (packet-number space).
#[derive(Debug, Copy, Clone, PartialEq, Eq, Structural)]
pub enum PacketContext {
    Application,
    Handshake,
    Initial,
}

/// Path-MTU-discovery policy for a connection.
#[derive(Debug, Copy, Clone, PartialEq, Eq, Structural)]
pub enum PmtudPolicy {
    /// Default opportunistic PMTUD.
    Basic,
    /// Force PMTUD as soon as possible.
    Required,
    /// Only do PMTUD if a lot of data has to be sent.
    Delayed,
    /// Never do PMTUD.
    Blocked,
}

/// Spin-bit variant policy.
#[derive(Debug, Copy, Clone, PartialEq, Eq, Structural)]
pub enum SpinbitVersion {
    /// Default behaviour, per the spin-bit draft.
    Basic,
    /// Randomise per packet.
    Random,
    /// Null behaviour, randomised per path.
    Null,
    /// Test-only "always on" mode; not valid as a default or override.
    On,
}

/// Loss-bit support level.
#[derive(Debug, Copy, Clone, PartialEq, Eq, Structural)]
pub enum LossbitVersion {
    /// Loss bits disabled.
    Disabled,
    SendOnly,
    SendReceive,
}

/// Path scheduling status.
#[derive(Debug, Copy, Clone, PartialEq, Eq, Structural)]
pub enum PathStatus {
    Available,
    Backup,
}

/// Event type passed to the application's stream / connection callback.
#[derive(Debug, Copy, Clone, PartialEq, Eq, Structural)]
pub enum CallbackEvent {
    StreamData,
    StreamFin,
    StreamReset,
    StopSending,
    StatelessReset,
    Close,
    ApplicationClose,
    StreamGap,
    PrepareToSend,
    AlmostReady,
    Ready,
    Datagram,
    VersionNegotiation,
    RequestAlpnList,
    SetAlpn,
    PacingChanged,
    PrepareDatagram,
    DatagramAcked,
    DatagramLost,
    DatagramSpurious,
    PathAvailable,
    PathSuspended,
    PathDeleted,
    PathQualityChanged,
    PathAddressObserved,
    AppWakeup,
    NextPathAllowed,
}

/// Datagram-readiness signalling.
#[derive(Debug, Copy, Clone, PartialEq, Eq, Structural)]
pub enum DatagramActive {
    NotActive,
    AnyPath,
    ThisPathOnly,
    ThisPathAndOthers,
}

/// Congestion-control event fed to an algorithm's notify hook.
#[derive(Debug, Copy, Clone, PartialEq, Eq, Structural)]
pub enum CongestionNotification {
    Acknowledgement,
    Repeat,
    Timeout,
    SpuriousRepeat,
    RttMeasurement,
    EcnEc,
    CwinBlocked,
    SeedCwin,
    Reset,
    LostFeedback,
}

/// Outcome reported by `Connection::close_reason`.
#[derive(Debug, Copy, Clone, PartialEq, Eq, Structural)]
pub enum CloseReason {
    /// Local close at the QUIC transport layer.
    Local(u64),
    /// Local close at the application layer.
    LocalApp(u64),
    /// Peer closed at the QUIC transport layer.
    Remote(u64),
    /// Peer closed at the application layer.
    RemoteApp(u64),
}

/// Application-protocol identifiers used during session negotiation.
#[derive(Debug, Copy, Clone, PartialEq, Eq, Structural)]
pub enum Alpn {
    Undef,
    Http0_9,
    Http3,
    Quicperf,
}

/// Wire string of an ALPN, none for `Undef`.
pub open spec fn spec_alpn_str(a: Alpn) -> Option<&'static str> {
    match a {
        Alpn::Undef => None,
        Alpn::Http0_9 => Some("hq-interop"),
        Alpn::Http3 => Some("h3"),
        Alpn::Quicperf => Some("perf"),
    }
}

/// Wire bytes of an ALPN, empty for `Undef`.
pub open spec fn alpn_wire(a: Alpn) -> Seq<u8> {
    match a {
        Alpn::Undef => seq![],
        Alpn::Http0_9 => seq![104u8, 113, 45, 105, 110, 116, 101, 114, 111, 112],
        Alpn::Http3 => seq![104u8, 51],
        Alpn::Quicperf => seq![112u8, 101, 114, 102],
    }
}

/// The ALPN whose wire bytes are `s`, if any.
pub open spec fn spec_alpn_from_bytes(s: Seq<u8>) -> Option<Alpn> {
    if s == alpn_wire(Alpn::Http0_9) {
        Some(Alpn::Http0_9)
    } else if s == alpn_wire(Alpn::Http3) {
        Some(Alpn::Http3)
    } else if s == alpn_wire(Alpn::Quicperf) {
        Some(Alpn::Quicperf)
    } else {
        None
    }
}

/// Byte-wise equality of a slice with a byte array.
fn bytes_equal(a: &[u8], b: &[u8]) -> (r: bool)
    ensures
        r == (a@ == b@),
{
    if a.len() != b.len() {
        return false;
    }
    let mut i: usize = 0;
    while i < a.len()
        invariant
            a.len() == b.len(),
            i <= a.len(),
            forall|j: int| 0 <= j < i ==> a@[j] == b@[j],
        decreases a.len() - i,
    {
        if a[i] != b[i] {
            return false;
        }
        i = i + 1;
    }
    assert(a@ =~= b@);
    true
}

impl Alpn {
    /// Wire string for this ALPN, or `None` for `Undef`.
    pub fn as_str(self) -> (r: Option<&'static str>)
        ensures
            r == spec_alpn_str(self),
    {
        match self {
            Alpn::Undef => None,
            Alpn::Http0_9 => Some("hq-interop"),
            Alpn::Http3 => Some("h3"),
            Alpn::Quicperf => Some("perf"),
        }
    }

    /// Parse an ALPN from its wire string; `Err(())` for unknown values.
    pub fn from_str(s: &str) -> (r: Result<Alpn, ()>)
        ensures
            r matches Ok(a) ==> spec_alpn_from_bytes(s.spec_bytes()) == Some(a),
            r is Err <==> spec_alpn_from_bytes(s.spec_bytes()) is None,
    {
        Alpn::from_bytes(s.as_bytes())
    }

    /// Parse an ALPN from its wire bytes; `Err(())` for unknown values.
    pub fn from_bytes(s: &[u8]) -> (r: Result<Alpn, ()>)
        ensures
            r matches Ok(a) ==> spec_alpn_from_bytes(s@) == Some(a),
            r is Err <==> spec_alpn_from_bytes(s@) is None,
    {
        let hq: [u8; 10] = [104u8, 113, 45, 105, 110, 116, 101, 114, 111, 112];
        let h3: [u8; 2] = [104u8, 51];
        let perf: [u8; 4] = [112u8, 101, 114, 102];
        assert(hq@ =~= alpn_wire(Alpn::Http0_9));
        assert(h3@ =~= alpn_wire(Alpn::Http3));
        assert(perf@ =~= alpn_wire(Alpn::Quicperf));
        if bytes_equal(s, hq.as_slice()) {
            Ok(Alpn::Http0_9)
        } else if bytes_equal(s, h3.as_slice()) {
            Ok(Alpn::Http3)
        } else if bytes_equal(s, perf.as_slice()) {
            Ok(Alpn::Quicperf)
        } else {
            Err(())
        }
    }
}

/// Returns `true` when the error code is a TLS handshake error
/// (range 0x0100..=0x01ff).
pub fn is_handshake_error(error_code: u64) -> (r: bool)
    ensures
        r == (256 <= error_code < 512),
{
    let r: bool = (error_code >> 8u64) == 1;
    assert(((error_code >> 8u64) == 1) == (256 <= error_code && error_code < 512)) by (bit_vector);
    r
}

/// A UDP socket address: IPv4 or IPv6 address (as a big-endian number)
/// and a port.
#[derive(Debug, Copy, Clone, PartialEq, Eq, Structural)]
pub enum SocketAddr {
    V4 { ip4: u32, port: u16 },
    V6 { ip6: u128, port: u16 },
}

/// The all-zero IPv4 address with port 0.
pub open spec fn spec_unspecified_addr() -> SocketAddr {
    SocketAddr::V4 { ip4: 0, port: 0 }
}

/// Port number of an address.
pub open spec fn spec_port(a: SocketAddr) -> u16 {
    match a {
        SocketAddr::V4 { port, .. } => port,
        SocketAddr::V6 { port, .. } => port,
    }
}

/// Whether the address and the port are all zero.
pub open spec fn spec_addr_is_unspecified(a: SocketAddr) -> bool {
    match a {
        SocketAddr::V4 { ip4, port } => port == 0 && ip4 == 0,
        SocketAddr::V6 { ip6, port } => port == 0 && ip6 == 0,
    }
}

impl SocketAddr {
    /// The all-zero IPv4 address with port 0.
    pub fn unspecified() -> (r: SocketAddr)
        ensures
            r == spec_unspecified_addr(),
    {
        SocketAddr::V4 { ip4: 0, port: 0 }
    }

    /// Port number.
    pub fn port(&self) -> (r: u16)
        ensures
            r == spec_port(*self),
    {
        match self {
            SocketAddr::V4 { port, .. } => *port,
            SocketAddr::V6 { port, .. } => *port,
        }
    }

    /// Whether this is an IPv4 address.
    pub fn is_ipv4(&self) -> (r: bool)
        ensures
            r == (*self is V4),
    {
        match self {
            SocketAddr::V4 { .. } => true,
            SocketAddr::V6 { .. } => false,
        }
    }

    /// Whether the address and the port are all zero.
    pub fn is_unspecified(&self) -> (r: bool)
        ensures
            r == spec_addr_is_unspecified(*self),
    {
        match self {
            SocketAddr::V4 { ip4, port } => *port == 0 && *ip4 == 0,
            SocketAddr::V6 { ip6, port } => *port == 0 && *ip6 == 0,
        }
    }
}

/// IP + UDP header overhead for the address family: 28 bytes for IPv4,
/// 48 bytes for IPv6.
pub fn mtu_overhead(addr: &SocketAddr) -> (r: u32)
    ensures
        r == (if *addr is V4 { 28u32 } else { 48u32 }),
{
    match addr {
        SocketAddr::V4 { .. } => 28,
        SocketAddr::V6 { .. } => 48,
    }
}

/// Well-known ports blocked to prevent reflection amplification, in
/// descending order.
pub open spec fn blocked_ports() -> Seq<u16> {
    seq![27015u16, 20800, 11211, 5353, 1900, 520, 500, 389, 161, 138, 137, 123, 111, 53, 19, 17, 7, 0]
}

/// Returns `true` when `port` is on the well-known-port blocklist.
pub fn check_port_blocked(port: u16) -> (r: bool)
    ensures
        r == blocked_ports().contains(port),
{
    let list: [u16; 18] = [27015u16, 20800, 11211, 5353, 1900, 520, 500, 389, 161, 138, 137, 123, 111, 53, 19, 17, 7, 0];
    assert(list@ =~= blocked_ports());
    let mut i: usize = 0;
    while i < 18
        invariant
            i <= 18,
            list@ == blocked_ports(),
            forall|j: int| 0 <= j < i ==> list@[j] >= port,
            forall|j: int| 0 <= j < i ==> list@[j] != port,
        decreases 18 - i,
    {
        let blocked: u16 = list[i];
        if port > blocked {
            assert(forall|j: int| i <= j < 18 ==> list@[j] <= list@[i as int]);
            return false;
        }
        if port == blocked {
            assert(list@[i as int] == port);
            return true;
        }
        i = i + 1;
    }
    false
}

/// Returns `true` when the port of `addr_from` is on the blocklist.
pub fn check_addr_blocked(addr_from: &SocketAddr) -> (r: bool)
    ensures
        r == blocked_ports().contains(spec_port(*addr_from)),
{
    check_port_blocked(addr_from.port())
}


/// A fresh vector holding the bytes of `b`.
pub fn copy_bytes(b: &[u8]) -> (r: Vec<u8>)
    ensures
        r@ == b@,
{
    let mut r: Vec<u8> = Vec::new();
    let mut i: usize = 0;
    while i < b.len()
        invariant
            i <= b@.len(),
            r@ == b@.subrange(0, i as int),
        decreases b.len() - i,
    {
        r.push(b[i]);
        i = i + 1;
    }
    assert(r@ =~= b@);
    r
}

} // verus!
