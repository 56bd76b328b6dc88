//! Parsing of the QUIC packet headers this endpoint sends (for logging):
//! the variable-length integer encoding and the short and long header
//! layouts of QUIC version 1 and version 2.

use vstd::prelude::*;
use vstd::slice::slice_subrange;
use crate::cid::ConnectionId;
use crate::types::{PacketContext, CONNECTION_ID_MAX_SIZE};

verus! {

/// QUIC version 1.
pub const QUIC_V1_VERSION: u32 = 0x0000_0001;

/// QUIC version 2, whose long-header type bits are permuted.
pub const QUIC_V2_VERSION: u32 = 0x6b33_43cf;

/// The draft version number used for QUIC version 2 before its RFC.
pub const QUIC_V2_DRAFT_VERSION: u32 = 0x709a_50c4;

/// Kind of a parsed packet.
#[derive(Debug, Copy, Clone, PartialEq, Eq, Structural)]
pub enum PacketType {
    Error,
    VersionNegotiation,
    Initial,
    Retry,
    Handshake,
    ZeroRttProtected,
    OneRttProtected,
}

/// Encryption epoch of a packet.
#[derive(Debug, Copy, Clone, PartialEq, Eq, Structural)]
pub enum Epoch {
    Initial,
    ZeroRtt,
    Handshake,
    OneRtt,
}

/// The fields read from a packet header.
#[derive(Debug)]
pub struct PacketHeader {
    pub packet_type: PacketType,
    pub packet_context: PacketContext,
    pub epoch: Epoch,
    pub version: u32,
    pub version_index: i32,
    pub dest_connection_id: ConnectionId,
    pub src_connection_id: ConnectionId,
    pub offset: usize,
    pub packet_number_offset: usize,
    pub payload_length: usize,
    pub payload_length_value: usize,
    pub quic_bit_is_zero: bool,
    pub has_spin_bit: bool,
    pub spin: bool,
    pub key_phase: bool,
    pub has_loss_bits: bool,
    pub loss_bit_l: bool,
    pub loss_bit_q: bool,
    pub packet_number_mask: u32,
    pub packet_number_truncated: u32,
    pub packet_number_full: u64,
    pub token_bytes: Vec<u8>,
}

/// A packet header as plain values.
pub struct HeaderModel {
    pub packet_type: PacketType,
    pub packet_context: PacketContext,
    pub epoch: Epoch,
    pub version: u32,
    pub version_index: i32,
    pub dest_connection_id: Seq<u8>,
    pub src_connection_id: Seq<u8>,
    pub offset: int,
    pub packet_number_offset: int,
    pub payload_length: int,
    pub payload_length_value: int,
    pub quic_bit_is_zero: bool,
    pub has_spin_bit: bool,
    pub spin: bool,
    pub key_phase: bool,
    pub has_loss_bits: bool,
    pub loss_bit_l: bool,
    pub loss_bit_q: bool,
    pub packet_number_mask: u32,
    pub packet_number_truncated: u32,
    pub packet_number_full: u64,
    pub token_bytes: Seq<u8>,
}

impl View for PacketHeader {
    type V = HeaderModel;

    open spec fn view(&self) -> HeaderModel {
        HeaderModel {
            packet_type: self.packet_type,
            packet_context: self.packet_context,
            epoch: self.epoch,
            version: self.version,
            version_index: self.version_index,
            dest_connection_id: self.dest_connection_id@,
            src_connection_id: self.src_connection_id@,
            offset: self.offset as int,
            packet_number_offset: self.packet_number_offset as int,
            payload_length: self.payload_length as int,
            payload_length_value: self.payload_length_value as int,
            quic_bit_is_zero: self.quic_bit_is_zero,
            has_spin_bit: self.has_spin_bit,
            spin: self.spin,
            key_phase: self.key_phase,
            has_loss_bits: self.has_loss_bits,
            loss_bit_l: self.loss_bit_l,
            loss_bit_q: self.loss_bit_q,
            packet_number_mask: self.packet_number_mask,
            packet_number_truncated: self.packet_number_truncated,
            packet_number_full: self.packet_number_full,
            token_bytes: self.token_bytes@,
        }
    }
}

/// The empty header: an error packet with every field zero.
pub open spec fn header_model_default() -> HeaderModel {
    HeaderModel {
        packet_type: PacketType::Error,
        packet_context: PacketContext::Application,
        epoch: Epoch::Initial,
        version: 0,
        version_index: 0,
        dest_connection_id: Seq::empty(),
        src_connection_id: Seq::empty(),
        offset: 0,
        packet_number_offset: 0,
        payload_length: 0,
        payload_length_value: 0,
        quic_bit_is_zero: false,
        has_spin_bit: false,
        spin: false,
        key_phase: false,
        has_loss_bits: false,
        loss_bit_l: false,
        loss_bit_q: false,
        packet_number_mask: 0,
        packet_number_truncated: 0,
        packet_number_full: 0,
        token_bytes: Seq::empty(),
    }
}

impl Default for PacketHeader {
    fn default() -> (r: PacketHeader)
        ensures
            r@ == header_model_default(),
    {
        let r = PacketHeader {
            packet_type: PacketType::Error,
            packet_context: PacketContext::Application,
            epoch: Epoch::Initial,
            version: 0,
            version_index: 0,
            dest_connection_id: ConnectionId::empty(),
            src_connection_id: ConnectionId::empty(),
            offset: 0,
            packet_number_offset: 0,
            payload_length: 0,
            payload_length_value: 0,
            quic_bit_is_zero: false,
            has_spin_bit: false,
            spin: false,
            key_phase: false,
            has_loss_bits: false,
            loss_bit_l: false,
            loss_bit_q: false,
            packet_number_mask: 0,
            packet_number_truncated: 0,
            packet_number_full: 0,
            token_bytes: Vec::new(),
        };
        assert(r@.token_bytes =~= Seq::<u8>::empty());
        r
    }
}

// ---------------------------------------------------------------------------
// Variable-length integers (RFC 9000, section 16).

/// Encoded length of a variable-length integer, from its first byte.
pub open spec fn varint_length(b0: u8) -> nat {
    if b0 < 64 {
        1
    } else if b0 < 128 {
        2
    } else if b0 < 192 {
        4
    } else {
        8
    }
}

/// Byte `i` of an encoding, with the two length bits of the first byte
/// cleared.
pub open spec fn varint_byte(s: Seq<u8>, i: int) -> int {
    if i == 0 {
        (s[0] % 64) as int
    } else {
        s[i] as int
    }
}

/// Big-endian value of the first `k` bytes of an encoding.
pub open spec fn varint_value(s: Seq<u8>, k: nat) -> int
    decreases k,
{
    if k == 0 {
        0
    } else {
        varint_value(s, (k - 1) as nat) * 256 + varint_byte(s, k - 1)
    }
}

/// The integer encoded at the start of `s` and its encoded length, or
/// `None` when `s` is empty or shorter than the encoding.
pub open spec fn spec_varint_decode(s: Seq<u8>) -> Option<(u64, nat)> {
    if s.len() == 0 || s.len() < varint_length(s[0]) {
        None
    } else {
        Some((varint_value(s, varint_length(s[0])) as u64, varint_length(s[0])))
    }
}

/// Upper bound of a `k`-byte encoding, for `k` up to eight.
spec fn varint_cap(k: int) -> int {
    if k <= 1 {
        0x40
    } else if k == 2 {
        0x4000
    } else if k == 3 {
        0x40_0000
    } else if k == 4 {
        0x4000_0000
    } else if k == 5 {
        0x40_0000_0000
    } else if k == 6 {
        0x4000_0000_0000
    } else if k == 7 {
        0x40_0000_0000_0000
    } else {
        0x4000_0000_0000_0000
    }
}

/// Decode the variable-length integer at the start of `bytes`; yields the
/// value and the number of bytes it takes.
pub fn varint_decode(bytes: &[u8]) -> (r: Option<(u64, usize)>)
    ensures
        match spec_varint_decode(bytes@) {
            None => r is None,
            Some((v, n)) => r == Some((v, n as usize)) && (v as int) == varint_value(bytes@, n) && 1 <= n <= 8,
        },
{
    if bytes.len() == 0 {
        return None;
    }
    let b0 = bytes[0];
    let n: usize = if b0 < 64 {
        1
    } else if b0 < 128 {
        2
    } else if b0 < 192 {
        4
    } else {
        8
    };
    if bytes.len() < n {
        return None;
    }
    let mut v: u64 = (b0 % 64) as u64;
    let mut i: usize = 1;
    assert(varint_value(bytes@, 1) == varint_byte(bytes@, 0)) by {
        reveal_with_fuel(varint_value, 2);
    }
    while i < n
        invariant
            1 <= i <= n,
            n <= 8,
            n <= bytes@.len(),
            v as int == varint_value(bytes@, i as nat),
            (v as int) < varint_cap(i as int),
        decreases n - i,
    {
        let b = bytes[i];
        v = v * 256 + b as u64;
        i = i + 1;
    }
    Some((v, n))
}

/// The byte of `v` that starts at bit `shift`.
pub open spec fn byte_at(v: u64, shift: u64) -> u8 {
    ((v >> shift) & 0xff) as u8
}

/// Minimal encoding of `v` as a variable-length integer; empty when `v`
/// does not fit in 62 bits.
pub open spec fn varint_encoding(v: u64) -> Seq<u8> {
    if v < 0x40 {
        seq![v as u8]
    } else if v < 0x4000 {
        seq![(0x40 | byte_at(v, 8u64)) as u8, byte_at(v, 0u64)]
    } else if v < 0x4000_0000 {
        seq![(0x80 | byte_at(v, 24u64)) as u8, byte_at(v, 16u64), byte_at(v, 8u64), byte_at(v, 0u64)]
    } else if v < 0x4000_0000_0000_0000 {
        seq![
            (0xc0 | byte_at(v, 56u64)) as u8,
            byte_at(v, 48u64),
            byte_at(v, 40u64),
            byte_at(v, 32u64),
            byte_at(v, 24u64),
            byte_at(v, 16u64),
            byte_at(v, 8u64),
            byte_at(v, 0u64),
        ]
    } else {
        Seq::empty()
    }
}

/// Append the minimal variable-length encoding of `value`; nothing is
/// appended for a value that does not fit in 62 bits.
pub fn append_varint(out: &mut Vec<u8>, value: u64)
    ensures
        final(out)@ == old(out)@ + varint_encoding(value),
{
    if value < 0x40 {
        out.push(value as u8);
    } else if value < 0x4000 {
        out.push((0x40 | ((value >> 8u64) & 0xff) as u8) as u8);
        out.push(((value >> 0u64) & 0xff) as u8);
    } else if value < 0x4000_0000 {
        out.push((0x80 | ((value >> 24u64) & 0xff) as u8) as u8);
        out.push(((value >> 16u64) & 0xff) as u8);
        out.push(((value >> 8u64) & 0xff) as u8);
        out.push(((value >> 0u64) & 0xff) as u8);
    } else if value < 0x4000_0000_0000_0000 {
        out.push((0xc0 | ((value >> 56u64) & 0xff) as u8) as u8);
        out.push(((value >> 48u64) & 0xff) as u8);
        out.push(((value >> 40u64) & 0xff) as u8);
        out.push(((value >> 32u64) & 0xff) as u8);
        out.push(((value >> 24u64) & 0xff) as u8);
        out.push(((value >> 16u64) & 0xff) as u8);
        out.push(((value >> 8u64) & 0xff) as u8);
        out.push(((value >> 0u64) & 0xff) as u8);
    }
    assert(out@ =~= old(out)@ + varint_encoding(value));
}

proof fn lemma_varint2(v: u64)
    by (bit_vector)
    requires
        0x40 <= v < 0x4000,
    ensures
        0x40 <= ((0x40 | byte_at(v, 8u64)) as u8) < 0x80,
        (((0x40 | byte_at(v, 8u64)) as u8) % 64) * 256 + byte_at(v, 0u64) == v,
{
}

proof fn lemma_varint4(v: u64)
    by (bit_vector)
    requires
        0x4000 <= v < 0x4000_0000,
    ensures
        0x80 <= ((0x80 | byte_at(v, 24u64)) as u8) < 0xc0,
        (((((0x80 | byte_at(v, 24u64)) as u8) % 64) * 256 + byte_at(v, 16u64)) * 256 + byte_at(v, 8u64)) * 256
            + byte_at(v, 0u64) == v,
{
}

proof fn lemma_varint8(v: u64)
    by (bit_vector)
    requires
        0x4000_0000 <= v < 0x4000_0000_0000_0000,
    ensures
        0xc0 <= ((0xc0 | byte_at(v, 56u64)) as u8),
        (((((((((0xc0 | byte_at(v, 56u64)) as u8) % 64) * 256 + byte_at(v, 48u64)) * 256 + byte_at(v, 40u64)) * 256
            + byte_at(v, 32u64)) * 256 + byte_at(v, 24u64)) * 256 + byte_at(v, 16u64)) * 256 + byte_at(v, 8u64)) * 256
            + byte_at(v, 0u64) == v,
{
}

/// Decoding the encoding of a value below 2^62 gives the value back and
/// consumes exactly the encoding.
pub proof fn law_varint_roundtrip(v: u64, rest: Seq<u8>)
    requires
        v < 0x4000_0000_0000_0000,
    ensures
        spec_varint_decode(varint_encoding(v) + rest) == Some((v, varint_encoding(v).len())),
{
    let e = varint_encoding(v);
    let s = e + rest;
    reveal_with_fuel(varint_value, 9);
    if v < 0x40 {
        assert(s[0] == v as u8);
    } else if v < 0x4000 {
        lemma_varint2(v);
        assert(s[0] == e[0] && s[1] == e[1]);
    } else if v < 0x4000_0000 {
        lemma_varint4(v);
        assert(s[0] == e[0] && s[1] == e[1] && s[2] == e[2] && s[3] == e[3]);
    } else {
        lemma_varint8(v);
        assert(s[0] == e[0] && s[1] == e[1] && s[2] == e[2] && s[3] == e[3]);
        assert(s[4] == e[4] && s[5] == e[5] && s[6] == e[6] && s[7] == e[7]);
    }
}

// ---------------------------------------------------------------------------
// Header layouts.

/// Packet type of a long header by its two type bits, under the layout
/// of `version` (QUIC version 2 permutes them).
pub open spec fn spec_long_packet_type(flags: u8, version: u32) -> PacketType {
    let t = (flags / 16) % 4;
    if version == QUIC_V2_VERSION {
        if t == 0 {
            PacketType::Retry
        } else if t == 1 {
            PacketType::Initial
        } else if t == 2 {
            PacketType::ZeroRttProtected
        } else {
            PacketType::Handshake
        }
    } else {
        if t == 0 {
            PacketType::Initial
        } else if t == 1 {
            PacketType::ZeroRttProtected
        } else if t == 2 {
            PacketType::Handshake
        } else {
            PacketType::Retry
        }
    }
}

/// Type of a long-header packet from its first byte.
pub fn long_packet_type(flags: u8, version: u32) -> (r: PacketType)
    ensures
        r == spec_long_packet_type(flags, version),
{
    let t = (flags / 16) % 4;
    if version == QUIC_V2_VERSION {
        if t == 0 {
            PacketType::Retry
        } else if t == 1 {
            PacketType::Initial
        } else if t == 2 {
            PacketType::ZeroRttProtected
        } else {
            PacketType::Handshake
        }
    } else {
        if t == 0 {
            PacketType::Initial
        } else if t == 1 {
            PacketType::ZeroRttProtected
        } else if t == 2 {
            PacketType::Handshake
        } else {
            PacketType::Retry
        }
    }
}

/// Index of `version` in `versions`, if it is there.
pub open spec fn spec_version_index(versions: Seq<u32>, version: u32) -> Option<int> {
    if exists|i: int| 0 <= i < versions.len() && versions[i] == version {
        Some(choose|i: int| 0 <= i < versions.len() && versions[i] == version
            && forall|j: int| 0 <= j < i ==> versions[j] != version)
    } else {
        None
    }
}

/// Position of `version` in the table of supported versions.
pub fn supported_version_index(versions: &[u32], version: u32) -> (r: Option<i32>)
    requires
        versions@.len() <= i32::MAX,
    ensures
        r is None <==> (forall|i: int| 0 <= i < versions@.len() ==> versions@[i] != version),
        r matches Some(k) ==> 0 <= k < versions@.len() && versions@[k as int] == version
            && forall|j: int| 0 <= j < k ==> versions@[j] != version,
{
    let mut k: usize = 0;
    while k < versions.len()
        invariant
            k <= versions@.len(),
            versions@.len() <= i32::MAX,
            forall|j: int| 0 <= j < k ==> versions@[j] != version,
        decreases versions.len() - k,
    {
        if versions[k] == version {
            return Some(k as i32);
        }
        k = k + 1;
    }
    None
}

/// Big-endian 32-bit number at bytes 1 to 4.
pub open spec fn be32_at1(s: Seq<u8>) -> u32 {
    (s[1] as int * 0x100_0000 + s[2] as int * 0x1_0000 + s[3] as int * 0x100 + s[4] as int) as u32
}

/// Short (1-RTT) header whose destination ID has `dcid_len` bytes.
pub open spec fn spec_parse_short_header(
    buf: Seq<u8>,
    dcid_len: int,
    version_index: i32,
    do_grease_quic_bit: bool,
    has_loss_bit: bool,
) -> HeaderModel {
    let flags = buf[0];
    let d = HeaderModel {
        packet_context: PacketContext::Application,
        epoch: Epoch::OneRtt,
        ..header_model_default()
    };
    if buf.len() < 1 + dcid_len || dcid_len > CONNECTION_ID_MAX_SIZE {
        HeaderModel { packet_type: PacketType::Error, offset: buf.len() as int, payload_length: 0, ..d }
    } else {
        let quic_bit_is_zero = flags & 0x40 == 0;
        let packet_type = if !quic_bit_is_zero || do_grease_quic_bit {
            PacketType::OneRttProtected
        } else {
            PacketType::Error
        };
        HeaderModel {
            packet_type,
            dest_connection_id: buf.subrange(1, 1 + dcid_len),
            offset: 1 + dcid_len,
            packet_number_offset: 1 + dcid_len,
            version_index,
            quic_bit_is_zero,
            has_spin_bit: true,
            spin: flags & 0x20 != 0,
            key_phase: flags & 0x04 != 0,
            has_loss_bits: has_loss_bit,
            loss_bit_l: has_loss_bit && flags & 0x08 != 0,
            loss_bit_q: has_loss_bit && flags & 0x10 != 0,
            payload_length: if packet_type == PacketType::Error { 0 } else { buf.len() - (1 + dcid_len) },
            ..d
        }
    }
}

/// What follows the token of an Initial packet, or the connection IDs of
/// other long-header packets, starting at `pos`: the payload length.
#[verifier::opaque]
pub open spec fn spec_parse_long_tail(buf: Seq<u8>, d: HeaderModel, pos: int, do_grease_quic_bit: bool) -> HeaderModel {
    if d.packet_type == PacketType::Retry {
        if buf.len() > pos {
            HeaderModel {
                offset: pos,
                packet_number_offset: pos,
                payload_length_value: buf.len() - pos,
                payload_length: buf.len() - pos,
                ..d
            }
        } else {
            HeaderModel { packet_type: PacketType::Error, offset: pos, packet_number_offset: pos, ..d }
        }
    } else {
        match spec_varint_decode(buf.subrange(pos, buf.len() as int)) {
            None => HeaderModel { packet_type: PacketType::Error, ..d },
            Some((len, n)) => {
                let p = pos + n;
                if len > usize::MAX {
                    HeaderModel { packet_type: PacketType::Error, ..d }
                } else if buf.len() - p < len {
                    HeaderModel {
                        packet_type: PacketType::Error,
                        payload_length: if buf.len() > d.offset { buf.len() - d.offset } else { 0 },
                        payload_length_value: if buf.len() > d.offset { buf.len() - d.offset } else { 0 },
                        ..d
                    }
                } else {
                    HeaderModel {
                        packet_number_offset: p,
                        offset: p,
                        payload_length_value: len as int,
                        payload_length: len as int,
                        packet_type: if d.quic_bit_is_zero && !do_grease_quic_bit {
                            PacketType::Error
                        } else {
                            d.packet_type
                        },
                        ..d
                    }
                }
            },
        }
    }
}

/// An Initial packet: the token (length-prefixed) at `pos`, then the tail.
#[verifier::opaque]
pub open spec fn spec_parse_initial(buf: Seq<u8>, d: HeaderModel, pos: int, do_grease_quic_bit: bool) -> HeaderModel {
    match spec_varint_decode(buf.subrange(pos, buf.len() as int)) {
        None => HeaderModel { packet_type: PacketType::Error, ..d },
        Some((tl, n)) => {
            let p = pos + n;
            if tl > usize::MAX || p + tl > buf.len() {
                HeaderModel { packet_type: PacketType::Error, offset: buf.len() as int, ..d }
            } else {
                spec_parse_long_tail(buf, HeaderModel { token_bytes: buf.subrange(p, p + tl), ..d }, p + tl, do_grease_quic_bit)
            }
        },
    }
}

/// A long header, once both connection IDs have been read (`pos` is the
/// first byte after them).
pub open spec fn spec_parse_long_body(buf: Seq<u8>, d: HeaderModel, pos: int, do_grease_quic_bit: bool) -> HeaderModel {
    let flags = buf[0];
    if d.version == 0 {
        HeaderModel {
            packet_type: PacketType::VersionNegotiation,
            offset: pos,
            payload_length_value: buf.len() - pos,
            payload_length: buf.len() - pos,
            ..d
        }
    } else {
        let pt = spec_long_packet_type(flags, d.version);
        let d5 = HeaderModel { packet_type: pt, quic_bit_is_zero: flags & 0x40 == 0, spin: false, has_spin_bit: false, ..d };
        if pt == PacketType::Initial {
            spec_parse_initial(buf, HeaderModel { packet_context: PacketContext::Initial, epoch: Epoch::Initial, ..d5 }, pos, do_grease_quic_bit)
        } else if pt == PacketType::ZeroRttProtected {
            spec_parse_long_tail(buf, HeaderModel { packet_context: PacketContext::Application, epoch: Epoch::ZeroRtt, ..d5 }, pos, do_grease_quic_bit)
        } else if pt == PacketType::Handshake {
            spec_parse_long_tail(buf, HeaderModel { packet_context: PacketContext::Handshake, epoch: Epoch::Handshake, ..d5 }, pos, do_grease_quic_bit)
        } else {
            spec_parse_long_tail(buf, HeaderModel { packet_context: PacketContext::Initial, epoch: Epoch::Initial, ..d5 }, pos, do_grease_quic_bit)
        }
    }
}

/// A long header: version, then destination and source connection IDs,
/// each preceded by its length byte.
pub open spec fn spec_parse_long_header(buf: Seq<u8>, do_grease_quic_bit: bool, versions: Seq<u32>) -> HeaderModel {
    if buf.len() < 5 {
        HeaderModel { packet_type: PacketType::Error, ..header_model_default() }
    } else {
        let version = be32_at1(buf);
        let d1 = HeaderModel { version, ..header_model_default() };
        if version != 0 && spec_version_index(versions, version) is None {
            HeaderModel { packet_type: PacketType::Error, version_index: -1i32, ..d1 }
        } else {
            let d2 = if version != 0 {
                HeaderModel { version_index: spec_version_index(versions, version).unwrap() as i32, ..d1 }
            } else {
                d1
            };
            if buf.len() <= 5 {
                HeaderModel { packet_type: PacketType::Error, ..d2 }
            } else {
                let dl = buf[5] as int;
                if 6 + dl > buf.len() || dl > CONNECTION_ID_MAX_SIZE {
                    HeaderModel { packet_type: PacketType::Error, ..d2 }
                } else {
                    let d3 = HeaderModel { dest_connection_id: buf.subrange(6, 6 + dl), ..d2 };
                    let p = 6 + dl;
                    if p >= buf.len() {
                        HeaderModel { packet_type: PacketType::Error, ..d3 }
                    } else {
                        let sl = buf[p] as int;
                        if p + 1 + sl > buf.len() || sl > CONNECTION_ID_MAX_SIZE {
                            HeaderModel { packet_type: PacketType::Error, ..d3 }
                        } else {
                            spec_parse_long_body(
                                buf,
                                HeaderModel { src_connection_id: buf.subrange(p + 1, p + 1 + sl), ..d3 },
                                p + 1 + sl,
                                do_grease_quic_bit,
                            )
                        }
                    }
                }
            }
        }
    }
}

/// The header of an outgoing packet.
pub open spec fn spec_parse_outgoing_header(
    buf: Seq<u8>,
    outgoing_short_dcid_len: int,
    connection_version_index: i32,
    do_grease_quic_bit: bool,
    has_loss_bit: bool,
    versions: Seq<u32>,
) -> HeaderModel {
    if buf.len() == 0 {
        HeaderModel { packet_type: PacketType::Error, ..header_model_default() }
    } else if buf[0] & 0x80 == 0 {
        spec_parse_short_header(buf, outgoing_short_dcid_len, connection_version_index, do_grease_quic_bit, has_loss_bit)
    } else {
        spec_parse_long_header(buf, do_grease_quic_bit, versions)
    }
}

/// Read a short header.
fn parse_short_header(
    send_buffer: &[u8],
    outgoing_short_dcid_len: usize,
    connection_version_index: i32,
    do_grease_quic_bit: bool,
    has_loss_bit: bool,
) -> (ph: PacketHeader)
    requires
        send_buffer@.len() > 0,
    ensures
        ph@ == spec_parse_short_header(send_buffer@, outgoing_short_dcid_len as int, connection_version_index,
            do_grease_quic_bit, has_loss_bit),
{
    let mut ph = PacketHeader::default();
    let flags = send_buffer[0];
    ph.packet_context = PacketContext::Application;
    ph.epoch = Epoch::OneRtt;
    ph.payload_length_value = 0;
    if outgoing_short_dcid_len >= send_buffer.len() {
        ph.packet_type = PacketType::Error;
        ph.offset = send_buffer.len();
        ph.payload_length = 0;
        return ph;
    }
    let cid = ConnectionId::clone_from_slice(
        vstd::slice::slice_subrange(send_buffer, 1, 1 + outgoing_short_dcid_len),
    );
    match cid {
        None => {
            ph.packet_type = PacketType::Error;
            ph.offset = send_buffer.len();
            ph.payload_length = 0;
            ph
        },
        Some(cid) => {
            ph.dest_connection_id = cid;
            ph.offset = 1 + outgoing_short_dcid_len;
            ph.packet_number_offset = ph.offset;
            ph.version_index = connection_version_index;
            ph.quic_bit_is_zero = (flags & 0x40) == 0;
            ph.packet_type = if !ph.quic_bit_is_zero || do_grease_quic_bit {
                PacketType::OneRttProtected
            } else {
                PacketType::Error
            };
            ph.has_spin_bit = true;
            ph.spin = (flags & 0x20) != 0;
            ph.key_phase = (flags & 0x04) != 0;
            ph.packet_number_mask = 0;
            ph.packet_number_truncated = 0;
            if has_loss_bit {
                ph.has_loss_bits = true;
                ph.loss_bit_l = (flags & 0x08) != 0;
                ph.loss_bit_q = (flags & 0x10) != 0;
            }
            ph.payload_length = if ph.packet_type == PacketType::Error {
                0
            } else {
                send_buffer.len() - ph.offset
            };
            ph
        },
    }
}

/// Read the payload length (or, for Retry, take the rest) from `pos` on.
#[verifier::rlimit(50)]
fn parse_long_tail(send_buffer: &[u8], ph: PacketHeader, pos: usize, do_grease_quic_bit: bool) -> (r: PacketHeader)
    requires
        pos <= send_buffer@.len(),
    ensures
        r@ == spec_parse_long_tail(send_buffer@, ph@, pos as int, do_grease_quic_bit),
{
    reveal(spec_parse_long_tail);
    let mut ph = ph;
    if ph.packet_type == PacketType::Retry {
        ph.offset = pos;
        ph.packet_number_offset = pos;
        if send_buffer.len() > pos {
            ph.payload_length_value = send_buffer.len() - pos;
            ph.payload_length = ph.payload_length_value;
        } else {
            ph.packet_type = PacketType::Error;
        }
        return ph;
    }
    let rest = vstd::slice::slice_subrange(send_buffer, pos, send_buffer.len());
    match varint_decode(rest) {
        None => {
            ph.packet_type = PacketType::Error;
            ph
        },
        Some((payload_len, n)) => {
            let p = pos + n;
            if payload_len as u128 > usize::MAX as u128 {
                ph.packet_type = PacketType::Error;
                return ph;
            }
            let payload_len = payload_len as usize;
            if send_buffer.len() - p < payload_len {
                ph.packet_type = PacketType::Error;
                ph.payload_length = if send_buffer.len() > ph.offset { send_buffer.len() - ph.offset } else { 0 };
                ph.payload_length_value = ph.payload_length;
                return ph;
            }
            ph.packet_number_offset = p;
            ph.offset = p;
            ph.payload_length_value = payload_len;
            ph.payload_length = payload_len;
            if ph.quic_bit_is_zero && !do_grease_quic_bit {
                ph.packet_type = PacketType::Error;
            }
            ph
        },
    }
}

/// Read the token of an Initial packet, then the tail.
#[verifier::rlimit(30)]
fn parse_initial(send_buffer: &[u8], ph: PacketHeader, pos: usize, do_grease_quic_bit: bool) -> (r: PacketHeader)
    requires
        pos <= send_buffer@.len(),
    ensures
        r@ == spec_parse_initial(send_buffer@, ph@, pos as int, do_grease_quic_bit),
{
    reveal(spec_parse_initial);
    let mut ph = ph;
    let rest = vstd::slice::slice_subrange(send_buffer, pos, send_buffer.len());
    match varint_decode(rest) {
        None => {
            ph.packet_type = PacketType::Error;
            ph
        },
        Some((tok_len, n)) => {
            let p = pos + n;
            if tok_len as u128 > usize::MAX as u128 {
                ph.packet_type = PacketType::Error;
                ph.offset = send_buffer.len();
                return ph;
            }
            let token_len = tok_len as usize;
            if token_len > send_buffer.len() - p {
                ph.packet_type = PacketType::Error;
                ph.offset = send_buffer.len();
                return ph;
            }
            let token_end = p + token_len;
            ph.token_bytes = vstd::slice::slice_to_vec(vstd::slice::slice_subrange(send_buffer, p, token_end));
            parse_long_tail(send_buffer, ph, token_end, do_grease_quic_bit)
        },
    }
}

/// Read a long header once both connection IDs are known.
#[verifier::rlimit(50)]
fn parse_long_body(send_buffer: &[u8], ph: PacketHeader, pos: usize, do_grease_quic_bit: bool) -> (r: PacketHeader)
    requires
        0 < pos <= send_buffer@.len(),
    ensures
        r@ == spec_parse_long_body(send_buffer@, ph@, pos as int, do_grease_quic_bit),
{
    let mut ph = ph;
    let flags = send_buffer[0];
    if ph.version == 0 {
        ph.packet_type = PacketType::VersionNegotiation;
        ph.offset = pos;
        ph.payload_length_value = send_buffer.len() - pos;
        ph.payload_length = ph.payload_length_value;
        return ph;
    }
    ph.packet_type = long_packet_type(flags, ph.version);
    ph.quic_bit_is_zero = (flags & 0x40) == 0;
    ph.spin = false;
    ph.has_spin_bit = false;
    match ph.packet_type {
        PacketType::Initial => {
            ph.packet_context = PacketContext::Initial;
            ph.epoch = Epoch::Initial;
            parse_initial(send_buffer, ph, pos, do_grease_quic_bit)
        },
        PacketType::ZeroRttProtected => {
            ph.packet_context = PacketContext::Application;
            ph.epoch = Epoch::ZeroRtt;
            parse_long_tail(send_buffer, ph, pos, do_grease_quic_bit)
        },
        PacketType::Handshake => {
            ph.packet_context = PacketContext::Handshake;
            ph.epoch = Epoch::Handshake;
            parse_long_tail(send_buffer, ph, pos, do_grease_quic_bit)
        },
        _ => {
            ph.packet_context = PacketContext::Initial;
            ph.epoch = Epoch::Initial;
            parse_long_tail(send_buffer, ph, pos, do_grease_quic_bit)
        },
    }
}

/// Read a long header: version, then the two connection IDs.
fn parse_long_header(send_buffer: &[u8], do_grease_quic_bit: bool, versions: &[u32]) -> (ph: PacketHeader)
    requires
        versions@.len() <= i32::MAX,
    ensures
        ph@ == spec_parse_long_header(send_buffer@, do_grease_quic_bit, versions@),
{
    let mut ph = PacketHeader::default();
    if send_buffer.len() < 5 {
        ph.packet_type = PacketType::Error;
        return ph;
    }
    let version: u32 = (send_buffer[1] as u32) * 0x100_0000 + (send_buffer[2] as u32) * 0x1_0000
        + (send_buffer[3] as u32) * 0x100 + (send_buffer[4] as u32);
    ph.version = version;
    if version != 0 {
        match supported_version_index(versions, version) {
            None => {
                ph.packet_type = PacketType::Error;
                ph.version_index = -1;
                proof {
                    assert(spec_version_index(versions@, version) is None);
                }
                return ph;
            },
            Some(k) => {
                ph.version_index = k;
                proof {
                    assert(spec_version_index(versions@, version) is Some);
                    let c = spec_version_index(versions@, version).unwrap();
                    assert(c == k as int);
                }
            },
        }
    }
    if send_buffer.len() <= 5 {
        ph.packet_type = PacketType::Error;
        return ph;
    }
    let dcid_len = send_buffer[5] as usize;
    if dcid_len > send_buffer.len() - 6 {
        ph.packet_type = PacketType::Error;
        return ph;
    }
    match ConnectionId::clone_from_slice(vstd::slice::slice_subrange(send_buffer, 6, 6 + dcid_len)) {
        None => {
            ph.packet_type = PacketType::Error;
            return ph;
        },
        Some(cid) => {
            ph.dest_connection_id = cid;
        },
    }
    let p = 6 + dcid_len;
    if p >= send_buffer.len() {
        ph.packet_type = PacketType::Error;
        return ph;
    }
    let scid_len = send_buffer[p] as usize;
    if scid_len > send_buffer.len() - (p + 1) {
        ph.packet_type = PacketType::Error;
        return ph;
    }
    match ConnectionId::clone_from_slice(vstd::slice::slice_subrange(send_buffer, p + 1, p + 1 + scid_len)) {
        None => {
            ph.packet_type = PacketType::Error;
            ph
        },
        Some(cid) => {
            ph.src_connection_id = cid;
            parse_long_body(send_buffer, ph, p + 1 + scid_len, do_grease_quic_bit)
        },
    }
}

/// Read back the header of a packet this endpoint is about to send.
/// `outgoing_short_dcid_len` is the length of the destination ID in short
/// headers; `versions` is the table of supported versions, whose positions
/// are the version indices.  Malformed input gives an `Error` packet type.
pub fn parse_outgoing_header(
    send_buffer: &[u8],
    outgoing_short_dcid_len: usize,
    connection_version_index: i32,
    do_grease_quic_bit: bool,
    has_loss_bit: bool,
    versions: &[u32],
) -> (ph: PacketHeader)
    requires
        versions@.len() <= i32::MAX,
    ensures
        ph@ == spec_parse_outgoing_header(send_buffer@, outgoing_short_dcid_len as int, connection_version_index,
            do_grease_quic_bit, has_loss_bit, versions@),
{
    if send_buffer.len() == 0 {
        let mut ph = PacketHeader::default();
        ph.packet_type = PacketType::Error;
        return ph;
    }
    if send_buffer[0] & 0x80 == 0 {
        parse_short_header(send_buffer, outgoing_short_dcid_len, connection_version_index, do_grease_quic_bit,
            has_loss_bit)
    } else {
        parse_long_header(send_buffer, do_grease_quic_bit, versions)
    }
}

/// The payload of a packet in `bytes` whose header ends at `offset` and
/// announces `payload_length` bytes: that many bytes (at most all of
/// them) from the header's end, or from the start when they do not fit
/// there.
pub open spec fn spec_packet_payload(bytes: Seq<u8>, offset: usize, payload_length: usize) -> Seq<u8> {
    let n: int = if payload_length < bytes.len() { payload_length as int } else { bytes.len() as int };
    if offset + n <= bytes.len() {
        bytes.subrange(offset as int, offset + n)
    } else {
        bytes.subrange(0, n)
    }
}

/// The payload bytes of the packet with header `ph` in `bytes`.
pub fn packet_payload<'a>(bytes: &'a [u8], ph: &PacketHeader) -> (r: &'a [u8])
    ensures
        r@ == spec_packet_payload(bytes@, ph.offset, ph.payload_length),
{
    let payload_length: usize = if ph.payload_length < bytes.len() { ph.payload_length } else { bytes.len() };
    if ph.offset <= bytes.len() && payload_length <= bytes.len() - ph.offset {
        slice_subrange(bytes, ph.offset, ph.offset + payload_length)
    } else {
        slice_subrange(bytes, 0, payload_length)
    }
}


/// The encryption level that a packet of type `t` is sent at, as its
/// packet-number space and epoch; `None` for types that carry no
/// protected payload of their own (error, version negotiation, retry).
pub open spec fn level_of_type(t: PacketType) -> Option<(PacketContext, Epoch)> {
    match t {
        PacketType::Initial => Some((PacketContext::Initial, Epoch::Initial)),
        PacketType::ZeroRttProtected => Some((PacketContext::Application, Epoch::ZeroRtt)),
        PacketType::Handshake => Some((PacketContext::Handshake, Epoch::Handshake)),
        PacketType::OneRttProtected => Some((PacketContext::Application, Epoch::OneRtt)),
        _ => None,
    }
}

/// A parsed header agrees with its packet type on where it belongs.
pub open spec fn header_level_agrees(h: HeaderModel) -> bool {
    level_of_type(h.packet_type) matches Some((ctx, ep)) ==> h.packet_context == ctx && h.epoch == ep
}

proof fn lemma_long_tail_keeps_level(buf: Seq<u8>, d: HeaderModel, pos: int, g: bool)
    requires
        0 <= pos,
    ensures
        spec_parse_long_tail(buf, d, pos, g).packet_type != PacketType::Error ==> 0 <= spec_parse_long_tail(buf, d, pos, g).offset
            && spec_parse_long_tail(buf, d, pos, g).offset + spec_parse_long_tail(buf, d, pos, g).payload_length <= buf.len(),
        spec_parse_long_tail(buf, d, pos, g).packet_context == d.packet_context,
        spec_parse_long_tail(buf, d, pos, g).epoch == d.epoch,
        spec_parse_long_tail(buf, d, pos, g).packet_type == d.packet_type
            || spec_parse_long_tail(buf, d, pos, g).packet_type == PacketType::Error,
        spec_parse_long_tail(buf, d, pos, g).version == d.version,
        spec_parse_long_tail(buf, d, pos, g).version_index == d.version_index,
        spec_parse_long_tail(buf, d, pos, g).dest_connection_id == d.dest_connection_id,
        spec_parse_long_tail(buf, d, pos, g).src_connection_id == d.src_connection_id,
{
    reveal(spec_parse_long_tail);
}

proof fn lemma_initial_keeps_level(buf: Seq<u8>, d: HeaderModel, pos: int, g: bool)
    requires
        0 <= pos,
    ensures
        spec_parse_initial(buf, d, pos, g).packet_type != PacketType::Error ==> 0 <= spec_parse_initial(buf, d, pos, g).offset
            && spec_parse_initial(buf, d, pos, g).offset + spec_parse_initial(buf, d, pos, g).payload_length <= buf.len(),
        spec_parse_initial(buf, d, pos, g).packet_context == d.packet_context,
        spec_parse_initial(buf, d, pos, g).epoch == d.epoch,
        spec_parse_initial(buf, d, pos, g).packet_type == d.packet_type
            || spec_parse_initial(buf, d, pos, g).packet_type == PacketType::Error,
        spec_parse_initial(buf, d, pos, g).version == d.version,
        spec_parse_initial(buf, d, pos, g).version_index == d.version_index,
        spec_parse_initial(buf, d, pos, g).dest_connection_id == d.dest_connection_id,
        spec_parse_initial(buf, d, pos, g).src_connection_id == d.src_connection_id,
{
    reveal(spec_parse_initial);
    match spec_varint_decode(buf.subrange(pos, buf.len() as int)) {
        None => {},
        Some((tl, n)) => {
            let p = pos + n;
            if !(tl > usize::MAX || p + tl > buf.len()) {
                lemma_long_tail_keeps_level(buf, HeaderModel { token_bytes: buf.subrange(p, p + tl), ..d }, p + tl, g);
            }
        },
    }
}

/// Whatever the bytes, a header read back from an outgoing packet belongs
/// where its type says: an Initial packet to the Initial space and epoch,
/// a 0-RTT packet to the application space and the 0-RTT epoch, a
/// Handshake packet to the Handshake space and epoch, and a 1-RTT packet
/// to the application space and the 1-RTT epoch.
pub proof fn law_parsed_header_level_matches_type(
    buf: Seq<u8>,
    outgoing_short_dcid_len: int,
    connection_version_index: i32,
    do_grease_quic_bit: bool,
    has_loss_bit: bool,
    versions: Seq<u32>,
)
    ensures
        header_level_agrees(
            spec_parse_outgoing_header(
                buf,
                outgoing_short_dcid_len,
                connection_version_index,
                do_grease_quic_bit,
                has_loss_bit,
                versions,
            ),
        ),
{
    if buf.len() > 0 && buf[0] & 0x80 != 0 && buf.len() >= 5 {
        let version = be32_at1(buf);
        if !(version != 0 && spec_version_index(versions, version) is None) && buf.len() > 5 {
            let d1 = HeaderModel { version, ..header_model_default() };
            let d2 = if version != 0 {
                HeaderModel { version_index: spec_version_index(versions, version).unwrap() as i32, ..d1 }
            } else {
                d1
            };
            let dl = buf[5] as int;
            if !(6 + dl > buf.len() || dl > CONNECTION_ID_MAX_SIZE) {
                let d3 = HeaderModel { dest_connection_id: buf.subrange(6, 6 + dl), ..d2 };
                let p = 6 + dl;
                if p < buf.len() {
                    let sl = buf[p] as int;
                    if !(p + 1 + sl > buf.len() || sl > CONNECTION_ID_MAX_SIZE) {
                        let d = HeaderModel { src_connection_id: buf.subrange(p + 1, p + 1 + sl), ..d3 };
                        let pos = p + 1 + sl;
                        if d.version != 0 {
                            let flags = buf[0];
                            let pt = spec_long_packet_type(flags, d.version);
                            let d5 = HeaderModel {
                                packet_type: pt,
                                quic_bit_is_zero: flags & 0x40 == 0,
                                spin: false,
                                has_spin_bit: false,
                                ..d
                            };
                            if pt == PacketType::Initial {
                                lemma_initial_keeps_level(
                                    buf,
                                    HeaderModel { packet_context: PacketContext::Initial, epoch: Epoch::Initial, ..d5 },
                                    pos,
                                    do_grease_quic_bit,
                                );
                            } else if pt == PacketType::ZeroRttProtected {
                                lemma_long_tail_keeps_level(
                                    buf,
                                    HeaderModel { packet_context: PacketContext::Application, epoch: Epoch::ZeroRtt, ..d5 },
                                    pos,
                                    do_grease_quic_bit,
                                );
                            } else if pt == PacketType::Handshake {
                                lemma_long_tail_keeps_level(
                                    buf,
                                    HeaderModel { packet_context: PacketContext::Handshake, epoch: Epoch::Handshake, ..d5 },
                                    pos,
                                    do_grease_quic_bit,
                                );
                            } else {
                                lemma_long_tail_keeps_level(
                                    buf,
                                    HeaderModel { packet_context: PacketContext::Initial, epoch: Epoch::Initial, ..d5 },
                                    pos,
                                    do_grease_quic_bit,
                                );
                            }
                        }
                    }
                }
            }
        }
    }
}


proof fn lemma_first_index(versions: Seq<u32>, version: u32, i: int)
    requires
        0 <= i < versions.len(),
        versions[i] == version,
    ensures
        exists|m: int|
            0 <= m < versions.len() && versions[m] == version && forall|j: int| 0 <= j < m ==> versions[j] != version,
    decreases i,
{
    if exists|j: int| 0 <= j < i && versions[j] == version {
        let j = choose|j: int| 0 <= j < i && versions[j] == version;
        lemma_first_index(versions, version, j);
    } else {
        assert(0 <= i < versions.len() && versions[i] == version && forall|j: int| 0 <= j < i ==> versions[j]
            != version);
    }
}

/// Packet type of a long header of `version` by the two type bits of its
/// first byte: version 1 numbers Initial, 0-RTT, Handshake and Retry from
/// 0 to 3, version 2 numbers Retry, Initial, 0-RTT and Handshake.
pub open spec fn long_type_by_bits(first: u8, version: u32) -> PacketType {
    let bits = (first / 16) % 4;
    if version == QUIC_V2_VERSION {
        seq![PacketType::Retry, PacketType::Initial, PacketType::ZeroRttProtected, PacketType::Handshake][bits as int]
    } else {
        seq![PacketType::Initial, PacketType::ZeroRttProtected, PacketType::Handshake, PacketType::Retry][bits as int]
    }
}

/// A long header read back without error carries what its bytes say: the
/// version of bytes 1 to 4 (0 for version negotiation, and otherwise one
/// of `versions`, at the index reported), the destination ID after its
/// length byte 5, the source ID after its own length byte, and the type
/// that the type bits give for that version.
pub proof fn law_long_header_reads_its_bytes(
    buf: Seq<u8>,
    outgoing_short_dcid_len: int,
    connection_version_index: i32,
    do_grease_quic_bit: bool,
    has_loss_bit: bool,
    versions: Seq<u32>,
)
    requires
        versions.len() <= i32::MAX,
        buf.len() > 0,
        buf[0] & 0x80 != 0,
        spec_parse_outgoing_header(buf, outgoing_short_dcid_len, connection_version_index, do_grease_quic_bit,
            has_loss_bit, versions).packet_type != PacketType::Error,
    ensures
        ({
            let r = spec_parse_outgoing_header(buf, outgoing_short_dcid_len, connection_version_index,
                do_grease_quic_bit, has_loss_bit, versions);
            let dl = buf[5] as int;
            let sl = buf[6 + dl] as int;
            &&& buf.len() >= 7 + dl + sl
            &&& r.version as int == buf[1] * 0x100_0000 + buf[2] * 0x1_0000 + buf[3] * 0x100 + buf[4]
            &&& (r.version == 0 <==> r.packet_type == PacketType::VersionNegotiation)
            &&& r.version != 0 ==> 0 <= r.version_index < versions.len() && versions[r.version_index as int]
                == r.version
            &&& r.dest_connection_id == buf.subrange(6, 6 + dl)
            &&& r.src_connection_id == buf.subrange(7 + dl, 7 + dl + sl)
            &&& r.version != 0 ==> r.packet_type == long_type_by_bits(buf[0], r.version)
        }),
{
    let version = be32_at1(buf);
    let d1 = HeaderModel { version, ..header_model_default() };
    if version != 0 {
        let w = choose|i: int| 0 <= i < versions.len() && versions[i] == version;
        lemma_first_index(versions, version, w);
        let i = spec_version_index(versions, version).unwrap();
        assert(0 <= i < versions.len() && versions[i] == version);
    }
    let d2 = if version != 0 {
        HeaderModel { version_index: spec_version_index(versions, version).unwrap() as i32, ..d1 }
    } else {
        d1
    };
    let dl = buf[5] as int;
    let d3 = HeaderModel { dest_connection_id: buf.subrange(6, 6 + dl), ..d2 };
    let p = 6 + dl;
    let sl = buf[p] as int;
    let d = HeaderModel { src_connection_id: buf.subrange(p + 1, p + 1 + sl), ..d3 };
    let pos = p + 1 + sl;
    if d.version != 0 {
        let flags = buf[0];
        let pt = spec_long_packet_type(flags, d.version);
        let d5 = HeaderModel { packet_type: pt, quic_bit_is_zero: flags & 0x40 == 0, spin: false, has_spin_bit: false, ..d };
        let bits = (flags / 16) % 4;
        assert(pt == long_type_by_bits(flags, d.version)) by {
            if bits == 0 {} else if bits == 1 {} else if bits == 2 {} else {}
        }
        if pt == PacketType::Initial {
            lemma_initial_keeps_level(buf, HeaderModel { packet_context: PacketContext::Initial, epoch: Epoch::Initial, ..d5 }, pos, do_grease_quic_bit);
        } else if pt == PacketType::ZeroRttProtected {
            lemma_long_tail_keeps_level(buf, HeaderModel { packet_context: PacketContext::Application, epoch: Epoch::ZeroRtt, ..d5 }, pos, do_grease_quic_bit);
        } else if pt == PacketType::Handshake {
            lemma_long_tail_keeps_level(buf, HeaderModel { packet_context: PacketContext::Handshake, epoch: Epoch::Handshake, ..d5 }, pos, do_grease_quic_bit);
        } else {
            lemma_long_tail_keeps_level(buf, HeaderModel { packet_context: PacketContext::Initial, epoch: Epoch::Initial, ..d5 }, pos, do_grease_quic_bit);
        }
    }
}


/// The payload that a header read without error announces lies within the
/// packet: it starts at the header's end and does not run past the bytes.
pub proof fn law_parsed_payload_within_packet(
    buf: Seq<u8>,
    outgoing_short_dcid_len: int,
    connection_version_index: i32,
    do_grease_quic_bit: bool,
    has_loss_bit: bool,
    versions: Seq<u32>,
)
    requires
        0 <= outgoing_short_dcid_len,
    ensures
        ({
            let r = spec_parse_outgoing_header(buf, outgoing_short_dcid_len, connection_version_index,
                do_grease_quic_bit, has_loss_bit, versions);
            r.packet_type != PacketType::Error ==> 0 <= r.offset && r.offset + r.payload_length <= buf.len()
        }),
{
    if buf.len() > 0 && buf[0] & 0x80 != 0 && buf.len() >= 5 {
        let version = be32_at1(buf);
        if !(version != 0 && spec_version_index(versions, version) is None) && buf.len() > 5 {
            let d1 = HeaderModel { version, ..header_model_default() };
            let d2 = if version != 0 {
                HeaderModel { version_index: spec_version_index(versions, version).unwrap() as i32, ..d1 }
            } else {
                d1
            };
            let dl = buf[5] as int;
            if !(6 + dl > buf.len() || dl > CONNECTION_ID_MAX_SIZE) {
                let d3 = HeaderModel { dest_connection_id: buf.subrange(6, 6 + dl), ..d2 };
                let p = 6 + dl;
                if p < buf.len() {
                    let sl = buf[p] as int;
                    if !(p + 1 + sl > buf.len() || sl > CONNECTION_ID_MAX_SIZE) {
                        let d = HeaderModel { src_connection_id: buf.subrange(p + 1, p + 1 + sl), ..d3 };
                        let pos = p + 1 + sl;
                        if d.version != 0 {
                            let flags = buf[0];
                            let pt = spec_long_packet_type(flags, d.version);
                            let d5 = HeaderModel {
                                packet_type: pt,
                                quic_bit_is_zero: flags & 0x40 == 0,
                                spin: false,
                                has_spin_bit: false,
                                ..d
                            };
                            if pt == PacketType::Initial {
                                lemma_initial_keeps_level(buf, HeaderModel { packet_context: PacketContext::Initial, epoch: Epoch::Initial, ..d5 }, pos, do_grease_quic_bit);
                            } else if pt == PacketType::ZeroRttProtected {
                                lemma_long_tail_keeps_level(buf, HeaderModel { packet_context: PacketContext::Application, epoch: Epoch::ZeroRtt, ..d5 }, pos, do_grease_quic_bit);
                            } else if pt == PacketType::Handshake {
                                lemma_long_tail_keeps_level(buf, HeaderModel { packet_context: PacketContext::Handshake, epoch: Epoch::Handshake, ..d5 }, pos, do_grease_quic_bit);
                            } else {
                                lemma_long_tail_keeps_level(buf, HeaderModel { packet_context: PacketContext::Initial, epoch: Epoch::Initial, ..d5 }, pos, do_grease_quic_bit);
                            }
                        }
                    }
                }
            }
        }
    }
}

} // verus!
