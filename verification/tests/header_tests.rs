use fq::header::{
    append_varint, long_packet_type, packet_payload, parse_outgoing_header, supported_version_index, varint_decode, Epoch, PacketHeader,
    PacketType, QUIC_V1_VERSION, QUIC_V2_VERSION,
};
use fq::types::PacketContext;

const VERSIONS: [u32; 2] = [QUIC_V1_VERSION, QUIC_V2_VERSION];

#[test]
fn varint_one_byte() {
    assert_eq!(varint_decode(&[0x25]), Some((0x25, 1)));
}

#[test]
fn varint_rfc_examples() {
    // RFC 9000 appendix A.1 examples.
    assert_eq!(varint_decode(&[0x7b, 0xbd]), Some((15293, 2)));
    assert_eq!(varint_decode(&[0x9d, 0x7f, 0x3e, 0x7d]), Some((494878333, 4)));
    assert_eq!(
        varint_decode(&[0xc2, 0x19, 0x7c, 0x5e, 0xff, 0x14, 0xe8, 0x8c]),
        Some((151288809941952652, 8))
    );
    assert_eq!(varint_decode(&[0x40, 0x25]), Some((37, 2)));
}

#[test]
fn varint_truncated_or_empty() {
    assert_eq!(varint_decode(&[]), None);
    assert_eq!(varint_decode(&[0x7b]), None);
    assert_eq!(varint_decode(&[0xc2, 0x19, 0x7c]), None);
}

#[test]
fn long_type_bits_v1_and_v2() {
    assert_eq!(long_packet_type(0xc0, QUIC_V1_VERSION), PacketType::Initial);
    assert_eq!(long_packet_type(0xd0, QUIC_V1_VERSION), PacketType::ZeroRttProtected);
    assert_eq!(long_packet_type(0xe0, QUIC_V1_VERSION), PacketType::Handshake);
    assert_eq!(long_packet_type(0xf0, QUIC_V1_VERSION), PacketType::Retry);
    assert_eq!(long_packet_type(0xc0, QUIC_V2_VERSION), PacketType::Retry);
    assert_eq!(long_packet_type(0xd0, QUIC_V2_VERSION), PacketType::Initial);
    assert_eq!(long_packet_type(0xe0, QUIC_V2_VERSION), PacketType::ZeroRttProtected);
    assert_eq!(long_packet_type(0xf0, QUIC_V2_VERSION), PacketType::Handshake);
}

#[test]
fn version_index_lookup() {
    assert_eq!(supported_version_index(&VERSIONS, QUIC_V1_VERSION), Some(0));
    assert_eq!(supported_version_index(&VERSIONS, QUIC_V2_VERSION), Some(1));
    assert_eq!(supported_version_index(&VERSIONS, 0xdead_beef), None);
}

#[test]
fn empty_buffer_is_error() {
    let ph = parse_outgoing_header(&[], 8, 0, false, false, &VERSIONS);
    assert_eq!(ph.packet_type, PacketType::Error);
}

#[test]
fn short_header_one_rtt() {
    // flags: fixed bit, spin bit, key phase; 4-byte DCID; 3 bytes of payload.
    let buf = [0x40 | 0x20 | 0x04, 1, 2, 3, 4, 9, 9, 9];
    let ph = parse_outgoing_header(&buf, 4, 1, false, false, &VERSIONS);
    assert_eq!(ph.packet_type, PacketType::OneRttProtected);
    assert_eq!(ph.packet_context, PacketContext::Application);
    assert_eq!(ph.epoch, Epoch::OneRtt);
    assert_eq!(ph.dest_connection_id.as_bytes(), &[1, 2, 3, 4]);
    assert_eq!(ph.offset, 5);
    assert_eq!(ph.packet_number_offset, 5);
    assert_eq!(ph.payload_length, 3);
    assert_eq!(ph.version_index, 1);
    assert!(ph.spin);
    assert!(ph.key_phase);
    assert!(ph.has_spin_bit);
    assert!(!ph.has_loss_bits);
}

#[test]
fn short_header_loss_bits() {
    let buf = [0x40 | 0x08 | 0x10, 7, 7];
    let ph = parse_outgoing_header(&buf, 1, 0, false, true, &VERSIONS);
    assert!(ph.has_loss_bits);
    assert!(ph.loss_bit_l);
    assert!(ph.loss_bit_q);
    assert_eq!(ph.payload_length, 1);
}

#[test]
fn short_header_zero_quic_bit_without_grease_is_error() {
    let buf = [0x00, 1, 2, 3];
    let ph = parse_outgoing_header(&buf, 2, 0, false, false, &VERSIONS);
    assert_eq!(ph.packet_type, PacketType::Error);
    assert_eq!(ph.payload_length, 0);
    let greased = parse_outgoing_header(&buf, 2, 0, true, false, &VERSIONS);
    assert_eq!(greased.packet_type, PacketType::OneRttProtected);
    assert!(greased.quic_bit_is_zero);
    assert_eq!(greased.payload_length, 1);
}

#[test]
fn short_header_too_short() {
    let buf = [0x40, 1, 2];
    let ph = parse_outgoing_header(&buf, 8, 0, false, false, &VERSIONS);
    assert_eq!(ph.packet_type, PacketType::Error);
    assert_eq!(ph.offset, 3);
    assert_eq!(ph.payload_length, 0);
}

fn long_header(flags: u8, version: u32, dcid: &[u8], scid: &[u8]) -> Vec<u8> {
    let mut v = vec![flags];
    v.extend_from_slice(&version.to_be_bytes());
    v.push(dcid.len() as u8);
    v.extend_from_slice(dcid);
    v.push(scid.len() as u8);
    v.extend_from_slice(scid);
    v
}

#[test]
fn long_header_initial_with_token() {
    let mut buf = long_header(0xc0, QUIC_V1_VERSION, &[1, 2, 3, 4], &[5, 6]);
    buf.extend_from_slice(&[2, 0xaa, 0xbb]); // token of two bytes
    buf.extend_from_slice(&[0x40, 0x04]); // payload length 4 (two-byte varint)
    buf.extend_from_slice(&[1, 2, 3, 4]);
    let ph = parse_outgoing_header(&buf, 0, 0, false, false, &VERSIONS);
    assert_eq!(ph.packet_type, PacketType::Initial);
    assert_eq!(ph.packet_context, PacketContext::Initial);
    assert_eq!(ph.epoch, Epoch::Initial);
    assert_eq!(ph.version, QUIC_V1_VERSION);
    assert_eq!(ph.version_index, 0);
    assert_eq!(ph.dest_connection_id.as_bytes(), &[1, 2, 3, 4]);
    assert_eq!(ph.src_connection_id.as_bytes(), &[5, 6]);
    assert_eq!(ph.token_bytes, vec![0xaa, 0xbb]);
    assert_eq!(ph.offset, 18);
    assert_eq!(ph.packet_number_offset, 18);
    assert_eq!(ph.payload_length, 4);
    assert_eq!(ph.payload_length_value, 4);
}

#[test]
fn long_header_handshake_v2() {
    let mut buf = long_header(0xf0, QUIC_V2_VERSION, &[9], &[]);
    buf.extend_from_slice(&[3, 1, 1, 1]);
    let ph = parse_outgoing_header(&buf, 0, 0, false, false, &VERSIONS);
    assert_eq!(ph.packet_type, PacketType::Handshake);
    assert_eq!(ph.packet_context, PacketContext::Handshake);
    assert_eq!(ph.epoch, Epoch::Handshake);
    assert_eq!(ph.version_index, 1);
    assert_eq!(ph.payload_length, 3);
}

#[test]
fn long_header_payload_too_long() {
    let mut buf = long_header(0xe0, QUIC_V1_VERSION, &[9], &[]);
    buf.extend_from_slice(&[10, 1, 1]);
    let ph = parse_outgoing_header(&buf, 0, 0, false, false, &VERSIONS);
    assert_eq!(ph.packet_type, PacketType::Error);
    assert_eq!(ph.payload_length, buf.len());
}

#[test]
fn long_header_retry_takes_rest() {
    let mut buf = long_header(0xf0, QUIC_V1_VERSION, &[1], &[2]);
    buf.extend_from_slice(&[0xaa; 20]);
    let ph = parse_outgoing_header(&buf, 0, 0, false, false, &VERSIONS);
    assert_eq!(ph.packet_type, PacketType::Retry);
    assert_eq!(ph.offset, 9);
    assert_eq!(ph.payload_length, 20);
}

#[test]
fn version_negotiation_packet() {
    let mut buf = long_header(0x80, 0, &[1, 2], &[3]);
    buf.extend_from_slice(&QUIC_V1_VERSION.to_be_bytes());
    let ph = parse_outgoing_header(&buf, 0, 0, false, false, &VERSIONS);
    assert_eq!(ph.packet_type, PacketType::VersionNegotiation);
    assert_eq!(ph.offset, 10);
    assert_eq!(ph.payload_length, 4);
}

#[test]
fn unknown_version_is_error() {
    let buf = long_header(0xc0, 0x1234_5678, &[1], &[2]);
    let ph = parse_outgoing_header(&buf, 0, 0, false, false, &VERSIONS);
    assert_eq!(ph.packet_type, PacketType::Error);
    assert_eq!(ph.version_index, -1);
    assert_eq!(ph.version, 0x1234_5678);
}

#[test]
fn over_long_connection_id_is_error() {
    let buf = long_header(0xc0, QUIC_V1_VERSION, &[1; 21], &[2]);
    let ph = parse_outgoing_header(&buf, 0, 0, false, false, &VERSIONS);
    assert_eq!(ph.packet_type, PacketType::Error);
}

#[test]
fn default_header_is_error() {
    let ph = PacketHeader::default();
    assert_eq!(ph.packet_type, PacketType::Error);
    assert_eq!(ph.offset, 0);
    assert!(ph.token_bytes.is_empty());
}

#[test]
fn varint_encoding_rfc_examples() {
    let mut out = Vec::new();
    append_varint(&mut out, 37);
    assert_eq!(out, vec![0x25]);
    out.clear();
    append_varint(&mut out, 15293);
    assert_eq!(out, vec![0x7b, 0xbd]);
    out.clear();
    append_varint(&mut out, 494878333);
    assert_eq!(out, vec![0x9d, 0x7f, 0x3e, 0x7d]);
    out.clear();
    append_varint(&mut out, 151288809941952652);
    assert_eq!(out, vec![0xc2, 0x19, 0x7c, 0x5e, 0xff, 0x14, 0xe8, 0x8c]);
    out.clear();
    append_varint(&mut out, 1 << 62);
    assert!(out.is_empty());
}

#[test]
fn varint_roundtrip_values() {
    for v in [0u64, 1, 63, 64, 16383, 16384, (1 << 30) - 1, 1 << 30, (1 << 62) - 1] {
        let mut out = vec![];
        append_varint(&mut out, v);
        let n = out.len();
        out.push(0xff);
        assert_eq!(varint_decode(&out), Some((v, n)));
    }
}

#[test]
fn payload_after_header() {
    let bytes = [0xc0, 1, 2, 3, 4, 5, 6, 7];
    let mut ph = PacketHeader::default();
    ph.offset = 3;
    ph.payload_length = 4;
    assert_eq!(packet_payload(&bytes, &ph), &[3, 4, 5, 6]);
    // A payload that runs past the end is read from the start.
    ph.payload_length = 6;
    assert_eq!(packet_payload(&bytes, &ph), &[0xc0, 1, 2, 3, 4, 5]);
    // A payload length beyond the bytes is cut to them.
    ph.offset = 0;
    ph.payload_length = 100;
    assert_eq!(packet_payload(&bytes, &ph), &bytes[..]);
}
