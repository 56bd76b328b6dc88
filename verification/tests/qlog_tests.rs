use fq::qlog_frames::{frame_ack_frequency, frame_connection_close, qlog_frames, FrameName, frame_bdp, frame_ip_address, frame_observed_address, frame_crypto_hs, frame_datagram, frame_hex_string, frame_max_streams, frame_new_connection_id, frame_new_token, frame_one_param, frame_path_challenge_response, frame_reset, frame_two_params};
use fq::qlog::{qlog_transport_extensions, TransportParameterName, push_decimal, qlog_chars, qlog_preferred_address, qlog_string, qlog_tp_version_negotiation};
use fq::types::Error;

fn text(v: &[u8]) -> String {
    String::from_utf8(v.to_vec()).unwrap()
}

#[test]
fn qlog_string_hex() {
    let mut out = Vec::new();
    assert_eq!(qlog_string(&mut out, &[0x01, 0xab, 0xff], 3), Ok(()));
    assert_eq!(text(&out), "\"01abff\"");
}

#[test]
fn qlog_string_truncated() {
    let mut out = Vec::new();
    assert_eq!(qlog_string(&mut out, &[0x0a], 3), Err(Error::InvalidFrame));
    assert_eq!(text(&out), "\"0a... coding error!\"");
}

#[test]
fn qlog_string_prefix_only() {
    let mut out = b"x=".to_vec();
    assert_eq!(qlog_string(&mut out, &[1, 2, 3], 2), Ok(()));
    assert_eq!(text(&out), "x=\"0102\"");
}

#[test]
fn qlog_chars_escapes() {
    let mut out = Vec::new();
    assert_eq!(qlog_chars(&mut out, b"a\"b\\c\x01", 6), Ok(()));
    assert_eq!(text(&out), "\"a\\\"b\\\\c\\01\"");
}

#[test]
fn qlog_chars_truncated() {
    let mut out = Vec::new();
    assert_eq!(qlog_chars(&mut out, b"hi", 5), Err(Error::InvalidFrame));
    assert_eq!(text(&out), "\"hi... coding error!\"");
}

#[test]
fn decimal_digits() {
    let mut out = Vec::new();
    push_decimal(&mut out, 0);
    out.push(b' ');
    push_decimal(&mut out, 1234567890123);
    assert_eq!(text(&out), "0 1234567890123");
}

#[test]
fn version_negotiation_tp() {
    let mut out = Vec::new();
    let s = [0, 0, 0, 1, 0x6b, 0x33, 0x43, 0xcf, 0xff, 0, 0, 0x1d];
    qlog_tp_version_negotiation(&mut out, &s, 12);
    assert_eq!(text(&out), "{ \"chosen\": \"00000001\", \"others\": [\"6b3343cf\", \"ff00001d\"]}");
}

#[test]
fn version_negotiation_tp_single() {
    let mut out = Vec::new();
    qlog_tp_version_negotiation(&mut out, &[0, 0, 0, 1], 4);
    assert_eq!(text(&out), "{ \"chosen\": \"00000001\"}");
}

#[test]
fn version_negotiation_tp_bad_length() {
    let mut out = Vec::new();
    qlog_tp_version_negotiation(&mut out, &[0, 0, 0, 1, 2], 5);
    assert_eq!(text(&out), "{ \"bad_length\": \"5}");
}

#[test]
fn version_negotiation_tp_short_input() {
    let mut out = Vec::new();
    qlog_tp_version_negotiation(&mut out, &[0, 0], 8);
    assert_eq!(text(&out), ",\n    \"vnego_parameter_length\": 8,\n    \"bytes_available\": 2");
}

#[test]
fn preferred_address_full() {
    let mut s = vec![192, 168, 1, 2, 0x11, 0x51];
    s.extend_from_slice(&[0x20, 0x01, 0x0d, 0xb8, 0, 0, 0, 0, 0, 0, 0, 0, 0, 0, 0, 1]);
    s.extend_from_slice(&[0x11, 0x52]);
    s.push(2);
    s.extend_from_slice(&[0xab, 0xcd]);
    s.extend_from_slice(&[0x55; 16]);
    let mut out = Vec::new();
    qlog_preferred_address(&mut out, &s, s.len());
    assert_eq!(
        text(&out),
        "\"ip_v4\": \"192.168.1.2\", \"port_v4\":4433, \"ip_v6\": \"2001:db8:0:0:0:0:0:1\", \"port_v6\" : 4434, \"connection_id\": \"abcd\", \"stateless_reset_token\": \"55555555555555555555555555555555\""
    );
}

#[test]
fn preferred_address_extra_bytes() {
    let mut s = vec![10, 0, 0, 1, 0, 80];
    s.extend_from_slice(&[0; 16]);
    s.extend_from_slice(&[0, 81]);
    s.push(0);
    s.extend_from_slice(&[1; 16]);
    s.push(0xee);
    let mut out = Vec::new();
    qlog_preferred_address(&mut out, &s, s.len());
    let t = text(&out);
    assert!(t.ends_with("\", \"extra_bytes\": \"ee\""));
    assert!(t.contains("\"connection_id\": \"\""));
}

#[test]
fn preferred_address_truncated() {
    let s = [1, 2];
    let mut out = Vec::new();
    qlog_preferred_address(&mut out, &s, 2);
    assert_eq!(
        text(&out),
        "\"ip_v4\": \"1.2\", \"port_v4\":0, \"ip_v6\": \"0:0:0:0:0:0:0:0\", \"port_v6\" : 0, \"connection_id\": \"\", \"stateless_reset_token\": \"... coding error!\""
    );
}

#[test]
fn ack_frame_ranges() {
    let mut out = Vec::new();
    let frame = [0x02u8, 10, 3, 1, 2, 1, 1, 0xaa];
    let rest = fq::qlog_frames::frame_ack(&mut out, &frame, false, false);
    assert_eq!(rest, Some(&frame[7..]));
    assert_eq!(String::from_utf8(out).unwrap(), ", \"ack_delay\": 3, \"acked_ranges\": [[8, 10], [4, 5]]");
}

#[test]
fn ack_frame_with_ecn_and_path() {
    let mut out = Vec::new();
    let frame = [0x03u8, 10, 3, 0, 0, 5, 6, 7];
    assert_eq!(fq::qlog_frames::frame_ack(&mut out, &frame, false, true), Some(&frame[8..]));
    assert_eq!(
        String::from_utf8(out).unwrap(),
        ", \"ack_delay\": 3, \"acked_ranges\": [[10, 10]], \"ect0\": 5, \"ect1\": 6, \"ce\": 7"
    );
    let mut out = Vec::new();
    let frame = [0x40u8, 0x15, 4, 9, 0, 0, 0];
    assert_eq!(fq::qlog_frames::frame_ack(&mut out, &frame, true, false), Some(&frame[7..]));
    assert_eq!(String::from_utf8(out).unwrap(), ", \"path_id\": 4, \"ack_delay\": 0, \"acked_ranges\": [[9, 9]]");
}

#[test]
fn ack_frame_broken_range() {
    let mut out = Vec::new();
    let frame = [0x02u8, 1, 0, 0, 5];
    assert_eq!(fq::qlog_frames::frame_ack(&mut out, &frame, false, false), None);
    assert_eq!(String::from_utf8(out).unwrap(), ", \"ack_delay\": 0, \"acked_ranges\": [[-1, -1]]");
    // Opening fields missing: nothing written.
    let mut out = Vec::new();
    assert_eq!(fq::qlog_frames::frame_ack(&mut out, &[0x02u8, 1], false, false), None);
    assert!(out.is_empty());
}

#[test]
fn stream_frame_text() {
    let mut out = Vec::new();
    let frame = [0x0fu8, 4, 0x40, 0x10, 3, b'a', b'b', b'c', 0x99];
    assert_eq!(fq::qlog_frames::frame_stream(&mut out, &frame), Some(&frame[8..]));
    assert_eq!(
        String::from_utf8(out).unwrap(),
        ", \"id\": 4, \"offset\": 16, \"length\": 3, \"fin\": true , \"begins_with\": \"616263\""
    );
    let mut out = Vec::new();
    let frame = [0x08u8, 1, 1, 2, 3, 4, 5, 6, 7, 8, 9, 10];
    assert_eq!(fq::qlog_frames::frame_stream(&mut out, &frame), Some(&frame[12..]));
    assert_eq!(
        String::from_utf8(out).unwrap(),
        ", \"id\": 1, \"offset\": 0, \"length\": 10, \"fin\": false , \"has_length\": false, \"begins_with\": \"0102030405060708\""
    );
    // Data announced past the end: nothing written.
    let mut out = Vec::new();
    assert_eq!(fq::qlog_frames::frame_stream(&mut out, &[0x0au8, 1, 5, 1]), None);
    assert!(out.is_empty());
}

#[test]
fn qlog_numeric_frame_fields() {
    let mut out = Vec::new();
    let body = [0x05u8, 0x40, 0x64, 0xaa];
    assert_eq!(frame_one_param(&mut out, &body, "maximum"), Some(&body[1..]));
    assert_eq!(text(&out), ", \"maximum\": 5");
    let mut out = Vec::new();
    assert_eq!(frame_two_params(&mut out, &body, "stream_id", "limit"), Some(&body[3..]));
    assert_eq!(text(&out), ", \"stream_id\": 5, \"limit\": 100");
    // A field that runs past the bytes: nothing is written.
    let mut out = Vec::new();
    assert_eq!(frame_two_params(&mut out, &[0x05u8, 0x40], "a", "b"), None);
    assert!(out.is_empty());
    let mut out = Vec::new();
    let reset = [0x04u8, 0x01, 0x10, 0x08];
    assert_eq!(frame_reset(&mut out, &reset, false), Some(&reset[3..]));
    assert_eq!(text(&out), ", \"stream_id\": 4, \"error_code\": 1, \"final_size\": 16");
    let mut out = Vec::new();
    assert_eq!(frame_reset(&mut out, &reset, true), Some(&reset[4..]));
    assert_eq!(text(&out), ", \"stream_id\": 4, \"error_code\": 1, \"final_size\": 16, \"reliable_size\": 8");
    let mut out = Vec::new();
    assert_eq!(frame_reset(&mut out, &reset[..3], true), None);
    assert!(out.is_empty());
    let mut out = Vec::new();
    assert_eq!(frame_ack_frequency(&mut out, &reset), Some(&reset[4..]));
    assert_eq!(
        text(&out),
        ", \"sequence_number\": 4, \"packet_tolerance\": 1, \"max_ack_delay\": 16, \"reordering_threshold\": 8"
    );
}

#[test]
fn qlog_crypto_and_streams_frames() {
    let mut out = Vec::new();
    let crypto = [0x00u8, 0x02, 0xde, 0xad, 0x07];
    assert_eq!(frame_crypto_hs(&mut out, &crypto), Some(&crypto[4..]));
    assert_eq!(text(&out), ", \"offset\": 0, \"length\": 2");
    // The data runs past the bytes: the fields are written, nothing is left.
    let mut out = Vec::new();
    assert_eq!(frame_crypto_hs(&mut out, &[0x00u8, 0x09, 0xde]), None);
    assert_eq!(text(&out), ", \"offset\": 0, \"length\": 9");
    let mut out = Vec::new();
    assert_eq!(frame_max_streams(&mut out, &[0x0au8], true, false), Some(&[][..]));
    assert_eq!(text(&out), ", \"stream_type\": \"bidirectional\", \"maximum\": 10");
    let mut out = Vec::new();
    assert_eq!(frame_max_streams(&mut out, &[0x0au8, 0x01], false, true), Some(&[0x01u8][..]));
    assert_eq!(text(&out), ", \"stream_type\": \"unidirectional\", \"limit\": 10");
    // The count cannot be read: the stream type stays written.
    let mut out = Vec::new();
    assert_eq!(frame_max_streams(&mut out, &[], true, true), None);
    assert_eq!(text(&out), ", \"stream_type\": \"bidirectional\"");
}

#[test]
fn qlog_byte_string_frames() {
    let mut out = Vec::new();
    assert_eq!(frame_hex_string(&mut out, &[0xabu8, 0x01, 0x02], 2), Some(&[0x02u8][..]));
    assert_eq!(text(&out), "\"ab01\"");
    let mut out = Vec::new();
    assert_eq!(frame_hex_string(&mut out, &[0xabu8], 2), None);
    assert_eq!(text(&out), "\"... coding error!\"");
    let mut out = Vec::new();
    let token = [0x02u8, 0xca, 0xfe, 0x09];
    assert_eq!(frame_new_token(&mut out, &token), Some(&token[3..]));
    assert_eq!(text(&out), ", \"new_token\": \"cafe\"");
    let mut out = Vec::new();
    assert_eq!(frame_new_token(&mut out, &[0x05u8, 0xca]), None);
    assert_eq!(text(&out), ", \"new_token\": \"... coding error!\"");
    let mut out = Vec::new();
    let data = [1u8, 2, 3, 4, 5, 6, 7, 8, 9];
    assert_eq!(frame_path_challenge_response(&mut out, &data, true), Some(&data[8..]));
    assert_eq!(text(&out), ", \"path_challenge\": \"0102030405060708\"");
    let mut out = Vec::new();
    assert_eq!(frame_path_challenge_response(&mut out, &data[..7], false), None);
    assert!(out.is_empty());
    let mut out = Vec::new();
    assert_eq!(frame_path_challenge_response(&mut out, &data[1..], false), Some(&[][..]));
    assert_eq!(text(&out), ", \"path_response\": \"0203040506070809\"");
    let mut out = Vec::new();
    let dg = [0x02u8, 0x10, 0x11, 0x12];
    assert_eq!(frame_datagram(&mut out, &dg, true), Some(&dg[3..]));
    assert_eq!(text(&out), ", \"length\": 2");
    let mut out = Vec::new();
    assert_eq!(frame_datagram(&mut out, &[0x04u8, 0x10], true), None);
    assert!(out.is_empty());
    let mut out = Vec::new();
    assert_eq!(frame_datagram(&mut out, &dg, false), Some(&[][..]));
    assert!(out.is_empty());
}

#[test]
fn qlog_new_connection_id_frame() {
    let mut body = vec![0x01u8, 0x00, 0x04, 0xaa, 0xbb, 0xcc, 0xdd];
    body.extend_from_slice(&[0x11u8; 16]);
    body.push(0x99);
    let mut out = Vec::new();
    assert_eq!(frame_new_connection_id(&mut out, &body, false), Some(&body[23..]));
    assert_eq!(
        text(&out),
        ", \"sequence_number\": 1, \"retire_before\": 0, \"connection_id\": \"aabbccdd\", \"reset_token\": \"11111111111111111111111111111111\""
    );
    let mut with_path = vec![0x03u8];
    with_path.extend_from_slice(&body);
    let mut out = Vec::new();
    assert_eq!(frame_new_connection_id(&mut out, &with_path, true), Some(&with_path[24..]));
    assert!(text(&out).starts_with(", \"path_id\": 3, \"sequence_number\": 1"));
    // A token cut short: the text so far stays, with the coding error marker.
    let mut out = Vec::new();
    assert_eq!(frame_new_connection_id(&mut out, &body[..20], false), None);
    assert_eq!(
        text(&out),
        ", \"sequence_number\": 1, \"retire_before\": 0, \"connection_id\": \"aabbccdd\", \"reset_token\": \"... coding error!\""
    );
    // The path ID is written even when the rest cannot be read.
    let mut out = Vec::new();
    assert_eq!(frame_new_connection_id(&mut out, &[0x03u8, 0x01], true), None);
    assert_eq!(text(&out), ", \"path_id\": 3");
}

#[test]
fn qlog_addresses_in_frames() {
    let mut out = Vec::new();
    frame_ip_address(&mut out, &[192u8, 168, 0, 1]);
    assert_eq!(text(&out), "\"192.168.0.1\"");
    let mut out = Vec::new();
    let v6 = [0x20u8, 0x01, 0x0d, 0xb8, 0, 0, 0, 0, 0, 0, 0, 0, 0, 0, 0x00, 0x01];
    frame_ip_address(&mut out, &v6);
    assert_eq!(text(&out), "\"2001:db8:0:0:0:0:0:1\"");
    let mut out = Vec::new();
    frame_ip_address(&mut out, &[1u8, 2, 3]);
    assert_eq!(text(&out), "\"invalid address length 3\"");
    // BDP: lifetime, bytes in flight, min RTT, then a four-byte address.
    let bdp = [0x0au8, 0x14, 0x1e, 0x04, 10, 0, 0, 2, 0x77];
    let mut out = Vec::new();
    assert_eq!(frame_bdp(&mut out, &bdp), Some(&bdp[8..]));
    assert_eq!(
        text(&out),
        ", \"lifetime\": 10, \"recon_bytes_in_flight\": 20, \"recon_min_rtt\": 30, \"saved_ip\": \"10.0.0.2\""
    );
    let mut out = Vec::new();
    assert_eq!(frame_bdp(&mut out, &[0x0au8, 0x14, 0x1e, 0x10, 1, 2, 3, 4]), None);
    assert!(out.is_empty());
    let mut out = Vec::new();
    assert_eq!(frame_bdp(&mut out, &bdp[..7]), None);
    assert!(out.is_empty());
    // Observed address: IPv4 for an even frame type, then the port.
    let obs = [0x02u8, 127, 0, 0, 1, 0x11, 0x51];
    let mut out = Vec::new();
    assert_eq!(frame_observed_address(&mut out, &obs, 0x9f81a6), Some(&obs[7..]));
    assert_eq!(text(&out), ", \"sequence\": 2, \"address\": \"127.0.0.1\", \"port\": 4433");
    let mut out = Vec::new();
    assert_eq!(frame_observed_address(&mut out, &obs, 0x9f81a7), None);
    assert!(out.is_empty());
}

fn frame_names() -> Vec<FrameName> {
    vec![
        FrameName { frame_type: 0x01, name: "ping" },
        FrameName { frame_type: 0x06, name: "crypto" },
        FrameName { frame_type: 0x10, name: "max_data" },
    ]
}

#[test]
fn qlog_connection_close_frames() {
    let names = frame_names();
    let body = [0x0au8, 0x06, 0x03, b'a', b'b', 0x01, 0x42];
    let mut out = Vec::new();
    assert_eq!(frame_connection_close(&mut out, &body, false, &names), Some(&body[6..]));
    assert_eq!(
        text(&out),
        ", \"error_space\": \"transport\", \"error_code\": 10, \"trigger_frame_type\": \"crypto\", \"reason\": \"ab.\""
    );
    // A trigger that the table does not list is written in hexadecimal.
    let mut out = Vec::new();
    assert_eq!(frame_connection_close(&mut out, &[0x01u8, 0x1f, 0x00], false, &names), Some(&[][..]));
    assert_eq!(text(&out), ", \"error_space\": \"transport\", \"error_code\": 1, \"trigger_frame_type\": \"1f\"");
    // An application close has no trigger.
    let mut out = Vec::new();
    assert_eq!(frame_connection_close(&mut out, &[0x07u8, 0x00, 0x09], true, &names), Some(&[0x09u8][..]));
    assert_eq!(text(&out), ", \"error_space\": \"application\", \"error_code\": 7");
    // A reason that runs past the bytes.
    let mut out = Vec::new();
    assert_eq!(frame_connection_close(&mut out, &[0x07u8, 0x05, b'x'], true, &names), None);
    assert_eq!(text(&out), ", \"error_space\": \"application\", \"error_code\": 7, \"reason\": \"encoding error\"");
}

#[test]
fn qlog_frame_lists() {
    let names = frame_names();
    let bytes = [0x01u8, 0x00, 0x00, 0x10, 0x05];
    let mut out = Vec::new();
    let rest = qlog_frames(&mut out, &bytes, true, &names);
    assert!(rest.is_empty());
    assert_eq!(
        text(&out),
        "{ \n    \"frame_type\": \"ping\"}, { \n    \"frame_type\": \"max_data\", \"maximum\": 5}"
    );
    // Without skipping, the padding is a frame of its own.
    let mut out = Vec::new();
    assert!(qlog_frames(&mut out, &bytes, false, &names).is_empty());
    assert_eq!(
        text(&out),
        "{ \n    \"frame_type\": \"ping\"}, { \n    \"frame_type\": \"unknown\"}, { \n    \"frame_type\": \"max_data\", \"maximum\": 5}"
    );
    // An unknown frame type, then a frame that cannot be read: its text is
    // closed and the bytes from it on are given back.
    let bytes = [0x21u8, 0x10];
    let mut out = Vec::new();
    assert_eq!(qlog_frames(&mut out, &bytes, true, &names), &bytes[1..]);
    assert_eq!(
        text(&out),
        "{ \n    \"frame_type\": \"unknown\", \"unknown_frame_type\": 33}, { \n    \"frame_type\": \"max_data\"}"
    );
    let mut out = Vec::new();
    assert!(qlog_frames(&mut out, &[], true, &names).is_empty());
    assert!(out.is_empty());
}

fn tp_names() -> Vec<TransportParameterName> {
    vec![
        TransportParameterName { parameter: 0x01, name: "max_idle_timeout" },
        TransportParameterName { parameter: 0x0c, name: "disable_active_migration" },
        TransportParameterName { parameter: 0x10, name: "retry_source_connection_id" },
    ]
}

#[test]
fn qlog_transport_parameter_lists() {
    let names = tp_names();
    // max_idle_timeout = 30, an empty flag, a two-byte connection ID, and
    // an unknown parameter 0x21 of one byte.
    let tp = [0x01u8, 0x01, 0x1e, 0x0c, 0x00, 0x10, 0x02, 0xab, 0xcd, 0x21, 0x01, 0x07];
    let mut out = Vec::new();
    assert_eq!(qlog_transport_extensions(&mut out, &tp, tp.len(), &names), Ok(()));
    assert_eq!(
        text(&out),
        ",\n    \"max_idle_timeout\" : 30,\n    \"disable_active_migration\" : \"\",\n    \"retry_source_connection_id\": \"abcd\",\n    \"21\": \"07\""
    );
    // A length past the bytes: both lengths are noted.
    let mut out = Vec::new();
    assert_eq!(qlog_transport_extensions(&mut out, &tp, 20, &names), Ok(()));
    assert_eq!(text(&out), ",\n    \"transport_parameter_length\": 20,\n    \"bytes_available\": 12");
    // A value that runs past the parameters: a coding error with the rest.
    let mut out = Vec::new();
    assert_eq!(qlog_transport_extensions(&mut out, &[0x01u8, 0x05, 0x1e], 3, &names), Ok(()));
    assert_eq!(text(&out), ",\n    \"Parameter_coding_error\": \"01051e\"");
    // An integer that does not fill its length is shown as bytes; a
    // parameter this table does not name is named by its number.
    let mut out = Vec::new();
    assert_eq!(qlog_transport_extensions(&mut out, &[0x04u8, 0x02, 0x05, 0x06], 4, &[]), Ok(()));
    assert_eq!(text(&out), ",\n    \"4\" : \"0506\"");
    let mut out = Vec::new();
    assert_eq!(qlog_transport_extensions(&mut out, &tp, 0, &names), Ok(()));
    assert!(out.is_empty());
}
