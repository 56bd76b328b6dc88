//! Byte formatters of the qlog (JSON) trace: hex and escaped strings,
//! decimal numbers, and transport parameters (the version-negotiation and
//! preferred-address parameters, and the list of them all).
//! Each appends its text to an output buffer.

use vstd::prelude::*;
use vstd::string::StringSliceAdditionalSpecFns;
use vstd::slice::slice_subrange;
use crate::qlog_frames::{decode_at, decode_at_exec};
use crate::types::Error;

verus! {

/// Lower-case hexadecimal digit of a nibble.
pub open spec fn hex_digit(n: int) -> u8 {
    if n < 10 { (48 + n) as u8 } else { (87 + n) as u8 }
}

/// Two lower-case hexadecimal digits of a byte.
pub open spec fn hex2(b: u8) -> Seq<u8> {
    seq![hex_digit(b as int / 16), hex_digit(b as int % 16)]
}

/// Two hexadecimal digits per byte.
pub open spec fn hex_bytes(s: Seq<u8>) -> Seq<u8>
    decreases s.len(),
{
    if s.len() == 0 {
        Seq::empty()
    } else {
        hex_bytes(s.drop_last()) + hex2(s.last())
    }
}

/// Decimal digits of a number, without leading zeros.
pub open spec fn decimal(n: nat) -> Seq<u8>
    decreases n,
{
    if n < 10 {
        seq![(48 + n) as u8]
    } else {
        decimal(n / 10) + seq![(48 + n % 10) as u8]
    }
}

/// One byte as it appears between the quotes of a qlog character string:
/// quote and backslash escaped, other printable ASCII as is, anything
/// else as a backslash and two hexadecimal digits.
pub open spec fn qlog_char(c: u8) -> Seq<u8> {
    if c == 34 || c == 92 {
        seq![92u8, c]
    } else if 32 <= c < 127 {
        seq![c]
    } else {
        seq![92u8] + hex2(c)
    }
}

/// The escaped form of every byte.
pub open spec fn qlog_chars_body(s: Seq<u8>) -> Seq<u8>
    decreases s.len(),
{
    if s.len() == 0 {
        Seq::empty()
    } else {
        qlog_chars_body(s.drop_last()) + qlog_char(s.last())
    }
}

/// The marker written when fewer bytes were available than announced.
pub open spec fn coding_error_marker() -> Seq<u8> {
    "... coding error!".spec_bytes()
}

/// A quoted string: the body, then the marker when the input was short.
pub open spec fn quoted(body: Seq<u8>, error_found: bool) -> Seq<u8> {
    seq![34u8] + body + (if error_found { coding_error_marker() } else { Seq::empty() }) + seq![34u8]
}

/// Append the bytes of `text`.
pub(crate) fn push_text(out: &mut Vec<u8>, text: &str)
    ensures
        final(out)@ == old(out)@ + text.spec_bytes(),
{
    let b = text.as_bytes();
    let mut i: usize = 0;
    while i < b.len()
        invariant
            b@ == text.spec_bytes(),
            i <= b@.len(),
            out@ == old(out)@ + b@.subrange(0, i as int),
        decreases b.len() - i,
    {
        out.push(b[i]);
        i = i + 1;
        assert(out@ =~= old(out)@ + b@.subrange(0, i as int));
    }
    assert(b@.subrange(0, b@.len() as int) =~= b@);
}

/// Lower-case hexadecimal digit of a nibble.
fn hex_digit_exec(n: u8) -> (r: u8)
    requires
        n < 16,
    ensures
        r == hex_digit(n as int),
{
    if n < 10 { 48 + n } else { 87 + n }
}

/// Append two hexadecimal digits of `b`.
fn push_hex2(out: &mut Vec<u8>, b: u8)
    ensures
        final(out)@ == old(out)@ + hex2(b),
{
    out.push(hex_digit_exec(b / 16));
    out.push(hex_digit_exec(b % 16));
    assert(out@ =~= old(out)@ + hex2(b));
}

/// Append the decimal digits of `n`.
pub fn push_decimal(out: &mut Vec<u8>, n: u64)
    ensures
        final(out)@ == old(out)@ + decimal(n as nat),
    decreases n,
{
    if n < 10 {
        out.push(48 + n as u8);
        assert(out@ =~= old(out)@ + decimal(n as nat));
    } else {
        push_decimal(out, n / 10);
        out.push(48 + (n % 10) as u8);
        assert(out@ =~= old(out)@ + decimal(n as nat));
    }
}

/// Write `l` bytes of `s` as a quoted hexadecimal string.  When `s` has
/// fewer than `l` bytes, what it has is written followed by a coding
/// error marker, and `InvalidFrame` is returned.
pub fn qlog_string(out: &mut Vec<u8>, s: &[u8], l: usize) -> (r: Result<(), Error>)
    ensures
        ({
            let error_found = l > s@.len();
            let avail = if error_found { s@.len() as int } else { l as int };
            &&& final(out)@ == old(out)@ + quoted(hex_bytes(s@.subrange(0, avail)), error_found)
            &&& error_found ==> r == Err::<(), Error>(Error::InvalidFrame)
            &&& !error_found ==> r is Ok
        }),
{
    let error_found = l > s.len();
    let avail = if error_found { s.len() } else { l };
    out.push(34);
    let ghost start = out@;
    let mut i: usize = 0;
    while i < avail
        invariant
            avail <= s@.len(),
            i <= avail,
            out@ == start + hex_bytes(s@.subrange(0, i as int)),
        decreases avail - i,
    {
        push_hex2(out, s[i]);
        proof {
            let t = s@.subrange(0, i + 1);
            assert(t.drop_last() =~= s@.subrange(0, i as int));
        }
        i = i + 1;
    }
    if error_found {
        push_text(out, "... coding error!");
    }
    out.push(34);
    proof {
        let body = hex_bytes(s@.subrange(0, avail as int));
        assert(out@ =~= old(out)@ + quoted(body, error_found));
    }
    if error_found {
        Err(Error::InvalidFrame)
    } else {
        Ok(())
    }
}

/// Append the escaped form of `c`.
fn push_qlog_char(out: &mut Vec<u8>, c: u8)
    ensures
        final(out)@ == old(out)@ + qlog_char(c),
{
    if c == 34 || c == 92 {
        out.push(92);
        out.push(c);
    } else if 32 <= c && c < 127 {
        out.push(c);
    } else {
        out.push(92);
        push_hex2(out, c);
    }
    assert(out@ =~= old(out)@ + qlog_char(c));
}

/// Write `l` bytes of `s` as a quoted string of printable characters,
/// escaping quotes, backslashes and unprintable bytes.  When `s` has
/// fewer than `l` bytes, what it has is written followed by a coding
/// error marker, and `InvalidFrame` is returned.
pub fn qlog_chars(out: &mut Vec<u8>, s: &[u8], l: usize) -> (r: Result<(), Error>)
    ensures
        ({
            let error_found = l > s@.len();
            let avail = if error_found { s@.len() as int } else { l as int };
            &&& final(out)@ == old(out)@ + quoted(qlog_chars_body(s@.subrange(0, avail)), error_found)
            &&& error_found ==> r == Err::<(), Error>(Error::InvalidFrame)
            &&& !error_found ==> r is Ok
        }),
{
    let error_found = l > s.len();
    let avail = if error_found { s.len() } else { l };
    out.push(34);
    let ghost start = out@;
    let mut i: usize = 0;
    while i < avail
        invariant
            avail <= s@.len(),
            i <= avail,
            out@ == start + qlog_chars_body(s@.subrange(0, i as int)),
        decreases avail - i,
    {
        push_qlog_char(out, s[i]);
        proof {
            let t = s@.subrange(0, i + 1);
            assert(t.drop_last() =~= s@.subrange(0, i as int));
        }
        i = i + 1;
    }
    if error_found {
        push_text(out, "... coding error!");
    }
    out.push(34);
    proof {
        let body = qlog_chars_body(s@.subrange(0, avail as int));
        assert(out@ =~= old(out)@ + quoted(body, error_found));
    }
    if error_found {
        Err(Error::InvalidFrame)
    } else {
        Ok(())
    }
}

/// Hexadecimal digits of the 4-byte groups of `s` from group `k` on, each
/// group quoted and the groups separated by `", "`.
pub open spec fn version_groups(s: Seq<u8>, k: int) -> Seq<u8>
    decreases s.len() - 4 * k,
{
    if k < 1 || 4 * k + 4 > s.len() {
        Seq::empty()
    } else {
        let sep = if k == 1 { seq![34u8] } else { ", \"".spec_bytes() };
        sep + hex_bytes(s.subrange(4 * k, 4 * k + 4)) + seq![34u8] + version_groups(s, k + 1)
    }
}

/// The qlog text of a version-negotiation transport parameter of `len`
/// bytes read from `s`: the chosen version and the list of others, or the
/// length when it is not a positive multiple of four, or the lengths when
/// `s` is shorter than `len`.
pub open spec fn spec_qlog_tp_version_negotiation(s: Seq<u8>, len: nat) -> Seq<u8> {
    if len > s.len() {
        ",\n    \"vnego_parameter_length\": ".spec_bytes() + decimal(len) + ",\n    \"bytes_available\": ".spec_bytes()
            + decimal(s.len())
    } else if len % 4 != 0 || len == 0 {
        "{ ".spec_bytes() + "\"bad_length\": \"".spec_bytes() + decimal(len) + "}".spec_bytes()
    } else {
        let chosen = "{ ".spec_bytes() + "\"chosen\": \"".spec_bytes() + hex_bytes(s.subrange(0, 4)) + seq![34u8];
        let others = if len > 4 {
            ", \"others\": [".spec_bytes() + version_groups(s.subrange(0, len as int), 1) + "]".spec_bytes()
        } else {
            Seq::empty()
        };
        chosen + others + "}".spec_bytes()
    }
}

/// Append the hexadecimal digits of `s[from..to]`.
pub(crate) fn push_hex_range(out: &mut Vec<u8>, s: &[u8], from: usize, to: usize)
    requires
        from <= to <= s@.len(),
    ensures
        final(out)@ == old(out)@ + hex_bytes(s@.subrange(from as int, to as int)),
{
    let mut i: usize = from;
    while i < to
        invariant
            from <= i <= to,
            to <= s@.len(),
            out@ == old(out)@ + hex_bytes(s@.subrange(from as int, i as int)),
        decreases to - i,
    {
        push_hex2(out, s[i]);
        proof {
            let t = s@.subrange(from as int, i + 1);
            assert(t.drop_last() =~= s@.subrange(from as int, i as int));
        }
        i = i + 1;
    }
}

/// Write the qlog form of a version-negotiation transport parameter of
/// `len` bytes read from `s`.
pub fn qlog_tp_version_negotiation(out: &mut Vec<u8>, s: &[u8], len: usize)
    ensures
        final(out)@ == old(out)@ + spec_qlog_tp_version_negotiation(s@, len as nat),
{
    if len > s.len() {
        push_text(out, ",\n    \"vnego_parameter_length\": ");
        push_decimal(out, len as u64);
        push_text(out, ",\n    \"bytes_available\": ");
        push_decimal(out, s.len() as u64);
        proof {
            assert(out@ =~= old(out)@ + spec_qlog_tp_version_negotiation(s@, len as nat));
        }
        return;
    }
    push_text(out, "{ ");
    if len % 4 != 0 || len == 0 {
        push_text(out, "\"bad_length\": \"");
        push_decimal(out, len as u64);
    } else {
        push_text(out, "\"chosen\": \"");
        push_hex_range(out, s, 0, 4);
        out.push(34);
        if len > 4 {
            push_text(out, ", \"others\": [");
            let ghost v = s@.subrange(0, len as int);
            let ghost before = out@;
            let mut k: usize = 1;
            while 4 * k < len
                invariant
                    1 <= k,
                    4 * k <= len,
                    len % 4 == 0,
                    len <= s@.len(),
                    v == s@.subrange(0, len as int),
                    before + version_groups(v, 1) == out@ + version_groups(v, k as int),
                decreases len - 4 * k,
            {
                let ghost o = out@;
                if k == 1 {
                    out.push(34);
                } else {
                    push_text(out, ", \"");
                }
                push_hex_range(out, s, 4 * k, 4 * k + 4);
                out.push(34);
                proof {
                    assert(v.subrange(4 * k as int, 4 * k + 4) =~= s@.subrange(4 * k as int, 4 * k + 4));
                    let sep = if k == 1 { seq![34u8] } else { ", \"".spec_bytes() };
                    assert(out@ =~= o + sep + hex_bytes(v.subrange(4 * k as int, 4 * k + 4)) + seq![34u8]);
                    assert(version_groups(v, k as int) == sep + hex_bytes(v.subrange(4 * k as int, 4 * k + 4))
                        + seq![34u8] + version_groups(v, k + 1));
                    assert(out@ + version_groups(v, k + 1) =~= o + version_groups(v, k as int));
                }
                k = k + 1;
            }
            proof {
                assert(version_groups(v, k as int) == Seq::<u8>::empty());
                assert(out@ =~= before + version_groups(v, 1));
            }
            push_text(out, "]");
        }
    }
    push_text(out, "}");
    proof {
        assert(out@ =~= old(out)@ + spec_qlog_tp_version_negotiation(s@, len as nat));
    }
}

/// Hexadecimal digits of a number, without leading zeros.
pub open spec fn hex_number(n: nat) -> Seq<u8>
    decreases n,
{
    if n < 16 {
        seq![hex_digit(n as int)]
    } else {
        hex_number(n / 16) + seq![hex_digit((n % 16) as int)]
    }
}

/// Append the hexadecimal digits of `n`.
pub(crate) fn push_hex_number(out: &mut Vec<u8>, n: u64)
    ensures
        final(out)@ == old(out)@ + hex_number(n as nat),
    decreases n,
{
    if n < 16 {
        out.push(hex_digit_exec(n as u8));
        assert(out@ =~= old(out)@ + hex_number(n as nat));
    } else {
        push_hex_number(out, n / 16);
        out.push(hex_digit_exec((n % 16) as u8));
        assert(out@ =~= old(out)@ + hex_number(n as nat));
    }
}

/// Big-endian 16-bit number at `pos` and the position after it; 0 and the
/// same position when fewer than two bytes are left.
pub open spec fn read_u16_at(s: Seq<u8>, pos: int) -> (nat, int) {
    if pos + 2 > s.len() {
        (0, pos)
    } else {
        ((s[pos] as int * 256 + s[pos + 1] as int) as nat, pos + 2)
    }
}

/// A quoted hexadecimal string of `l` bytes read from `pos`, within
/// `limit`, and the position after it.
pub open spec fn spec_string_cursor(s: Seq<u8>, pos: int, limit: int, l: int) -> (Seq<u8>, int) {
    let n = if pos >= limit { 0 } else if l < limit - pos { l } else { limit - pos };
    (quoted(hex_bytes(s.subrange(pos, pos + n)), pos + l > limit), pos + n)
}

/// Up to four decimal bytes separated by dots, from `pos` within `limit`.
pub open spec fn ipv4_from(s: Seq<u8>, limit: int, pos: int, i: int) -> (Seq<u8>, int)
    decreases 4 - i,
{
    if i >= 4 || pos >= limit {
        (Seq::empty(), pos)
    } else {
        let sep = if i == 0 { Seq::empty() } else { ".".spec_bytes() };
        let rest = ipv4_from(s, limit, pos + 1, i + 1);
        (sep + decimal(s[pos] as nat) + rest.0, rest.1)
    }
}

/// Eight hexadecimal 16-bit groups separated by colons, from `pos`.
pub open spec fn ipv6_from(s: Seq<u8>, pos: int, i: int) -> (Seq<u8>, int)
    decreases 8 - i,
{
    if i >= 8 {
        (Seq::empty(), pos)
    } else {
        let sep = if i == 0 { Seq::empty() } else { ":".spec_bytes() };
        let (v, p1) = read_u16_at(s, pos);
        let rest = ipv6_from(s, p1, i + 1);
        (sep + hex_number(v) + rest.0, rest.1)
    }
}

/// The qlog text of a preferred-address transport parameter of `len`
/// bytes read from `s`: IPv4 address and port, IPv6 address and port,
/// connection ID, stateless reset token, and any extra bytes.
pub open spec fn spec_qlog_preferred_address(s: Seq<u8>, len: nat) -> Seq<u8> {
    let limit: int = if len < s.len() { len as int } else { s.len() as int };
    let v4 = ipv4_from(s, limit, 0, 0);
    let (port4, p1) = read_u16_at(s, v4.1);
    let v6 = ipv6_from(s, p1, 0);
    let (port6, p2) = read_u16_at(s, v6.1);
    let cid_len: int = if p2 >= s.len() { 0 } else { s[p2] as int };
    let p3 = if p2 >= s.len() { p2 } else { p2 + 1 };
    let cid = spec_string_cursor(s, p3, limit, cid_len);
    let token = spec_string_cursor(s, cid.1, limit, 16);
    let extra = if token.1 < limit {
        "\", \"extra_bytes\": ".spec_bytes() + spec_string_cursor(s, token.1, limit, limit - token.1).0
    } else {
        Seq::empty()
    };
    "\"ip_v4\": \"".spec_bytes() + v4.0 + "\", \"port_v4\":".spec_bytes() + decimal(port4) + ", \"ip_v6\": \"".spec_bytes()
        + v6.0 + "\", \"port_v6\" : ".spec_bytes() + decimal(port6) + ", \"connection_id\": ".spec_bytes() + cid.0
        + ", \"stateless_reset_token\": ".spec_bytes() + token.0 + extra
}

/// Read a big-endian 16-bit number at `*pos` (0 when fewer than two
/// bytes are left, the position then unchanged).
fn read_u16_be(s: &[u8], pos: &mut usize) -> (r: u16)
    requires
        *old(pos) <= s@.len(),
    ensures
        (r as nat, *final(pos) as int) == read_u16_at(s@, *old(pos) as int),
        *final(pos) <= s@.len(),
{
    if *pos >= s.len() || s.len() - *pos < 2 {
        return 0;
    }
    let v = (s[*pos] as u16) * 256 + (s[*pos + 1] as u16);
    *pos = *pos + 2;
    v
}

/// Write `l` bytes from `*pos`, within `limit`, as a quoted hexadecimal
/// string, advancing `*pos`.
fn qlog_string_cursor(out: &mut Vec<u8>, s: &[u8], pos: &mut usize, limit: usize, l: usize)
    requires
        limit <= s@.len(),
        *old(pos) <= s@.len(),
    ensures
        final(out)@ == old(out)@ + spec_string_cursor(s@, *old(pos) as int, limit as int, l as int).0,
        *final(pos) as int == spec_string_cursor(s@, *old(pos) as int, limit as int, l as int).1,
        *final(pos) <= s@.len(),
{
    let error_found = if *pos > limit { true } else { l > limit - *pos };
    let n: usize = if *pos >= limit { 0 } else if l < limit - *pos { l } else { limit - *pos };
    out.push(34);
    push_hex_range(out, s, *pos, *pos + n);
    if error_found {
        push_text(out, "... coding error!");
    }
    out.push(34);
    proof {
        let ghost st = spec_string_cursor(s@, *old(pos) as int, limit as int, l as int);
        assert((*old(pos) as int) + (l as int) > limit as int <==> error_found);
        assert(out@ =~= old(out)@ + st.0);
    }
    *pos = *pos + n;
}

/// Write up to four decimal bytes separated by dots; yields the position
/// after them.
fn push_ipv4(out: &mut Vec<u8>, s: &[u8], limit: usize) -> (pos: usize)
    requires
        limit <= s@.len(),
    ensures
        final(out)@ == old(out)@ + ipv4_from(s@, limit as int, 0, 0).0,
        pos as int == ipv4_from(s@, limit as int, 0, 0).1,
        pos <= s@.len(),
{
    let mut pos: usize = 0;
    let mut i: usize = 0;
    while i < 4 && pos < limit
        invariant
            i <= 4,
            pos == i,
            limit <= s@.len(),
            pos <= limit,
            old(out)@ + ipv4_from(s@, limit as int, 0, 0).0 == out@ + ipv4_from(s@, limit as int, pos as int, i as int).0,
            ipv4_from(s@, limit as int, 0, 0).1 == ipv4_from(s@, limit as int, pos as int, i as int).1,
        decreases 4 - i,
    {
        let ghost o = out@;
        if i > 0 {
            push_text(out, ".");
        }
        push_decimal(out, s[pos] as u64);
        proof {
            let sep = if i == 0 { Seq::<u8>::empty() } else { ".".spec_bytes() };
            assert(out@ =~= o + sep + decimal(s@[pos as int] as nat));
            assert(out@ + ipv4_from(s@, limit as int, pos + 1, i + 1).0 =~= o + ipv4_from(s@, limit as int, pos as int, i as int).0);
        }
        pos = pos + 1;
        i = i + 1;
    }
    proof {
        assert(ipv4_from(s@, limit as int, pos as int, i as int).0 == Seq::<u8>::empty());
        assert(out@ =~= old(out)@ + ipv4_from(s@, limit as int, 0, 0).0);
    }
    pos
}

/// Write eight hexadecimal 16-bit groups separated by colons, read from
/// `*pos`.
fn push_ipv6(out: &mut Vec<u8>, s: &[u8], pos: &mut usize)
    requires
        *old(pos) <= s@.len(),
    ensures
        final(out)@ == old(out)@ + ipv6_from(s@, *old(pos) as int, 0).0,
        *final(pos) as int == ipv6_from(s@, *old(pos) as int, 0).1,
        *final(pos) <= s@.len(),
{
    let ghost p1 = *pos as int;
    let mut j: usize = 0;
    while j < 8
        invariant
            j <= 8,
            *pos <= s@.len(),
            old(out)@ + ipv6_from(s@, p1, 0).0 == out@ + ipv6_from(s@, *pos as int, j as int).0,
            ipv6_from(s@, p1, 0).1 == ipv6_from(s@, *pos as int, j as int).1,
        decreases 8 - j,
    {
        let ghost o = out@;
        let ghost p = *pos as int;
        if j > 0 {
            push_text(out, ":");
        }
        let chunk = read_u16_be(s, pos);
        push_hex_number(out, chunk as u64);
        proof {
            let sep = if j == 0 { Seq::<u8>::empty() } else { ":".spec_bytes() };
            assert(out@ =~= o + sep + hex_number(chunk as nat));
            assert(out@ + ipv6_from(s@, *pos as int, j + 1).0 =~= o + ipv6_from(s@, p, j as int).0);
        }
        j = j + 1;
    }
    proof {
        assert(out@ =~= old(out)@ + ipv6_from(s@, p1, 0).0);
    }
}

/// Write the qlog form of a preferred-address transport parameter of
/// `len` bytes read from `s`.
#[verifier::rlimit(40)]
pub fn qlog_preferred_address(out: &mut Vec<u8>, s: &[u8], len: usize)
    ensures
        final(out)@ == old(out)@ + spec_qlog_preferred_address(s@, len as nat),
{
    let limit: usize = if len < s.len() { len } else { s.len() };
    let ghost sp = s@;
    let ghost lim = limit as int;
    let mut buf: Vec<u8> = Vec::new();
    push_text(&mut buf, "\"ip_v4\": \"");
    assert(buf@ =~= "\"ip_v4\": \"".spec_bytes());
    let mut pos = push_ipv4(&mut buf, s, limit);
    let ghost v4 = ipv4_from(sp, lim, 0, 0);
    let port4 = read_u16_be(s, &mut pos);
    push_text(&mut buf, "\", \"port_v4\":");
    push_decimal(&mut buf, port4 as u64);
    push_text(&mut buf, ", \"ip_v6\": \"");
    let ghost p1 = pos as int;
    push_ipv6(&mut buf, s, &mut pos);
    let ghost v6 = ipv6_from(sp, p1, 0);
    let port6 = read_u16_be(s, &mut pos);
    push_text(&mut buf, "\", \"port_v6\" : ");
    push_decimal(&mut buf, port6 as u64);
    let ghost p2 = pos as int;
    let cid_len: usize = if pos >= s.len() {
        0
    } else {
        let cl = s[pos] as usize;
        pos = pos + 1;
        cl
    };
    push_text(&mut buf, ", \"connection_id\": ");
    let ghost p3 = pos as int;
    qlog_string_cursor(&mut buf, s, &mut pos, limit, cid_len);
    push_text(&mut buf, ", \"stateless_reset_token\": ");
    let ghost p4 = pos as int;
    qlog_string_cursor(&mut buf, s, &mut pos, limit, 16);
    let ghost before_extra = buf@;
    let ghost p5 = pos as int;
    if pos < limit {
        push_text(&mut buf, "\", \"extra_bytes\": ");
        let remaining = limit - pos;
        qlog_string_cursor(&mut buf, s, &mut pos, limit, remaining);
    }
    proof {
        let extra = if p5 < lim {
            "\", \"extra_bytes\": ".spec_bytes() + spec_string_cursor(sp, p5, lim, lim - p5).0
        } else {
            Seq::empty()
        };
        if p5 < lim {
            assert(buf@ =~= before_extra + extra);
        } else {
            assert(buf@ =~= before_extra + extra);
        }
        assert(buf@ == spec_qlog_preferred_address(sp, len as nat));
    }
    out.append(&mut buf);
}

/// A transport parameter and its qlog name, as a parameter table lists
/// them.
#[derive(Debug, Copy, Clone)]
pub struct TransportParameterName {
    pub parameter: u64,
    pub name: &'static str,
}

/// Index of the first entry of `names`, from `k` on, for `tp`, or -1.
pub open spec fn tp_name_index(names: Seq<TransportParameterName>, tp: u64, k: int) -> int
    decreases names.len() - k,
{
    if k < 0 || k >= names.len() {
        -1
    } else if names[k].parameter == tp {
        k
    } else {
        tp_name_index(names, tp, k + 1)
    }
}

/// The qlog name of `tp`: its name in `names`, or its number in
/// hexadecimal.
pub open spec fn tp_name(names: Seq<TransportParameterName>, tp: u64) -> Seq<u8> {
    let k = tp_name_index(names, tp, 0);
    if k == -1 {
        hex_number(tp as nat)
    } else {
        names[k].name.spec_bytes()
    }
}

/// Append the qlog name of `tp`.
fn push_tp_name(out: &mut Vec<u8>, names: &[TransportParameterName], tp: u64)
    ensures
        final(out)@ == old(out)@ + tp_name(names@, tp),
{
    let mut k: usize = 0;
    while k < names.len()
        invariant
            k <= names@.len(),
            out@ == old(out)@,
            tp_name_index(names@, tp, 0) == tp_name_index(names@, tp, k as int),
        decreases names.len() - k,
    {
        if names[k].parameter == tp {
            push_text(out, names[k].name);
            return;
        }
        k = k + 1;
    }
    push_hex_number(out, tp);
}

/// Parameters whose value is a variable-length integer.
pub open spec fn is_vint_tp(t: u64) -> bool {
    t == 5 || t == 6 || t == 7 || t == 4 || t == 8 || t == 1 || t == 3 || t == 10 || t == 9 || t == 11 || t == 14 || t
        == 32 || t == 0x1057 || t == 0xff04de1b || t == 0xebd9 || t == 0x3e || t == 0x9f81a176 || t
        == 0x17f7586d2cb571
}

/// Parameters whose value is a byte string.
pub open spec fn is_bytes_tp(t: u64) -> bool {
    t == 2 || t == 0 || t == 16 || t == 15
}

/// Parameters that are flags.
pub open spec fn is_boolean_tp(t: u64) -> bool {
    t == 12 || t == 0x7158 || t == 0x2ab2
}

/// The qlog text of a variable-length integer parameter `ty`, `l` bytes at
/// `b` of `t`, and the position after it: the number when it fills the
/// value exactly, the bytes in hexadecimal otherwise.
#[verifier::opaque]
pub open spec fn tp_vint_value(t: Seq<u8>, ty: u64, l: u64, b: int, names: Seq<TransportParameterName>) -> (Seq<u8>, int) {
    let sc = spec_string_cursor(t, b, t.len() as int, l as int);
    let text = "\"".spec_bytes() + tp_name(names, ty) + "\" : ".spec_bytes();
    match decode_at(t, b) {
        Some((v, c)) => if c == b + l {
            (text + decimal(v as nat), c)
        } else {
            (text + sc.0, sc.1)
        },
        None => (text + sc.0, sc.1),
    }
}

/// The qlog text of a parameter shown as its bytes (a byte string, a flag
/// written as an empty string when it has no value, or an unknown
/// parameter named by its number), and the position after it.
#[verifier::opaque]
pub open spec fn tp_string_value(t: Seq<u8>, ty: u64, l: u64, b: int, names: Seq<TransportParameterName>) -> (
    Seq<u8>,
    int,
) {
    let sc = spec_string_cursor(t, b, t.len() as int, l as int);
    if is_bytes_tp(ty) {
        ("\"".spec_bytes() + tp_name(names, ty) + "\": ".spec_bytes() + sc.0, sc.1)
    } else if is_boolean_tp(ty) {
        ("\"".spec_bytes() + tp_name(names, ty) + "\" : ".spec_bytes() + (if l != 0 {
            sc.0
        } else {
            "\"\"".spec_bytes()
        }), if l != 0 {
            sc.1
        } else {
            b
        })
    } else {
        ("\"".spec_bytes() + hex_number(ty as nat) + "\": ".spec_bytes() + sc.0, sc.1)
    }
}

/// The qlog text of the preferred-address (13) or version-negotiation
/// parameter, and the position after it.
#[verifier::opaque]
pub open spec fn tp_structured_value(t: Seq<u8>, ty: u64, l: u64, b: int, names: Seq<TransportParameterName>) -> (
    Seq<u8>,
    int,
) {
    let head = "\"".spec_bytes() + tp_name(names, ty) + "\": ".spec_bytes();
    if ty == 13 {
        (head + spec_qlog_preferred_address(t.subrange(b, b + l), l as nat) + "}".spec_bytes(), b + l)
    } else {
        (head + spec_qlog_tp_version_negotiation(t.subrange(b, b + l), l as nat), b + l)
    }
}

/// The qlog text of the value of parameter `ty`, `l` bytes at `b` of `t`,
/// and the position after it.
pub open spec fn tp_value(t: Seq<u8>, ty: u64, l: u64, b: int, names: Seq<TransportParameterName>) -> (Seq<u8>, int) {
    if is_vint_tp(ty) {
        tp_vint_value(t, ty, l, b, names)
    } else if ty == 13 || ty == 0x11 {
        tp_structured_value(t, ty, l, b, names)
    } else {
        tp_string_value(t, ty, l, b, names)
    }
}

/// The qlog text of the transport parameters of `t` from `pos` on.  A
/// parameter whose type or length cannot be read, or whose value runs
/// past `t`, ends the list with the rest of the bytes in hexadecimal.
pub open spec fn spec_tp_list(t: Seq<u8>, pos: int, names: Seq<TransportParameterName>) -> Seq<u8>
    decreases t.len() - pos,
{
    if pos < 0 || pos >= t.len() {
        Seq::empty()
    } else {
        let sep = ",\n    ".spec_bytes();
        let coding_error = sep + "\"Parameter_coding_error\": ".spec_bytes() + spec_string_cursor(
            t,
            pos,
            t.len() as int,
            t.len() - pos,
        ).0;
        match decode_at(t, pos) {
            None => coding_error,
            Some((ty, a)) => match decode_at(t, a) {
                None => coding_error,
                Some((l, b)) => if b <= pos || b > t.len() || t.len() - b < l {
                    coding_error
                } else {
                    let v = tp_value(t, ty, l, b, names);
                    if pos < v.1 <= t.len() {
                        sep + v.0 + spec_tp_list(t, v.1, names)
                    } else {
                        sep + v.0
                    }
                },
            },
        }
    }
}

/// The qlog text of the transport parameters of the first `tp_length`
/// bytes of `s`; a note of both lengths when `s` is shorter.
pub open spec fn spec_qlog_transport_extensions(s: Seq<u8>, tp_length: usize, names: Seq<TransportParameterName>) -> Seq<
    u8,
> {
    if tp_length > s.len() {
        ",\n    \"transport_parameter_length\": ".spec_bytes() + decimal(tp_length as nat)
            + ",\n    \"bytes_available\": ".spec_bytes() + decimal(s.len())
    } else {
        spec_tp_list(s.subrange(0, tp_length as int), 0, names)
    }
}

/// Write the value of a variable-length integer parameter.
#[verifier::spinoff_prover]
fn push_tp_vint(out: &mut Vec<u8>, t: &[u8], ty: u64, l: u64, b: usize, names: &[TransportParameterName]) -> (r: usize)
    requires
        is_vint_tp(ty),
        b <= t.len(),
        l <= t.len() - b,
    ensures
        final(out)@ == old(out)@ + tp_value(t@, ty, l, b as int, names@).0,
        r as int == tp_value(t@, ty, l, b as int, names@).1,
        r <= t@.len(),
{
    reveal(tp_vint_value);
    let ghost start = out@;
    let n = l as usize;
    let mut pos = b;
    push_text(out, "\"");
    push_tp_name(out, names, ty);
    push_text(out, "\" : ");
    match decode_at_exec(t, b) {
        Some((v, c)) => if c == b + n {
            push_decimal(out, v);
            pos = c;
        } else {
            qlog_string_cursor(out, t, &mut pos, t.len(), n);
        },
        None => qlog_string_cursor(out, t, &mut pos, t.len(), n),
    }
    assert(out@ =~= start + tp_value(t@, ty, l, b as int, names@).0);
    pos
}

/// Write the value of a parameter shown as its bytes: a byte-string
/// parameter, a flag, or one this trace does not know.
#[verifier::spinoff_prover]
fn push_tp_string(out: &mut Vec<u8>, t: &[u8], ty: u64, l: u64, b: usize, names: &[TransportParameterName]) -> (r: usize)
    requires
        !is_vint_tp(ty),
        ty != 13,
        ty != 0x11,
        b <= t.len(),
        l <= t.len() - b,
    ensures
        final(out)@ == old(out)@ + tp_value(t@, ty, l, b as int, names@).0,
        r as int == tp_value(t@, ty, l, b as int, names@).1,
        r <= t@.len(),
{
    reveal(tp_string_value);
    let ghost start = out@;
    let n = l as usize;
    let mut pos = b;
    push_text(out, "\"");
    if ty == 2 || ty == 0 || ty == 16 || ty == 15 {
        push_tp_name(out, names, ty);
        push_text(out, "\": ");
        qlog_string_cursor(out, t, &mut pos, t.len(), n);
        assert(out@ =~= start + tp_value(t@, ty, l, b as int, names@).0);
    } else if ty == 12 || ty == 0x7158 || ty == 0x2ab2 {
        push_tp_name(out, names, ty);
        push_text(out, "\" : ");
        if n != 0 {
            qlog_string_cursor(out, t, &mut pos, t.len(), n);
        } else {
            push_text(out, "\"\"");
        }
        assert(out@ =~= start + tp_value(t@, ty, l, b as int, names@).0);
    } else {
        push_hex_number(out, ty);
        push_text(out, "\": ");
        qlog_string_cursor(out, t, &mut pos, t.len(), n);
        assert(out@ =~= start + tp_value(t@, ty, l, b as int, names@).0);
    }
    pos
}

/// Write the value of the preferred-address or the version-negotiation
/// parameter.
#[verifier::spinoff_prover]
fn push_tp_structured(out: &mut Vec<u8>, t: &[u8], ty: u64, l: u64, b: usize, names: &[TransportParameterName]) -> (r:
    usize)
    requires
        ty == 13 || ty == 0x11,
        b <= t.len(),
        l <= t.len() - b,
    ensures
        final(out)@ == old(out)@ + tp_value(t@, ty, l, b as int, names@).0,
        r as int == tp_value(t@, ty, l, b as int, names@).1,
        r <= t@.len(),
{
    reveal(tp_structured_value);
    let ghost start = out@;
    let n = l as usize;
    let v = slice_subrange(t, b, b + n);
    push_text(out, "\"");
    push_tp_name(out, names, ty);
    push_text(out, "\": ");
    if ty == 13 {
        qlog_preferred_address(out, v, n);
        push_text(out, "}");
    } else {
        qlog_tp_version_negotiation(out, v, n);
    }
    assert(out@ =~= start + tp_value(t@, ty, l, b as int, names@).0);
    b + n
}

/// Write the value of parameter `ty`, `l` bytes at `b` of `t`, and give
/// the position after it.
fn push_tp_value(out: &mut Vec<u8>, t: &[u8], ty: u64, l: u64, b: usize, names: &[TransportParameterName]) -> (r:
    usize)
    requires
        b <= t.len(),
        l <= t.len() - b,
    ensures
        final(out)@ == old(out)@ + tp_value(t@, ty, l, b as int, names@).0,
        r as int == tp_value(t@, ty, l, b as int, names@).1,
        r <= t@.len(),
{
    if ty == 5 || ty == 6 || ty == 7 || ty == 4 || ty == 8 || ty == 1 || ty == 3 || ty == 10 || ty == 9 || ty == 11
        || ty == 14 || ty == 32 || ty == 0x1057 || ty == 0xff04de1b || ty == 0xebd9 || ty == 0x3e || ty == 0x9f81a176
        || ty == 0x17f7586d2cb571 {
        push_tp_vint(out, t, ty, l, b, names)
    } else if ty == 13 || ty == 0x11 {
        push_tp_structured(out, t, ty, l, b, names)
    } else {
        push_tp_string(out, t, ty, l, b, names)
    }
}

/// Write the qlog text of the transport parameters of the first
/// `tp_length` bytes of `s` (see `spec_qlog_transport_extensions`),
/// naming each parameter from `names`.
#[verifier::rlimit(60)]
pub fn qlog_transport_extensions(out: &mut Vec<u8>, s: &[u8], tp_length: usize, names: &[TransportParameterName]) -> (r:
    Result<(), Error>)
    ensures
        final(out)@ == old(out)@ + spec_qlog_transport_extensions(s@, tp_length, names@),
        r is Ok,
{
    let ghost start = out@;
    if tp_length > s.len() {
        push_text(out, ",\n    \"transport_parameter_length\": ");
        push_decimal(out, tp_length as u64);
        push_text(out, ",\n    \"bytes_available\": ");
        push_decimal(out, s.len() as u64);
        assert(out@ =~= start + spec_qlog_transport_extensions(s@, tp_length, names@));
        return Ok(());
    }
    let t = slice_subrange(s, 0, tp_length);
    let ghost total = spec_tp_list(t@, 0, names@);
    let ghost mut done: Seq<u8> = Seq::empty();
    let mut pos: usize = 0;
    loop
        invariant_except_break
            out@ == start + done,
            total == done + spec_tp_list(t@, pos as int, names@),
        invariant
            pos <= t@.len(),
            total == spec_tp_list(t@, 0, names@),
        ensures
            out@ == start + total,
        decreases t.len() - pos,
    {
        if pos >= t.len() {
            assert(done + Seq::<u8>::empty() =~= done);
            break;
        }
        let ghost here = spec_tp_list(t@, pos as int, names@);
        let ghost before = out@;
        push_text(out, ",\n    ");
        let header = match decode_at_exec(t, pos) {
            None => None,
            Some((ty, a)) => match decode_at_exec(t, a) {
                None => None,
                Some((l, b)) => if (t.len() - b) as u64 >= l {
                    Some((ty, l, b))
                } else {
                    None
                },
            },
        };
        match header {
            None => {
                push_text(out, "\"Parameter_coding_error\": ");
                let mut p = pos;
                qlog_string_cursor(out, t, &mut p, t.len(), t.len() - pos);
                assert(out@ =~= start + total);
                break;
            },
            Some((ty, l, b)) => {
                let next = push_tp_value(out, t, ty, l, b, names);
                let ghost text = ",\n    ".spec_bytes() + tp_value(t@, ty, l, b as int, names@).0;
                assert(out@ =~= before + text);
                proof {
                    done = done + text;
                }
                if next <= pos {
                    assert(out@ =~= start + total);
                    break;
                }
                assert(total =~= done + spec_tp_list(t@, next as int, names@));
                pos = next;
            },
        }
    }
    Ok(())
}

} // verus!
