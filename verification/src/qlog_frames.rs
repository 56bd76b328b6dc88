//! The qlog (JSON) text of frames: an ACK frame (path, ACK delay,
//! acknowledged ranges, ECN counts), a STREAM frame, and the frames made
//! of numeric fields.

use vstd::prelude::*;
use vstd::slice::slice_subrange;
use vstd::string::StringSliceAdditionalSpecFns;
use crate::header::{spec_varint_decode, varint_decode, varint_length};
use crate::qlog::{decimal, hex_bytes, hex_number, push_decimal, push_hex_number, push_hex_range, push_text};

verus! {

/// The variable-length integer at `pos` of `s` and the position after it,
/// or `None` when `pos` is outside `s` or the encoding runs past its end.
#[verifier::opaque]
pub open spec fn decode_at(s: Seq<u8>, pos: int) -> Option<(u64, int)> {
    if 0 <= pos < s.len() {
        match spec_varint_decode(s.subrange(pos, s.len() as int)) {
            Some((v, n)) => Some((v, pos + n)),
            None => None,
        }
    } else {
        None
    }
}

/// `v` read as a two's-complement 64-bit signed number.
pub open spec fn as_i64(v: u64) -> int {
    if v < 0x8000_0000_0000_0000 { v as int } else { v - 0x1_0000_0000_0000_0000 }
}

/// `d` wrapped into the range of a 64-bit signed number.
pub open spec fn wrap_i64(d: int) -> int {
    if d < -0x8000_0000_0000_0000 {
        d + 0x1_0000_0000_0000_0000
    } else if d >= 0x8000_0000_0000_0000 {
        d - 0x1_0000_0000_0000_0000
    } else {
        d
    }
}

/// `a - b` modulo 2^64.
pub open spec fn wrap_sub(a: u64, b: int) -> u64 {
    if a >= b { (a - b) as u64 } else { (a - b + 0x1_0000_0000_0000_0000) as u64 }
}

/// Decimal digits of `v`, after a minus sign when it is negative.
pub open spec fn signed_decimal(v: int) -> Seq<u8> {
    if v < 0 { seq![45u8] + decimal((-v) as nat) } else { decimal(v as nat) }
}

/// The text written for a range that cannot be read.
pub open spec fn broken_range() -> Seq<u8> {
    "[-1, -1]".spec_bytes()
}

/// The text of the `remaining` ACK blocks from `pos` of `s`, below the
/// acknowledged number `largest`: each block after the first starts with
/// the gap to skip, then comes the range length; a block is written as
/// `[first, last]`.  Yields the text, the position after the blocks, and
/// whether a block could not be read (a missing number, or a range
/// reaching below zero), in which case `[-1, -1]` ends the text.
/// Numbers wrap around as 64-bit integers.
pub open spec fn ack_blocks(s: Seq<u8>, pos: int, remaining: int, first_block: bool, largest: u64) -> (
    Seq<u8>,
    int,
    bool,
)
    decreases remaining,
{
    if remaining <= 0 {
        (Seq::empty(), pos, false)
    } else {
        let sk: Option<(u64, int)> = if first_block { Some((0u64, pos)) } else { decode_at(s, pos) };
        match sk {
            None => (broken_range(), pos, true),
            Some((skip, p1)) => match decode_at(s, p1) {
                None => (broken_range(), p1, true),
                Some((range, p2)) => if largest < skip + range {
                    (broken_range(), p2, true)
                } else {
                    let l1 = if first_block { largest } else { wrap_sub(largest, skip + 1) };
                    let text = (if first_block { Seq::<u8>::empty() } else { ", ".spec_bytes() }) + "[".spec_bytes()
                        + signed_decimal(wrap_i64(as_i64(l1) - as_i64(range))) + ", ".spec_bytes() + signed_decimal(
                        as_i64(l1),
                    ) + "]".spec_bytes();
                    let rest = ack_blocks(s, p2, remaining - 1, false, wrap_sub(l1, range + 1));
                    (text + rest.0, rest.1, rest.2)
                },
            },
        }
    }
}

/// Name of the `k`-th ECN count of an ACK frame.
pub open spec fn ecn_name(k: int) -> Seq<u8> {
    if k == 0 {
        "ect0".spec_bytes()
    } else if k == 1 {
        "ect1".spec_bytes()
    } else {
        "ce".spec_bytes()
    }
}

/// The text of the ECN counts from the `k`-th on, read from `pos`: each
/// count read is written with its name; reading stops at the first one
/// missing.  Yields the text and the position after the counts read.
pub open spec fn ack_ecn(s: Seq<u8>, pos: int, k: int) -> (Seq<u8>, int)
    decreases 3 - k,
{
    if k < 0 || k >= 3 {
        (Seq::empty(), pos)
    } else {
        match decode_at(s, pos) {
            None => (Seq::empty(), pos),
            Some((v, p)) => {
                let rest = ack_ecn(s, p, k + 1);
                (", \"".spec_bytes() + ecn_name(k) + "\": ".spec_bytes() + decimal(v as nat) + rest.0, rest.1)
            },
        }
    }
}

/// The fields that open an ACK frame, after its type: the path ID (when
/// the frame has one), the largest acknowledged number, the ACK delay and
/// the number of further blocks, with the position after them.
pub open spec fn ack_header(s: Seq<u8>, has_path_id: bool) -> Option<(u64, u64, u64, u64, int)> {
    if s.len() == 0 {
        None
    } else {
        let p0 = varint_length(s[0]) as int;
        let ph: Option<(u64, int)> = if has_path_id { decode_at(s, p0) } else { Some((0u64, p0)) };
        match ph {
            None => None,
            Some((path_id, p1)) => match decode_at(s, p1) {
                None => None,
                Some((largest, p2)) => match decode_at(s, p2) {
                    None => None,
                    Some((delay, p3)) => match decode_at(s, p3) {
                        None => None,
                        Some((nb, p4)) => Some((path_id, largest, delay, nb, p4)),
                    },
                },
            },
        }
    }
}

/// The text that opens the qlog of an ACK frame: its path ID when it has
/// one, its ACK delay, and the start of the list of ranges.
pub open spec fn ack_head(has_path_id: bool, path_id: u64, delay: u64) -> Seq<u8> {
    (if has_path_id {
        ", \"path_id\": ".spec_bytes() + decimal(path_id as nat)
    } else {
        Seq::<u8>::empty()
    }) + ", \"ack_delay\": ".spec_bytes() + decimal(delay as nat) + ", \"acked_ranges\": [".spec_bytes()
}

/// The qlog text of the ACK frame at the start of `s`, and the position
/// after it; `None` for the position when the frame cannot be read.
pub open spec fn spec_frame_ack(s: Seq<u8>, has_path_id: bool, has_ecn: bool) -> (Seq<u8>, Option<int>) {
    match ack_header(s, has_path_id) {
        None => (Seq::empty(), None),
        Some((path_id, largest, delay, nb, p)) => {
            let head = ack_head(has_path_id, path_id, delay);
            let b = ack_blocks(s, p, nb + 1, true, largest);
            if b.2 {
                (head + b.0 + "]".spec_bytes(), None)
            } else if has_ecn {
                let e = ack_ecn(s, b.1, 0);
                (head + b.0 + "]".spec_bytes() + e.0, Some(e.1))
            } else {
                (head + b.0 + "]".spec_bytes(), Some(b.1))
            }
        },
    }
}

/// The variable-length integer at `pos` of `s`.
pub(crate) fn decode_at_exec(s: &[u8], pos: usize) -> (r: Option<(u64, usize)>)
    ensures
        r is None <==> decode_at(s@, pos as int) is None,
        r matches Some((v, p)) ==> decode_at(s@, pos as int) == Some((v, p as int)) && pos < p <= s@.len(),
{
    reveal(decode_at);
    if pos >= s.len() {
        return None;
    }
    let rest = slice_subrange(s, pos, s.len());
    match varint_decode(rest) {
        None => None,
        Some((v, n)) => Some((v, pos + n)),
    }
}

/// Append the decimal digits of `v`, after a minus sign when negative.
fn push_signed(out: &mut Vec<u8>, v: i128)
    requires
        -0x1_0000_0000_0000_0000 < v < 0x1_0000_0000_0000_0000,
    ensures
        final(out)@ == old(out)@ + signed_decimal(v as int),
{
    if v < 0 {
        out.push(45u8);
        let m: u64 = (0 - v) as u64;
        push_decimal(out, m);
        assert(out@ =~= old(out)@ + signed_decimal(v as int));
    } else {
        push_decimal(out, v as u64);
    }
}

/// `v` read as a signed 64-bit number.
fn as_i64_exec(v: u64) -> (r: i128)
    ensures
        r as int == as_i64(v),
{
    if v < 0x8000_0000_0000_0000 { v as i128 } else { v as i128 - 0x1_0000_0000_0000_0000 }
}

/// `a - b` modulo 2^64.
fn wrap_sub_exec(a: u64, b: u128) -> (r: u64)
    requires
        b <= 0x1_0000_0000_0000_0000,
    ensures
        r == wrap_sub(a, b as int),
{
    if a as u128 >= b {
        (a as u128 - b) as u64
    } else {
        (a as u128 + 0x1_0000_0000_0000_0000 - b) as u64
    }
}

/// Append the text of one readable block and give the number below it.
#[verifier::rlimit(30)]
fn push_block(out: &mut Vec<u8>, first_block: bool, l1: u64, range: u64) -> (next: u64)
    ensures
        final(out)@ == old(out)@ + (if first_block { Seq::<u8>::empty() } else { ", ".spec_bytes() }) + "[".spec_bytes()
            + signed_decimal(wrap_i64(as_i64(l1) - as_i64(range))) + ", ".spec_bytes() + signed_decimal(as_i64(l1))
            + "]".spec_bytes(),
        next == wrap_sub(l1, range + 1),
{
    if !first_block {
        push_text(out, ", ");
    }
    push_text(out, "[");
    let li = as_i64_exec(l1);
    let ri = as_i64_exec(range);
    let d: i128 = li - ri;
    let start: i128 = if d < -0x8000_0000_0000_0000 {
        d + 0x1_0000_0000_0000_0000
    } else if d >= 0x8000_0000_0000_0000 {
        d - 0x1_0000_0000_0000_0000
    } else {
        d
    };
    push_signed(out, start);
    push_text(out, ", ");
    push_signed(out, li);
    push_text(out, "]");
    assert(out@ =~= old(out)@ + (if first_block { Seq::<u8>::empty() } else { ", ".spec_bytes() }) + "[".spec_bytes()
        + signed_decimal(wrap_i64(as_i64(l1) - as_i64(range))) + ", ".spec_bytes() + signed_decimal(as_i64(l1))
        + "]".spec_bytes());
    wrap_sub_exec(l1, range as u128 + 1)
}

/// Write the ACK blocks and give the position after them and whether one
/// could not be read.
#[verifier::rlimit(30)]
fn push_ack_blocks(out: &mut Vec<u8>, s: &[u8], pos0: usize, nb: u64, largest0: u64) -> (r: (usize, bool))
    requires
        pos0 <= s@.len(),
    ensures
        ({
            let b = ack_blocks(s@, pos0 as int, nb + 1, true, largest0);
            &&& final(out)@ == old(out)@ + b.0
            &&& r.0 as int == b.1
            &&& r.1 == b.2
        }),
        r.0 <= s@.len(),
{
    let ghost full = ack_blocks(s@, pos0 as int, nb + 1, true, largest0);
    let ghost start = out@;
    let mut remaining: u128 = nb as u128 + 1;
    let mut pos: usize = pos0;
    let mut first_block = true;
    let mut largest: u64 = largest0;
    while remaining > 0
        invariant
            start == old(out)@,
            full == ack_blocks(s@, pos0 as int, nb + 1, true, largest0),
            pos <= s@.len(),
            ({
                let cur = ack_blocks(s@, pos as int, remaining as int, first_block, largest);
                &&& full.0 == out@.subrange(start.len() as int, out@.len() as int) + cur.0
                &&& full.1 == cur.1
                &&& full.2 == cur.2
            }),
            start.len() <= out@.len(),
            out@.subrange(0, start.len() as int) == start,
        decreases remaining,
    {
        let ghost before = out@;
        let sk: Option<(u64, usize)> = if first_block { Some((0u64, pos)) } else { decode_at_exec(s, pos) };
        let (skip, p1) = match sk {
            None => {
                push_text(out, "[-1, -1]");
                proof {
                    assert(out@.subrange(start.len() as int, out@.len() as int) =~= before.subrange(
                        start.len() as int,
                        before.len() as int,
                    ) + broken_range());
                    assert(out@.subrange(0, start.len() as int) =~= start);
                    assert(ack_blocks(s@, pos as int, remaining as int, first_block, largest) == (broken_range(), pos as int, true));
                    assert(out@ =~= start + full.0);
                }
                return (pos, true);
            },
            Some(x) => x,
        };
        proof {
            let gsk: Option<(u64, int)> = if first_block { Some((0u64, pos as int)) } else { decode_at(s@, pos as int) };
            assert(gsk == Some((skip, p1 as int)));
        }
        assert(p1 <= s@.len());
        match decode_at_exec(s, p1) {
            None => {
                push_text(out, "[-1, -1]");
                proof {
                    assert(out@.subrange(start.len() as int, out@.len() as int) =~= before.subrange(
                        start.len() as int,
                        before.len() as int,
                    ) + broken_range());
                    assert(out@.subrange(0, start.len() as int) =~= start);
                    assert(decode_at(s@, p1 as int) is None);
                    assert(ack_blocks(s@, pos as int, remaining as int, first_block, largest) == (broken_range(), p1 as int, true));
                    assert(out@ =~= start + out@.subrange(start.len() as int, out@.len() as int));
                }
                proof {
                    assert(out@ =~= start + full.0);
                }
                return (p1, true);
            },
            Some((range, p2)) => {
                if (largest as u128) < (skip as u128) + (range as u128) {
                    push_text(out, "[-1, -1]");
                    proof {
                        assert(out@.subrange(start.len() as int, out@.len() as int) =~= before.subrange(
                            start.len() as int,
                            before.len() as int,
                        ) + broken_range());
                        assert(out@.subrange(0, start.len() as int) =~= start);
                        assert(ack_blocks(s@, pos as int, remaining as int, first_block, largest) == (broken_range(), p2 as int, true));
                        assert(out@ =~= start + out@.subrange(start.len() as int, out@.len() as int));
                    }
                    proof {
                        assert(out@ =~= start + full.0);
                    }
                    return (p2, true);
                }
                let l1: u64 = if first_block { largest } else { wrap_sub_exec(largest, skip as u128 + 1) };
                let next = push_block(out, first_block, l1, range);
                proof {
                    let text = (if first_block { Seq::<u8>::empty() } else { ", ".spec_bytes() }) + "[".spec_bytes()
                        + signed_decimal(wrap_i64(as_i64(l1) - as_i64(range))) + ", ".spec_bytes() + signed_decimal(
                        as_i64(l1),
                    ) + "]".spec_bytes();
                    assert(out@ =~= before + text);
                    assert(out@.subrange(start.len() as int, out@.len() as int) =~= before.subrange(
                        start.len() as int,
                        before.len() as int,
                    ) + text);
                    assert(out@.subrange(0, start.len() as int) =~= start);
                }
                pos = p2;
                largest = next;
                first_block = false;
                remaining = remaining - 1;
            },
        }
    }
    proof {
        assert(ack_blocks(s@, pos as int, remaining as int, first_block, largest).0 =~= Seq::<u8>::empty());
        assert(full.0 =~= out@.subrange(start.len() as int, out@.len() as int));
        assert(out@ =~= start + out@.subrange(start.len() as int, out@.len() as int));
    }
    (pos, false)
}

/// Write the ECN counts that can be read from `pos0`; give the position
/// after them.
#[verifier::rlimit(30)]
fn push_ack_ecn(out: &mut Vec<u8>, s: &[u8], pos0: usize) -> (r: usize)
    requires
        pos0 <= s@.len(),
    ensures
        final(out)@ == old(out)@ + ack_ecn(s@, pos0 as int, 0).0,
        r as int == ack_ecn(s@, pos0 as int, 0).1,
        r <= s@.len(),
{
    let ghost full = ack_ecn(s@, pos0 as int, 0);
    let ghost start = out@;
    let mut k: usize = 0;
    let mut pos: usize = pos0;
    while k < 3
        invariant
            start == old(out)@,
            full == ack_ecn(s@, pos0 as int, 0),
            k <= 3,
            pos <= s@.len(),
            start.len() <= out@.len(),
            out@.subrange(0, start.len() as int) == start,
            full.0 == out@.subrange(start.len() as int, out@.len() as int) + ack_ecn(s@, pos as int, k as int).0,
            full.1 == ack_ecn(s@, pos as int, k as int).1,
        decreases 3 - k,
    {
        let ghost before = out@;
        match decode_at_exec(s, pos) {
            None => {
                proof {
                    assert(ack_ecn(s@, pos as int, k as int) == (Seq::<u8>::empty(), pos as int));
                    assert(out@.subrange(start.len() as int, out@.len() as int) + Seq::<u8>::empty() =~= out@.subrange(
                        start.len() as int,
                        out@.len() as int,
                    ));
                    assert(out@ =~= start + out@.subrange(start.len() as int, out@.len() as int));
                    assert(out@ =~= start + full.0);
                }
                return pos;
            },
            Some((v, p)) => {
                push_text(out, ", \"");
                if k == 0 {
                    push_text(out, "ect0");
                } else if k == 1 {
                    push_text(out, "ect1");
                } else {
                    push_text(out, "ce");
                }
                push_text(out, "\": ");
                push_decimal(out, v);
                proof {
                    let text = ", \"".spec_bytes() + ecn_name(k as int) + "\": ".spec_bytes() + decimal(v as nat);
                    assert(out@ =~= before + text);
                    assert(out@.subrange(start.len() as int, out@.len() as int) =~= before.subrange(
                        start.len() as int,
                        before.len() as int,
                    ) + text);
                    assert(out@.subrange(0, start.len() as int) =~= start);
                }
                proof {
                    let text = ", \"".spec_bytes() + ecn_name(k as int) + "\": ".spec_bytes() + decimal(v as nat);
                    assert(decode_at(s@, pos as int) == Some((v, p as int)));
                    let nxt = ack_ecn(s@, p as int, k + 1);
                    assert(ack_ecn(s@, pos as int, k as int) == (text + nxt.0, nxt.1));
                    assert(full.0 =~= out@.subrange(start.len() as int, out@.len() as int) + nxt.0);
                }
                pos = p;
                k = k + 1;
            },
        }
    }
    proof {
        assert(ack_ecn(s@, pos as int, k as int) == (Seq::<u8>::empty(), pos as int));
        assert(out@.subrange(start.len() as int, out@.len() as int) + Seq::<u8>::empty() =~= out@.subrange(
            start.len() as int,
            out@.len() as int,
        ));
        assert(out@ =~= start + out@.subrange(start.len() as int, out@.len() as int));
    }
    pos
}

/// Write the text that opens the qlog of an ACK frame.
fn push_ack_head(out: &mut Vec<u8>, has_path_id: bool, path_id: u64, delay: u64)
    ensures
        final(out)@ == old(out)@ + ack_head(has_path_id, path_id, delay),
{
    if has_path_id {
        push_text(out, ", \"path_id\": ");
        push_decimal(out, path_id);
    }
    push_text(out, ", \"ack_delay\": ");
    push_decimal(out, delay);
    push_text(out, ", \"acked_ranges\": [");
    assert(out@ =~= old(out)@ + ack_head(has_path_id, path_id, delay));
}

/// The opening fields of the ACK frame at the start of `first`.
#[verifier::rlimit(30)]
fn read_ack_header(first: &[u8], has_path_id: bool) -> (r: Option<(u64, u64, u64, u64, usize)>)
    ensures
        r is None <==> ack_header(first@, has_path_id) is None,
        r matches Some((a, b, c, d, p)) ==> ack_header(first@, has_path_id) == Some((a, b, c, d, p as int))
            && p <= first@.len(),
{
    if first.len() == 0 {
        return None;
    }
    let b0 = first[0];
    let p0: usize = if b0 < 64 {
        1
    } else if b0 < 128 {
        2
    } else if b0 < 192 {
        4
    } else {
        8
    };
    let mut path_id: u64 = 0;
    let mut p1: usize = p0;
    if has_path_id {
        match decode_at_exec(first, p0) {
            None => {
                return None;
            },
            Some((v, p)) => {
                path_id = v;
                p1 = p;
            },
        }
    }
    let (largest, p2) = match decode_at_exec(first, p1) {
        None => {
            return None;
        },
        Some(x) => x,
    };
    let (ack_delay, p3) = match decode_at_exec(first, p2) {
        None => {
            return None;
        },
        Some(x) => x,
    };
    match decode_at_exec(first, p3) {
        None => None,
        Some((nb, p4)) => Some((path_id, largest, ack_delay, nb, p4)),
    }
}

/// Write the qlog text of the ACK frame at the start of `first` (an
/// ACK_MP frame when `has_path_id`, with ECN counts when `has_ecn`), and
/// give the bytes after it, or `None` when the frame cannot be read.
/// Nothing is written when the frame's opening fields cannot be read; a
/// range that cannot be read is written `[-1, -1]` and ends the text.
#[verifier::rlimit(30)]
pub fn frame_ack<'a>(out: &mut Vec<u8>, first: &'a [u8], has_path_id: bool, has_ecn: bool) -> (r: Option<&'a [u8]>)
    ensures
        final(out)@ == old(out)@ + spec_frame_ack(first@, has_path_id, has_ecn).0,
        match spec_frame_ack(first@, has_path_id, has_ecn).1 {
            None => r is None,
            Some(p) => r matches Some(rest) && 0 <= p <= first@.len() && rest@ == first@.subrange(p, first@.len() as int),
        },
{
    let (path_id, largest, ack_delay, nb, p4) = match read_ack_header(first, has_path_id) {
        None => {
            return None;
        },
        Some(h) => h,
    };
    let ghost start = out@;
    let ghost b = ack_blocks(first@, p4 as int, nb + 1, true, largest);
    let ghost head = ack_head(has_path_id, path_id, ack_delay);
    assert(ack_header(first@, has_path_id) == Some((path_id, largest, ack_delay, nb, p4 as int)));
    push_ack_head(out, has_path_id, path_id, ack_delay);
    let ghost after_head = out@;
    let (pos, broke) = push_ack_blocks(out, first, p4, nb, largest);
    let ghost after_blocks = out@;
    push_text(out, "]");
    assert(out@ =~= start + head + b.0 + "]".spec_bytes());
    if broke {
        assert(spec_frame_ack(first@, has_path_id, has_ecn) == (head + b.0 + "]".spec_bytes(), None::<int>));
        return None;
    }
    let mut end = pos;
    if has_ecn {
        let ghost before_ecn = out@;
        end = push_ack_ecn(out, first, pos);
        assert(spec_frame_ack(first@, has_path_id, has_ecn) == (head + b.0 + "]".spec_bytes() + ack_ecn(first@, pos as int, 0).0, Some(end as int)));
        assert(out@ =~= start + (head + b.0 + "]".spec_bytes() + ack_ecn(first@, pos as int, 0).0));
    } else {
        assert(spec_frame_ack(first@, has_path_id, has_ecn) == (head + b.0 + "]".spec_bytes(), Some(end as int)));
    }
    Some(slice_subrange(first, end, first.len()))
}

/// The fields of the STREAM frame at the start of `s`: the stream ID, the
/// offset (0 when the type byte has no offset bit), the data length (the
/// rest of `s` when the type byte has no length bit) and the position of
/// the data; `None` when a field cannot be read or the announced data runs
/// past the end of `s`.
pub open spec fn stream_fields(s: Seq<u8>) -> Option<(u64, u64, u64, int)> {
    if s.len() == 0 {
        None
    } else {
        let b = s[0];
        match decode_at(s, 1) {
            None => None,
            Some((id, p1)) => {
                let off: Option<(u64, int)> = if b & 4 != 0 { decode_at(s, p1) } else { Some((0u64, p1)) };
                match off {
                    None => None,
                    Some((offset, p2)) => if b & 2 != 0 {
                        match decode_at(s, p2) {
                            None => None,
                            Some((len, p3)) => if p3 + len > s.len() {
                                None
                            } else {
                                Some((id, offset, len, p3))
                            },
                        }
                    } else {
                        Some((id, offset, (s.len() - p2) as u64, p2))
                    },
                }
            },
        }
    }
}

/// The fields of a STREAM frame of type byte `b` as qlog text.
pub open spec fn stream_fields_text(b: u8, id: u64, offset: u64, len: u64) -> Seq<u8> {
    stream_numbers_text(id, offset, len) + stream_flags_text(b)
}

/// The ID, offset and length of a STREAM frame as qlog text.
pub open spec fn stream_numbers_text(id: u64, offset: u64, len: u64) -> Seq<u8> {
    ", \"id\": ".spec_bytes() + decimal(id as nat) + ", \"offset\": ".spec_bytes() + decimal(offset as nat)
        + ", \"length\": ".spec_bytes() + decimal(len as nat)
}

/// The FIN flag of a STREAM frame of type byte `b`, and a note when it has
/// no length field, as qlog text.
pub open spec fn stream_flags_text(b: u8) -> Seq<u8> {
    ", \"fin\": ".spec_bytes() + (if b & 1 != 0 {
        "true".spec_bytes()
    } else {
        "false".spec_bytes()
    }) + " ".spec_bytes() + (if b & 2 == 0 {
        ", \"has_length\": false".spec_bytes()
    } else {
        Seq::<u8>::empty()
    })
}

/// The first `n` data bytes from `p` as qlog text, nothing when `n` is 0.
pub open spec fn begins_with_text(s: Seq<u8>, p: int, n: int) -> Seq<u8> {
    if n > 0 {
        ", \"begins_with\": \"".spec_bytes() + hex_bytes(s.subrange(p, p + n)) + "\"".spec_bytes()
    } else {
        Seq::<u8>::empty()
    }
}

/// Write the ID, offset and length of a STREAM frame.
fn push_stream_numbers(out: &mut Vec<u8>, id: u64, offset: u64, len: u64)
    ensures
        final(out)@ == old(out)@ + stream_numbers_text(id, offset, len),
{
    push_text(out, ", \"id\": ");
    push_decimal(out, id);
    push_text(out, ", \"offset\": ");
    push_decimal(out, offset);
    push_text(out, ", \"length\": ");
    push_decimal(out, len);
    assert(out@ =~= old(out)@ + stream_numbers_text(id, offset, len));
}

/// Write the FIN flag of a STREAM frame, and the note on a missing length.
fn push_stream_flags(out: &mut Vec<u8>, b: u8)
    ensures
        final(out)@ == old(out)@ + stream_flags_text(b),
{
    push_text(out, ", \"fin\": ");
    if b & 1 != 0 {
        push_text(out, "true");
    } else {
        push_text(out, "false");
    }
    push_text(out, " ");
    if b & 2 == 0 {
        push_text(out, ", \"has_length\": false");
    }
    assert(out@ =~= old(out)@ + stream_flags_text(b));
}

/// Write the fields of a STREAM frame.
fn push_stream_fields(out: &mut Vec<u8>, b: u8, id: u64, offset: u64, len: u64)
    ensures
        final(out)@ == old(out)@ + stream_fields_text(b, id, offset, len),
{
    push_stream_numbers(out, id, offset, len);
    push_stream_flags(out, b);
    assert(out@ =~= old(out)@ + stream_fields_text(b, id, offset, len));
}

/// Write the first `n` data bytes from `p`.
fn push_begins_with(out: &mut Vec<u8>, s: &[u8], p: usize, n: usize)
    requires
        p + n <= s@.len(),
    ensures
        final(out)@ == old(out)@ + begins_with_text(s@, p as int, n as int),
{
    // Bounds `p + n` by the length of the slice.
    let _total = s.len();
    if n > 0 {
        push_text(out, ", \"begins_with\": \"");
        push_hex_range(out, s, p, p + n);
        push_text(out, "\"");
        assert(out@ =~= old(out)@ + begins_with_text(s@, p as int, n as int));
    }
}

/// The qlog text of the STREAM frame at the start of `s` and the position
/// after its data: ID, offset, length and FIN flag, a note when the frame
/// has no length field, and the first bytes of the data (at most eight)
/// in hexadecimal.  Nothing and `None` when the frame cannot be read.
pub open spec fn spec_frame_stream(s: Seq<u8>) -> (Seq<u8>, Option<int>) {
    match stream_fields(s) {
        None => (Seq::empty(), None),
        Some((id, offset, len, p)) => {
            let b = s[0];
            let extra: int = if len < 8 { len as int } else { 8 };
            let extra2: int = if extra > s.len() - p { s.len() - p } else { extra };
            let text = stream_fields_text(b, id, offset, len) + begins_with_text(s, p, extra2);
            (text, Some(p + len))
        },
    }
}

/// The fields of the STREAM frame at the start of `s`.
#[verifier::rlimit(30)]
fn read_stream_fields(s: &[u8]) -> (r: Option<(u64, u64, u64, usize)>)
    ensures
        r is None <==> stream_fields(s@) is None,
        r matches Some((a, b, c, p)) ==> stream_fields(s@) == Some((a, b, c, p as int)) && p <= s@.len() && p + c
            <= s@.len(),
{
    if s.len() == 0 {
        return None;
    }
    let b = s[0];
    let (id, p1) = match decode_at_exec(s, 1) {
        None => {
            return None;
        },
        Some(x) => x,
    };
    let (offset, p2) = if b & 4 != 0 {
        match decode_at_exec(s, p1) {
            None => {
                return None;
            },
            Some(x) => x,
        }
    } else {
        (0u64, p1)
    };
    if b & 2 != 0 {
        match decode_at_exec(s, p2) {
            None => None,
            Some((len, p3)) => {
                if (p3 as u128) + (len as u128) > s.len() as u128 {
                    None
                } else {
                    Some((id, offset, len, p3))
                }
            },
        }
    } else {
        Some((id, offset, (s.len() - p2) as u64, p2))
    }
}

/// Write the qlog text of the STREAM frame at the start of `first` and
/// give the bytes after its data, or `None` (and write nothing) when the
/// frame cannot be read.
#[verifier::rlimit(30)]
pub fn frame_stream<'a>(out: &mut Vec<u8>, first: &'a [u8]) -> (r: Option<&'a [u8]>)
    ensures
        final(out)@ == old(out)@ + spec_frame_stream(first@).0,
        match spec_frame_stream(first@).1 {
            None => r is None,
            Some(p) => r matches Some(rest) && 0 <= p <= first@.len() && rest@ == first@.subrange(p, first@.len() as int),
        },
{
    let (id, offset, len, p) = match read_stream_fields(first) {
        None => {
            return None;
        },
        Some(x) => x,
    };
    let b = first[0];
    let ghost start = out@;
    push_stream_fields(out, b, id, offset, len);
    let extra: usize = if len < 8 { len as usize } else { 8 };
    let extra2: usize = if extra > first.len() - p { first.len() - p } else { extra };
    push_begins_with(out, first, p, extra2);
    assert(out@ =~= start + spec_frame_stream(first@).0);
    Some(slice_subrange(first, p + len as usize, first.len()))
}

/// The first `k` variable-length integers from `pos` of `s`, and the
/// position after them; `None` when one of them cannot be read.
pub open spec fn decode_fields(s: Seq<u8>, pos: int, k: nat) -> Option<(Seq<u64>, int)>
    decreases k,
{
    if k == 0 {
        Some((Seq::empty(), pos))
    } else {
        match decode_fields(s, pos, (k - 1) as nat) {
            None => None,
            Some((vs, p)) => match decode_at(s, p) {
                None => None,
                Some((v, q)) => Some((vs.push(v), q)),
            },
        }
    }
}

proof fn lemma_decode_fields_none(s: Seq<u8>, pos: int, k: nat, n: nat)
    requires
        k <= n,
        decode_fields(s, pos, k) is None,
    ensures
        decode_fields(s, pos, n) is None,
    decreases n - k,
{
    if k < n {
        lemma_decode_fields_none(s, pos, k + 1, n);
    }
}

proof fn lemma_decode_fields_count(s: Seq<u8>, pos: int, k: nat)
    requires
        decode_fields(s, pos, k) is Some,
    ensures
        decode_fields(s, pos, k).unwrap().0.len() == k,
    decreases k,
{
    if k > 0 {
        lemma_decode_fields_count(s, pos, (k - 1) as nat);
    }
}

/// Read `n` variable-length integers from `start` of `s`.
fn read_fields(s: &[u8], start: usize, n: usize) -> (r: Option<(Vec<u64>, usize)>)
    requires
        start <= s@.len(),
    ensures
        r is None <==> decode_fields(s@, start as int, n as nat) is None,
        r matches Some((vs, p)) ==> decode_fields(s@, start as int, n as nat) == Some((vs@, p as int)) && p
            <= s@.len(),
{
    let mut vs: Vec<u64> = Vec::new();
    let mut pos: usize = start;
    let mut i: usize = 0;
    while i < n
        invariant
            i <= n,
            pos <= s@.len(),
            decode_fields(s@, start as int, i as nat) == Some((vs@, pos as int)),
        decreases n - i,
    {
        match decode_at_exec(s, pos) {
            None => {
                proof {
                    lemma_decode_fields_none(s@, start as int, (i + 1) as nat, n as nat);
                }
                return None;
            },
            Some((v, q)) => {
                vs.push(v);
                pos = q;
            },
        }
        i = i + 1;
    }
    Some((vs, pos))
}

/// The qlog text of one numeric field: `, "name": value`.
pub open spec fn field_text(name: Seq<u8>, v: u64) -> Seq<u8> {
    ", \"".spec_bytes() + name + "\": ".spec_bytes() + decimal(v as nat)
}

/// Append `, "name": value`.
fn push_field(out: &mut Vec<u8>, name: &str, v: u64)
    ensures
        final(out)@ == old(out)@ + field_text(name.spec_bytes(), v),
{
    push_text(out, ", \"");
    push_text(out, name);
    push_text(out, "\": ");
    push_decimal(out, v);
    assert(out@ =~= old(out)@ + field_text(name.spec_bytes(), v));
}

/// The qlog text of a frame of one numeric field named `name`, and the
/// position after it; nothing and `None` when it cannot be read.
pub open spec fn spec_frame_one_param(s: Seq<u8>, name: Seq<u8>) -> (Seq<u8>, Option<int>) {
    match decode_fields(s, 0, 1) {
        None => (Seq::empty(), None),
        Some((vs, p)) => (field_text(name, vs[0]), Some(p)),
    }
}

/// Write the one numeric field `name` of a frame body and give the bytes
/// after it.
pub fn frame_one_param<'a>(out: &mut Vec<u8>, bytes: &'a [u8], name: &str) -> (r: Option<&'a [u8]>)
    ensures
        final(out)@ == old(out)@ + spec_frame_one_param(bytes@, name.spec_bytes()).0,
        match spec_frame_one_param(bytes@, name.spec_bytes()).1 {
            None => r is None,
            Some(p) => r matches Some(rest) && 0 <= p <= bytes@.len() && rest@ == bytes@.subrange(p, bytes@.len() as int),
        },
{
    match read_fields(bytes, 0, 1) {
        None => None,
        Some((vs, p)) => {
            proof {
                lemma_decode_fields_count(bytes@, 0, 1);
            }
            push_field(out, name, vs[0]);
            Some(slice_subrange(bytes, p, bytes.len()))
        },
    }
}

/// The qlog text of a frame of two numeric fields, and the position after
/// them; nothing and `None` when they cannot be read.
pub open spec fn spec_frame_two_params(s: Seq<u8>, n1: Seq<u8>, n2: Seq<u8>) -> (Seq<u8>, Option<int>) {
    match decode_fields(s, 0, 2) {
        None => (Seq::empty(), None),
        Some((vs, p)) => (field_text(n1, vs[0]) + field_text(n2, vs[1]), Some(p)),
    }
}

/// Write the two numeric fields `n1` and `n2` of a frame body and give the
/// bytes after them.
pub fn frame_two_params<'a>(out: &mut Vec<u8>, bytes: &'a [u8], n1: &str, n2: &str) -> (r: Option<&'a [u8]>)
    ensures
        final(out)@ == old(out)@ + spec_frame_two_params(bytes@, n1.spec_bytes(), n2.spec_bytes()).0,
        match spec_frame_two_params(bytes@, n1.spec_bytes(), n2.spec_bytes()).1 {
            None => r is None,
            Some(p) => r matches Some(rest) && 0 <= p <= bytes@.len() && rest@ == bytes@.subrange(p, bytes@.len() as int),
        },
{
    match read_fields(bytes, 0, 2) {
        None => None,
        Some((vs, p)) => {
            proof {
                lemma_decode_fields_count(bytes@, 0, 2);
            }
            let ghost start = out@;
            push_field(out, n1, vs[0]);
            push_field(out, n2, vs[1]);
            assert(out@ =~= start + spec_frame_two_params(bytes@, n1.spec_bytes(), n2.spec_bytes()).0);
            Some(slice_subrange(bytes, p, bytes.len()))
        },
    }
}

/// The qlog text of a RESET_STREAM body (with its reliable size for
/// RESET_STREAM_AT), and the position after it.
pub open spec fn spec_frame_reset(s: Seq<u8>, is_at: bool) -> (Seq<u8>, Option<int>) {
    match decode_fields(s, 0, if is_at { 4 } else { 3 }) {
        None => (Seq::empty(), None),
        Some((vs, p)) => (field_text("stream_id".spec_bytes(), vs[0]) + field_text("error_code".spec_bytes(), vs[1])
            + field_text("final_size".spec_bytes(), vs[2]) + (if is_at {
            field_text("reliable_size".spec_bytes(), vs[3])
        } else {
            Seq::empty()
        }), Some(p)),
    }
}

/// Write a RESET_STREAM or RESET_STREAM_AT body and give the bytes after it.
pub fn frame_reset<'a>(out: &mut Vec<u8>, bytes: &'a [u8], is_at: bool) -> (r: Option<&'a [u8]>)
    ensures
        final(out)@ == old(out)@ + spec_frame_reset(bytes@, is_at).0,
        match spec_frame_reset(bytes@, is_at).1 {
            None => r is None,
            Some(p) => r matches Some(rest) && 0 <= p <= bytes@.len() && rest@ == bytes@.subrange(p, bytes@.len() as int),
        },
{
    let n: usize = if is_at { 4 } else { 3 };
    match read_fields(bytes, 0, n) {
        None => None,
        Some((vs, p)) => {
            proof {
                lemma_decode_fields_count(bytes@, 0, n as nat);
            }
            let ghost start = out@;
            push_field(out, "stream_id", vs[0]);
            push_field(out, "error_code", vs[1]);
            push_field(out, "final_size", vs[2]);
            if is_at {
                push_field(out, "reliable_size", vs[3]);
            }
            assert(out@ =~= start + spec_frame_reset(bytes@, is_at).0);
            Some(slice_subrange(bytes, p, bytes.len()))
        },
    }
}

/// The qlog text of an ACK_FREQUENCY body, and the position after it.
pub open spec fn spec_frame_ack_frequency(s: Seq<u8>) -> (Seq<u8>, Option<int>) {
    match decode_fields(s, 0, 4) {
        None => (Seq::empty(), None),
        Some((vs, p)) => (field_text("sequence_number".spec_bytes(), vs[0]) + field_text(
            "packet_tolerance".spec_bytes(),
            vs[1],
        ) + field_text("max_ack_delay".spec_bytes(), vs[2]) + field_text("reordering_threshold".spec_bytes(), vs[3]),
        Some(p)),
    }
}

/// Write an ACK_FREQUENCY body and give the bytes after it.
pub fn frame_ack_frequency<'a>(out: &mut Vec<u8>, bytes: &'a [u8]) -> (r: Option<&'a [u8]>)
    ensures
        final(out)@ == old(out)@ + spec_frame_ack_frequency(bytes@).0,
        match spec_frame_ack_frequency(bytes@).1 {
            None => r is None,
            Some(p) => r matches Some(rest) && 0 <= p <= bytes@.len() && rest@ == bytes@.subrange(p, bytes@.len() as int),
        },
{
    match read_fields(bytes, 0, 4) {
        None => None,
        Some((vs, p)) => {
            proof {
                lemma_decode_fields_count(bytes@, 0, 4);
            }
            let ghost start = out@;
            push_field(out, "sequence_number", vs[0]);
            push_field(out, "packet_tolerance", vs[1]);
            push_field(out, "max_ack_delay", vs[2]);
            push_field(out, "reordering_threshold", vs[3]);
            assert(out@ =~= start + spec_frame_ack_frequency(bytes@).0);
            Some(slice_subrange(bytes, p, bytes.len()))
        },
    }
}

/// The qlog text of a CRYPTO body (its offset and length), and the
/// position after its data; the text stays when the data runs past `s`.
pub open spec fn spec_frame_crypto_hs(s: Seq<u8>) -> (Seq<u8>, Option<int>) {
    match decode_fields(s, 0, 2) {
        None => (Seq::empty(), None),
        Some((vs, p)) => (field_text("offset".spec_bytes(), vs[0]) + field_text("length".spec_bytes(), vs[1]), if s.len()
            - p >= vs[1] {
            Some(p + vs[1])
        } else {
            None
        }),
    }
}

/// Write a CRYPTO body and give the bytes after its data.
pub fn frame_crypto_hs<'a>(out: &mut Vec<u8>, bytes: &'a [u8]) -> (r: Option<&'a [u8]>)
    ensures
        final(out)@ == old(out)@ + spec_frame_crypto_hs(bytes@).0,
        match spec_frame_crypto_hs(bytes@).1 {
            None => r is None,
            Some(p) => r matches Some(rest) && 0 <= p <= bytes@.len() && rest@ == bytes@.subrange(p, bytes@.len() as int),
        },
{
    match read_fields(bytes, 0, 2) {
        None => None,
        Some((vs, p)) => {
            proof {
                lemma_decode_fields_count(bytes@, 0, 2);
            }
            let ghost start = out@;
            push_field(out, "offset", vs[0]);
            push_field(out, "length", vs[1]);
            assert(out@ =~= start + spec_frame_crypto_hs(bytes@).0);
            let left: usize = bytes.len() - p;
            if (left as u64) >= vs[1] {
                Some(slice_subrange(bytes, p + vs[1] as usize, bytes.len()))
            } else {
                None
            }
        },
    }
}

/// The qlog text of a MAX_STREAMS or STREAMS_BLOCKED body, and the
/// position after it; the stream type is written even when the count
/// cannot be read.
pub open spec fn spec_frame_max_streams(s: Seq<u8>, is_bidir: bool, is_blocked: bool) -> (Seq<u8>, Option<int>) {
    let head = (if is_bidir {
        ", \"stream_type\": \"bidirectional\"".spec_bytes()
    } else {
        ", \"stream_type\": \"unidirectional\"".spec_bytes()
    });
    match decode_fields(s, 0, 1) {
        None => (head, None),
        Some((vs, p)) => (head + field_text(
            if is_blocked { "limit".spec_bytes() } else { "maximum".spec_bytes() },
            vs[0],
        ), Some(p)),
    }
}

/// Write a MAX_STREAMS or STREAMS_BLOCKED body and give the bytes after it.
pub fn frame_max_streams<'a>(out: &mut Vec<u8>, bytes: &'a [u8], is_bidir: bool, is_blocked: bool) -> (r: Option<
    &'a [u8],
>)
    ensures
        final(out)@ == old(out)@ + spec_frame_max_streams(bytes@, is_bidir, is_blocked).0,
        match spec_frame_max_streams(bytes@, is_bidir, is_blocked).1 {
            None => r is None,
            Some(p) => r matches Some(rest) && 0 <= p <= bytes@.len() && rest@ == bytes@.subrange(p, bytes@.len() as int),
        },
{
    let ghost start = out@;
    if is_bidir {
        push_text(out, ", \"stream_type\": \"bidirectional\"");
    } else {
        push_text(out, ", \"stream_type\": \"unidirectional\"");
    }
    match read_fields(bytes, 0, 1) {
        None => None,
        Some((vs, p)) => {
            proof {
                lemma_decode_fields_count(bytes@, 0, 1);
            }
            push_field(out, if is_blocked { "limit" } else { "maximum" }, vs[0]);
            assert(out@ =~= start + spec_frame_max_streams(bytes@, is_bidir, is_blocked).0);
            Some(slice_subrange(bytes, p, bytes.len()))
        },
    }
}

/// The qlog text of the first `l` bytes of `s` as a quoted hexadecimal
/// string, and the position after them; a coding error marker and `None`
/// when `s` is shorter.
pub open spec fn spec_frame_hex_string(s: Seq<u8>, l: u64) -> (Seq<u8>, Option<int>) {
    if l > s.len() {
        ("\"... coding error!\"".spec_bytes(), None)
    } else {
        ("\"".spec_bytes() + hex_bytes(s.subrange(0, l as int)) + "\"".spec_bytes(), Some(l as int))
    }
}

/// Write the first `l` bytes of `bytes` as a quoted hexadecimal string and
/// give the bytes after them.
pub fn frame_hex_string<'a>(out: &mut Vec<u8>, bytes: &'a [u8], l: u64) -> (r: Option<&'a [u8]>)
    ensures
        final(out)@ == old(out)@ + spec_frame_hex_string(bytes@, l).0,
        match spec_frame_hex_string(bytes@, l).1 {
            None => r is None,
            Some(p) => r matches Some(rest) && 0 <= p <= bytes@.len() && rest@ == bytes@.subrange(p, bytes@.len() as int),
        },
{
    let ghost start = out@;
    if l > bytes.len() as u64 {
        push_text(out, "\"... coding error!\"");
        None
    } else {
        let n = l as usize;
        push_text(out, "\"");
        push_hex_range(out, bytes, 0, n);
        push_text(out, "\"");
        assert(out@ =~= start + spec_frame_hex_string(bytes@, l).0);
        Some(slice_subrange(bytes, n, bytes.len()))
    }
}

/// The qlog text of a NEW_TOKEN body, and the position after the token.
pub open spec fn spec_frame_new_token(s: Seq<u8>) -> (Seq<u8>, Option<int>) {
    match decode_fields(s, 0, 1) {
        None => (Seq::empty(), None),
        Some((vs, p)) => {
            let h = spec_frame_hex_string(s.subrange(p, s.len() as int), vs[0]);
            (", \"new_token\": ".spec_bytes() + h.0, match h.1 {
                None => None,
                Some(q) => Some(p + q),
            })
        },
    }
}

/// Write a NEW_TOKEN body and give the bytes after the token.
pub fn frame_new_token<'a>(out: &mut Vec<u8>, bytes: &'a [u8]) -> (r: Option<&'a [u8]>)
    ensures
        final(out)@ == old(out)@ + spec_frame_new_token(bytes@).0,
        match spec_frame_new_token(bytes@).1 {
            None => r is None,
            Some(p) => r matches Some(rest) && 0 <= p <= bytes@.len() && rest@ == bytes@.subrange(p, bytes@.len() as int),
        },
{
    match read_fields(bytes, 0, 1) {
        None => None,
        Some((vs, p)) => {
            proof {
                lemma_decode_fields_count(bytes@, 0, 1);
            }
            let ghost start = out@;
            push_text(out, ", \"new_token\": ");
            let rest = slice_subrange(bytes, p, bytes.len());
            let r = frame_hex_string(out, rest, vs[0]);
            assert(out@ =~= start + spec_frame_new_token(bytes@).0);
            proof {
                if r is Some {
                    assert(r.unwrap()@ =~= bytes@.subrange(p + vs@[0], bytes@.len() as int));
                }
            }
            r
        },
    }
}

/// The qlog text of a PATH_CHALLENGE or PATH_RESPONSE body (eight bytes),
/// and the position after it.
pub open spec fn spec_frame_path_challenge_response(s: Seq<u8>, is_challenge: bool) -> (Seq<u8>, Option<int>) {
    if s.len() < 8 {
        (Seq::empty(), None)
    } else {
        ((if is_challenge {
            ", \"path_challenge\": ".spec_bytes()
        } else {
            ", \"path_response\": ".spec_bytes()
        }) + spec_frame_hex_string(s, 8).0, Some(8))
    }
}

/// Write a PATH_CHALLENGE or PATH_RESPONSE body and give the bytes after it.
pub fn frame_path_challenge_response<'a>(out: &mut Vec<u8>, bytes: &'a [u8], is_challenge: bool) -> (r: Option<
    &'a [u8],
>)
    ensures
        final(out)@ == old(out)@ + spec_frame_path_challenge_response(bytes@, is_challenge).0,
        match spec_frame_path_challenge_response(bytes@, is_challenge).1 {
            None => r is None,
            Some(p) => r matches Some(rest) && 0 <= p <= bytes@.len() && rest@ == bytes@.subrange(p, bytes@.len() as int),
        },
{
    if bytes.len() < 8 {
        return None;
    }
    let ghost start = out@;
    if is_challenge {
        push_text(out, ", \"path_challenge\": ");
    } else {
        push_text(out, ", \"path_response\": ");
    }
    let r = frame_hex_string(out, bytes, 8);
    assert(out@ =~= start + spec_frame_path_challenge_response(bytes@, is_challenge).0);
    r
}

/// The qlog text of a DATAGRAM body, and the position after its data: the
/// length when the frame has a length field, nothing when its data runs
/// to the end.
pub open spec fn spec_frame_datagram(s: Seq<u8>, has_length: bool) -> (Seq<u8>, Option<int>) {
    if has_length {
        match decode_fields(s, 0, 1) {
            None => (Seq::empty(), None),
            Some((vs, p)) => if s.len() - p < vs[0] {
                (Seq::empty(), None)
            } else {
                (field_text("length".spec_bytes(), vs[0]), Some(p + vs[0]))
            },
        }
    } else {
        (Seq::empty(), Some(s.len() as int))
    }
}

/// Write a DATAGRAM body and give the bytes after its data.
pub fn frame_datagram<'a>(out: &mut Vec<u8>, bytes: &'a [u8], has_length: bool) -> (r: Option<&'a [u8]>)
    ensures
        final(out)@ == old(out)@ + spec_frame_datagram(bytes@, has_length).0,
        match spec_frame_datagram(bytes@, has_length).1 {
            None => r is None,
            Some(p) => r matches Some(rest) && 0 <= p <= bytes@.len() && rest@ == bytes@.subrange(p, bytes@.len() as int),
        },
{
    if !has_length {
        assert(out@ =~= old(out)@ + spec_frame_datagram(bytes@, has_length).0);
        return Some(slice_subrange(bytes, bytes.len(), bytes.len()));
    }
    match read_fields(bytes, 0, 1) {
        None => None,
        Some((vs, p)) => {
            proof {
                lemma_decode_fields_count(bytes@, 0, 1);
            }
            let left: usize = bytes.len() - p;
            if (left as u64) < vs[0] {
                return None;
            }
            push_field(out, "length", vs[0]);
            Some(slice_subrange(bytes, p + vs[0] as usize, bytes.len()))
        },
    }
}

/// The text of a NEW_CONNECTION_ID body from `p0` on, after `head`: its
/// sequence number, the number to retire before, the connection ID and
/// the reset token.
pub open spec fn new_cid_text(s: Seq<u8>, head: Seq<u8>, p0: int) -> (Seq<u8>, Option<int>) {
    match decode_fields(s, p0, 2) {
        None => (head, None),
        Some((vs, p)) => if p >= s.len() {
            (head, None)
        } else {
            let t = head + field_text("sequence_number".spec_bytes(), vs[0]) + field_text(
                "retire_before".spec_bytes(),
                vs[1],
            ) + ", \"connection_id\": ".spec_bytes();
            let h1 = spec_frame_hex_string(s.subrange(p + 1, s.len() as int), s[p] as u64);
            match h1.1 {
                None => (t + h1.0, None),
                Some(q) => {
                    let h2 = spec_frame_hex_string(s.subrange(p + 1 + q, s.len() as int), 16);
                    (t + h1.0 + ", \"reset_token\": ".spec_bytes() + h2.0, match h2.1 {
                        None => None,
                        Some(q2) => Some(p + 1 + q + q2),
                    })
                },
            }
        },
    }
}

/// The qlog text of a NEW_CONNECTION_ID body (with a path ID for the
/// multipath form), and the position after it.  The path ID is written
/// even when the rest cannot be read.
pub open spec fn spec_frame_new_connection_id(s: Seq<u8>, has_path_id: bool) -> (Seq<u8>, Option<int>) {
    if has_path_id {
        match decode_fields(s, 0, 1) {
            None => (Seq::empty(), None),
            Some((vs, p)) => new_cid_text(s, field_text("path_id".spec_bytes(), vs[0]), p),
        }
    } else {
        new_cid_text(s, Seq::empty(), 0)
    }
}

/// Write a NEW_CONNECTION_ID body and give the bytes after it.
#[verifier::rlimit(60)]
#[verifier::spinoff_prover]
pub fn frame_new_connection_id<'a>(out: &mut Vec<u8>, bytes: &'a [u8], has_path_id: bool) -> (r: Option<&'a [u8]>)
    ensures
        final(out)@ == old(out)@ + spec_frame_new_connection_id(bytes@, has_path_id).0,
        match spec_frame_new_connection_id(bytes@, has_path_id).1 {
            None => r is None,
            Some(p) => r matches Some(rest) && 0 <= p <= bytes@.len() && rest@ == bytes@.subrange(p, bytes@.len() as int),
        },
{
    let ghost start = out@;
    let mut p0: usize = 0;
    if has_path_id {
        match read_fields(bytes, 0, 1) {
            None => {
                return None;
            },
            Some((vs, p)) => {
                proof {
                    lemma_decode_fields_count(bytes@, 0, 1);
                }
                push_field(out, "path_id", vs[0]);
                p0 = p;
            },
        }
    }
    let ghost head = out@.subrange(start.len() as int, out@.len() as int);
    assert(out@ =~= start + head);
    assert(spec_frame_new_connection_id(bytes@, has_path_id) == new_cid_text(bytes@, head, p0 as int));
    let (vs, p) = match read_fields(bytes, p0, 2) {
        None => {
            return None;
        },
        Some(x) => x,
    };
    proof {
        lemma_decode_fields_count(bytes@, p0 as int, 2);
    }
    if p >= bytes.len() {
        return None;
    }
    let cid_len = bytes[p];
    push_field(out, "sequence_number", vs[0]);
    push_field(out, "retire_before", vs[1]);
    push_text(out, ", \"connection_id\": ");
    let rest1 = slice_subrange(bytes, p + 1, bytes.len());
    let r1 = frame_hex_string(out, rest1, cid_len as u64);
    match r1 {
        None => {
            assert(out@ =~= start + spec_frame_new_connection_id(bytes@, has_path_id).0);
            None
        },
        Some(rest2) => {
            let ghost q = spec_frame_hex_string(rest1@, cid_len as u64).1.unwrap();
            assert(rest2@ =~= bytes@.subrange(p + 1 + q, bytes@.len() as int));
            push_text(out, ", \"reset_token\": ");
            let r = frame_hex_string(out, rest2, 16);
            assert(out@ =~= start + spec_frame_new_connection_id(bytes@, has_path_id).0);
            proof {
                if r is Some {
                    assert(r.unwrap()@ =~= bytes@.subrange(p + 1 + q + 16, bytes@.len() as int));
                }
            }
            r
        },
    }
}

/// The first `k` bytes of `a` in dotted decimal.
pub open spec fn ipv4_text(a: Seq<u8>, k: int) -> Seq<u8>
    decreases k,
{
    if k <= 0 {
        Seq::empty()
    } else if k == 1 {
        decimal(a[0] as nat)
    } else {
        ipv4_text(a, k - 1) + ".".spec_bytes() + decimal(a[k - 1] as nat)
    }
}

/// The 16-bit group `g` of `a`, big-endian.
pub open spec fn group16(a: Seq<u8>, g: int) -> nat {
    (a[2 * g] * 256 + a[2 * g + 1]) as nat
}

/// The first `k` 16-bit groups of `a` in hexadecimal, separated by colons.
pub open spec fn ipv6_text(a: Seq<u8>, k: int) -> Seq<u8>
    decreases k,
{
    if k <= 0 {
        Seq::empty()
    } else if k == 1 {
        hex_number(group16(a, 0))
    } else {
        ipv6_text(a, k - 1) + ":".spec_bytes() + hex_number(group16(a, k - 1))
    }
}

/// The quoted qlog text of an IP address: dotted decimal for four bytes,
/// colon-separated hexadecimal groups for sixteen, an error note otherwise.
pub open spec fn ip_text(a: Seq<u8>) -> Seq<u8> {
    "\"".spec_bytes() + (if a.len() == 4 {
        ipv4_text(a, 4)
    } else if a.len() == 16 {
        ipv6_text(a, 8)
    } else {
        "invalid address length ".spec_bytes() + decimal(a.len())
    }) + "\"".spec_bytes()
}

/// Append the quoted text of the address `addr`.
pub fn frame_ip_address(out: &mut Vec<u8>, addr: &[u8])
    ensures
        final(out)@ == old(out)@ + ip_text(addr@),
{
    let ghost start = out@;
    push_text(out, "\"");
    let ghost open = out@;
    if addr.len() == 4 {
        let mut i: usize = 0;
        while i < 4
            invariant
                addr@.len() == 4,
                i <= 4,
                out@ == open + ipv4_text(addr@, i as int),
            decreases 4 - i,
        {
            if i > 0 {
                push_text(out, ".");
            }
            push_decimal(out, addr[i] as u64);
            i = i + 1;
            assert(out@ =~= open + ipv4_text(addr@, i as int));
        }
    } else if addr.len() == 16 {
        let mut g: usize = 0;
        while g < 8
            invariant
                addr@.len() == 16,
                g <= 8,
                out@ == open + ipv6_text(addr@, g as int),
            decreases 8 - g,
        {
            if g > 0 {
                push_text(out, ":");
            }
            let w: u64 = (addr[2 * g] as u64) * 256 + addr[2 * g + 1] as u64;
            push_hex_number(out, w);
            g = g + 1;
            assert(out@ =~= open + ipv6_text(addr@, g as int));
        }
    } else {
        push_text(out, "invalid address length ");
        push_decimal(out, addr.len() as u64);
    }
    push_text(out, "\"");
    assert(out@ =~= start + ip_text(addr@));
}

/// The qlog text of a BDP frame body, and the position after it: its
/// lifetime, bytes in flight, minimum RTT and saved IPv4 address.  Nothing
/// and `None` unless the address has four bytes, all present.
pub open spec fn spec_frame_bdp(s: Seq<u8>) -> (Seq<u8>, Option<int>) {
    match decode_fields(s, 0, 4) {
        None => (Seq::empty(), None),
        Some((vs, p)) => if vs[3] != 4 || s.len() - p < 4 {
            (Seq::empty(), None)
        } else {
            (field_text("lifetime".spec_bytes(), vs[0]) + field_text("recon_bytes_in_flight".spec_bytes(), vs[1])
                + field_text("recon_min_rtt".spec_bytes(), vs[2]) + ", \"saved_ip\": ".spec_bytes() + ip_text(
                s.subrange(p, p + 4),
            ), Some(p + 4))
        },
    }
}

/// Write a BDP frame body and give the bytes after it.
pub fn frame_bdp<'a>(out: &mut Vec<u8>, bytes: &'a [u8]) -> (r: Option<&'a [u8]>)
    ensures
        final(out)@ == old(out)@ + spec_frame_bdp(bytes@).0,
        match spec_frame_bdp(bytes@).1 {
            None => r is None,
            Some(p) => r matches Some(rest) && 0 <= p <= bytes@.len() && rest@ == bytes@.subrange(p, bytes@.len() as int),
        },
{
    match read_fields(bytes, 0, 4) {
        None => None,
        Some((vs, p)) => {
            proof {
                lemma_decode_fields_count(bytes@, 0, 4);
            }
            if vs[3] != 4 || bytes.len() - p < 4 {
                return None;
            }
            let ghost start = out@;
            push_field(out, "lifetime", vs[0]);
            push_field(out, "recon_bytes_in_flight", vs[1]);
            push_field(out, "recon_min_rtt", vs[2]);
            push_text(out, ", \"saved_ip\": ");
            frame_ip_address(out, slice_subrange(bytes, p, p + 4));
            assert(out@ =~= start + spec_frame_bdp(bytes@).0);
            Some(slice_subrange(bytes, p + 4, bytes.len()))
        },
    }
}

/// The qlog text of an OBSERVED_ADDRESS body, and the position after it:
/// its sequence number, the address (IPv4 for an even frame type, IPv6 for
/// an odd one) and the port.  Nothing and `None` when it cannot be read.
pub open spec fn spec_frame_observed_address(s: Seq<u8>, ftype: u64) -> (Seq<u8>, Option<int>) {
    let n: int = if ftype % 2 == 0 { 4 } else { 16 };
    match decode_fields(s, 0, 1) {
        None => (Seq::empty(), None),
        Some((vs, p)) => if s.len() - p < n + 2 {
            (Seq::empty(), None)
        } else {
            let port = (s[p + n] * 256 + s[p + n + 1]) as u64;
            (field_text("sequence".spec_bytes(), vs[0]) + ", \"address\": ".spec_bytes() + ip_text(
                s.subrange(p, p + n),
            ) + field_text("port".spec_bytes(), port), Some(p + n + 2))
        },
    }
}

/// Write an OBSERVED_ADDRESS body of frame type `ftype` and give the bytes
/// after it.
pub fn frame_observed_address<'a>(out: &mut Vec<u8>, bytes: &'a [u8], ftype: u64) -> (r: Option<&'a [u8]>)
    ensures
        final(out)@ == old(out)@ + spec_frame_observed_address(bytes@, ftype).0,
        match spec_frame_observed_address(bytes@, ftype).1 {
            None => r is None,
            Some(p) => r matches Some(rest) && 0 <= p <= bytes@.len() && rest@ == bytes@.subrange(p, bytes@.len() as int),
        },
{
    match read_fields(bytes, 0, 1) {
        None => None,
        Some((vs, p)) => {
            proof {
                lemma_decode_fields_count(bytes@, 0, 1);
            }
            let n: usize = if ftype % 2 == 0 { 4 } else { 16 };
            if bytes.len() - p < n + 2 {
                return None;
            }
            let port: u64 = (bytes[p + n] as u64) * 256 + bytes[p + n + 1] as u64;
            let ghost start = out@;
            push_field(out, "sequence", vs[0]);
            push_text(out, ", \"address\": ");
            frame_ip_address(out, slice_subrange(bytes, p, p + n));
            push_field(out, "port", port);
            assert(out@ =~= start + spec_frame_observed_address(bytes@, ftype).0);
            Some(slice_subrange(bytes, p + n + 2, bytes.len()))
        },
    }
}

/// A frame type and its qlog name, as a frame table lists them.
#[derive(Debug, Copy, Clone)]
pub struct FrameName {
    pub frame_type: u64,
    pub name: &'static str,
}

/// Index of the first entry of `names`, from `k` on, for `id`, or -1.
pub open spec fn frame_name_index(names: Seq<FrameName>, id: u64, k: int) -> int
    decreases names.len() - k,
{
    if k < 0 || k >= names.len() {
        -1
    } else if names[k].frame_type == id {
        k
    } else {
        frame_name_index(names, id, k + 1)
    }
}

/// The index of the name of `id` in `names`.
fn find_frame_name(names: &[FrameName], id: u64) -> (r: Option<usize>)
    ensures
        r is None <==> frame_name_index(names@, id, 0) == -1,
        r matches Some(k) ==> k as int == frame_name_index(names@, id, 0) && k < names@.len(),
{
    let mut k: usize = 0;
    while k < names.len()
        invariant
            k <= names@.len(),
            frame_name_index(names@, id, 0) == frame_name_index(names@, id, k as int),
        decreases names.len() - k,
    {
        if names[k].frame_type == id {
            return Some(k);
        }
        k = k + 1;
    }
    None
}

/// A reason byte as the qlog writes it: printable ASCII as itself, any
/// other byte as a dot.
pub open spec fn printable(c: u8) -> u8 {
    if 0x20 <= c <= 0x7e { c } else { 0x2e }
}

/// The reason bytes `s`, printable.
pub open spec fn printable_text(s: Seq<u8>) -> Seq<u8> {
    s.map_values(|c: u8| printable(c))
}

/// The opening text of a CONNECTION_CLOSE body: the error space and code,
/// and for a transport close with a trigger, the trigger's frame type.
pub open spec fn close_head(app_error: bool, error_code: u64, trigger: u64, names: Seq<FrameName>) -> Seq<u8> {
    let ix = frame_name_index(names, trigger, 0);
    ", \"error_space\": \"".spec_bytes() + (if app_error {
        "application".spec_bytes()
    } else {
        "transport".spec_bytes()
    }) + "\", \"error_code\": ".spec_bytes() + decimal(error_code as nat) + (if !app_error && trigger != 0 {
        ", \"trigger_frame_type\": \"".spec_bytes() + (if ix == -1 {
            hex_number(trigger as nat)
        } else {
            names[ix].name.spec_bytes()
        }) + "\"".spec_bytes()
    } else {
        Seq::empty()
    })
}

/// Append the opening text of a CONNECTION_CLOSE body.
fn push_close_head(out: &mut Vec<u8>, app_error: bool, error_code: u64, trigger: u64, names: &[FrameName])
    ensures
        final(out)@ == old(out)@ + close_head(app_error, error_code, trigger, names@),
{
    push_text(out, ", \"error_space\": \"");
    if app_error {
        push_text(out, "application");
    } else {
        push_text(out, "transport");
    }
    push_text(out, "\", \"error_code\": ");
    push_decimal(out, error_code);
    if !app_error && trigger != 0 {
        push_text(out, ", \"trigger_frame_type\": \"");
        match find_frame_name(names, trigger) {
            Some(ix) => push_text(out, names[ix].name),
            None => push_hex_number(out, trigger),
        }
        push_text(out, "\"");
    }
    assert(out@ =~= old(out)@ + close_head(app_error, error_code, trigger, names@));
}

/// The qlog text of a CONNECTION_CLOSE body (a transport close carries the
/// type of the frame that triggered it, named from `names` when listed
/// there, in hexadecimal otherwise), and the position after its reason.
/// A reason that runs past `s` is noted as an encoding error.
pub open spec fn spec_frame_connection_close(s: Seq<u8>, app_error: bool, names: Seq<FrameName>) -> (
    Seq<u8>,
    Option<int>,
) {
    let k: nat = if app_error { 2 } else { 3 };
    match decode_fields(s, 0, k) {
        None => (Seq::empty(), None),
        Some((vs, p)) => {
            let trigger = if app_error { 0u64 } else { vs[1] };
            let reason_length = vs[k - 1];
            let head = close_head(app_error, vs[0], trigger, names);
            if reason_length == 0 {
                (head, Some(p))
            } else if s.len() - p >= reason_length {
                (head + ", \"reason\": \"".spec_bytes() + printable_text(s.subrange(p, p + reason_length))
                    + "\"".spec_bytes(), Some(p + reason_length))
            } else {
                (head + ", \"reason\": \"encoding error\"".spec_bytes(), None)
            }
        },
    }
}

/// Write a CONNECTION_CLOSE body and give the bytes after its reason.
#[verifier::rlimit(60)]
pub fn frame_connection_close<'a>(out: &mut Vec<u8>, bytes: &'a [u8], app_error: bool, names: &[FrameName]) -> (r:
    Option<&'a [u8]>)
    ensures
        final(out)@ == old(out)@ + spec_frame_connection_close(bytes@, app_error, names@).0,
        match spec_frame_connection_close(bytes@, app_error, names@).1 {
            None => r is None,
            Some(p) => r matches Some(rest) && 0 <= p <= bytes@.len() && rest@ == bytes@.subrange(p, bytes@.len() as int),
        },
{
    let k: usize = if app_error { 2 } else { 3 };
    let (vs, p) = match read_fields(bytes, 0, k) {
        None => {
            return None;
        },
        Some(x) => x,
    };
    proof {
        lemma_decode_fields_count(bytes@, 0, k as nat);
    }
    let trigger: u64 = if app_error { 0 } else { vs[1] };
    let reason_length = vs[k - 1];
    let ghost start = out@;
    push_close_head(out, app_error, vs[0], trigger, names);
    if reason_length == 0 {
        assert(out@ =~= start + spec_frame_connection_close(bytes@, app_error, names@).0);
        return Some(slice_subrange(bytes, p, bytes.len()));
    }
    let left: usize = bytes.len() - p;
    if (left as u64) < reason_length {
        push_text(out, ", \"reason\": \"encoding error\"");
        assert(out@ =~= start + spec_frame_connection_close(bytes@, app_error, names@).0);
        return None;
    }
    let n = reason_length as usize;
    push_text(out, ", \"reason\": \"");
    let ghost before = out@;
    let mut i: usize = 0;
    while i < n
        invariant
            i <= n,
            n <= bytes.len() - p,
            p <= bytes.len(),
            out@ == before + printable_text(bytes@.subrange(p as int, p + i)),
        decreases n - i,
    {
        let c = bytes[p + i];
        out.push(if 0x20 <= c && c <= 0x7e { c } else { 0x2e });
        i = i + 1;
        assert(out@ =~= before + printable_text(bytes@.subrange(p as int, p + i)));
    }
    push_text(out, "\"");
    assert(out@ =~= start + spec_frame_connection_close(bytes@, app_error, names@).0);
    Some(slice_subrange(bytes, p + n, bytes.len()))
}

/// A result of a formatter run on the bytes from `base` on, with its
/// position counted from the start.
pub open spec fn shifted(r: (Seq<u8>, Option<int>), base: int) -> (Seq<u8>, Option<int>) {
    (r.0, match r.1 {
        None => None,
        Some(q) => Some(base + q),
    })
}

/// The position of the first byte from `p` on that is not zero, or the end.
pub open spec fn zeros_end(s: Seq<u8>, p: int) -> int
    decreases s.len() - p,
{
    if 0 <= p < s.len() && s[p] == 0 {
        zeros_end(s, p + 1)
    } else {
        p
    }
}

/// Skip the zero bytes of `s` from `p` on.
fn skip_zeros(s: &[u8], p: usize) -> (r: usize)
    requires
        p <= s@.len(),
    ensures
        r as int == zeros_end(s@, p as int),
        p <= r <= s@.len(),
{
    let mut q = p;
    while q < s.len() && s[q] == 0
        invariant
            p <= q <= s@.len(),
            zeros_end(s@, p as int) == zeros_end(s@, q as int),
        decreases s.len() - q,
    {
        q = q + 1;
    }
    q
}

/// Lowest STREAM frame type.
pub const FRAME_TYPE_STREAM_MIN: u64 = 0x08;

/// Highest STREAM frame type.
pub const FRAME_TYPE_STREAM_MAX: u64 = 0x0f;

/// The qlog text of the body of a frame of type `id` that starts at `pos`
/// of `s`, its type ending at `a`, and the position after the frame.
#[verifier::opaque]
pub open spec fn frame_body(s: Seq<u8>, pos: int, id: u64, a: int, names: Seq<FrameName>) -> (Seq<u8>, Option<int>) {
    let first = s.subrange(pos, s.len() as int);
    let t = s.subrange(a, s.len() as int);
    if FRAME_TYPE_STREAM_MIN <= id <= FRAME_TYPE_STREAM_MAX {
        shifted(spec_frame_stream(first), pos)
    } else if id == 0x00 {
        (Seq::empty(), Some(zeros_end(s, a)))
    } else if id == 0x01 || id == 0x1e || id == 0x1f {
        (Seq::empty(), Some(a))
    } else if id == 0x02 {
        shifted(spec_frame_ack(first, false, false), pos)
    } else if id == 0x03 {
        shifted(spec_frame_ack(first, false, true), pos)
    } else if id == 0x3e {
        shifted(spec_frame_ack(first, true, false), pos)
    } else if id == 0x3f {
        shifted(spec_frame_ack(first, true, true), pos)
    } else if id == 0x04 {
        shifted(spec_frame_reset(t, false), a)
    } else if id == 0x24 {
        shifted(spec_frame_reset(t, true), a)
    } else if id == 0x1c {
        shifted(spec_frame_connection_close(t, false, names), a)
    } else if id == 0x1d {
        shifted(spec_frame_connection_close(t, true, names), a)
    } else if id == 0x10 {
        shifted(spec_frame_one_param(t, "maximum".spec_bytes()), a)
    } else if id == 0x11 {
        shifted(spec_frame_two_params(t, "stream_id".spec_bytes(), "maximum".spec_bytes()), a)
    } else if id == 0x12 {
        shifted(spec_frame_max_streams(t, true, false), a)
    } else if id == 0x13 {
        shifted(spec_frame_max_streams(t, false, false), a)
    } else if id == 0x14 {
        shifted(spec_frame_one_param(t, "limit".spec_bytes()), a)
    } else if id == 0x15 {
        shifted(spec_frame_two_params(t, "stream_id".spec_bytes(), "limit".spec_bytes()), a)
    } else if id == 0x16 {
        shifted(spec_frame_max_streams(t, true, true), a)
    } else if id == 0x17 {
        shifted(spec_frame_max_streams(t, false, true), a)
    } else if id == 0x18 {
        shifted(spec_frame_new_connection_id(t, false), a)
    } else if id == 0x3e78 {
        shifted(spec_frame_new_connection_id(t, true), a)
    } else if id == 0x05 {
        shifted(spec_frame_two_params(t, "stream_id".spec_bytes(), "error_code".spec_bytes()), a)
    } else if id == 0x1a {
        shifted(spec_frame_path_challenge_response(t, true), a)
    } else if id == 0x1b {
        shifted(spec_frame_path_challenge_response(t, false), a)
    } else if id == 0x06 {
        shifted(spec_frame_crypto_hs(t), a)
    } else if id == 0x07 {
        shifted(spec_frame_new_token(t), a)
    } else if id == 0x19 {
        shifted(spec_frame_one_param(t, "sequence_number".spec_bytes()), a)
    } else if id == 0x3e79 {
        shifted(spec_frame_two_params(t, "path_id".spec_bytes(), "sequence_number".spec_bytes()), a)
    } else if id == 0x30 {
        shifted(spec_frame_datagram(t, false), a)
    } else if id == 0x31 {
        shifted(spec_frame_datagram(t, true), a)
    } else if id == 0xaf {
        shifted(spec_frame_ack_frequency(t), a)
    } else if id == 757 {
        shifted(spec_frame_one_param(t, "time_stamp".spec_bytes()), a)
    } else if id == 0x3e75 {
        shifted(spec_frame_two_params(t, "path_id".spec_bytes(), "reason".spec_bytes()), a)
    } else if id == 0x3e76 || id == 0x3e77 {
        shifted(spec_frame_two_params(t, "path_id".spec_bytes(), "sequence".spec_bytes()), a)
    } else if id == 0xebd9 {
        shifted(spec_frame_bdp(t), a)
    } else if id == 0x3e7a || id == 0x3e7b {
        shifted(spec_frame_one_param(t, "max_path_id".spec_bytes()), a)
    } else if id == 0x3e7c {
        shifted(spec_frame_two_params(t, "path_id".spec_bytes(), "next_sequence_number".spec_bytes()), a)
    } else if id == 0x9f81a6 || id == 0x9f81a7 {
        shifted(spec_frame_observed_address(t, id), a)
    } else {
        (field_text("unknown_frame_type".spec_bytes(), id), Some(a))
    }
}

/// The position after `rest`, what a formatter run on `sub` (the bytes of
/// `s` from `base` on) gave back.
fn end_of(s: &[u8], sub: &[u8], rest: Option<&[u8]>, base: usize, Ghost(q): Ghost<Option<int>>) -> (r: Option<usize>)
    requires
        base <= s@.len(),
        sub@.len() == s@.len() - base,
        match q {
            None => rest is None,
            Some(p) => rest matches Some(x) && 0 <= p <= sub@.len() && x@ == sub@.subrange(p, sub@.len() as int),
        },
    ensures
        match q {
            None => r is None,
            Some(p) => r == Some((base + p) as usize) && base + p <= s@.len(),
        },
{
    match rest {
        None => None,
        Some(x) => Some(s.len() - x.len()),
    }
}

/// Write the qlog text of the body of a frame of type `id` that starts at
/// `pos` of `s`, its type ending at `a`, and give the position after it.
#[verifier::rlimit(100)]
fn frame_body_exec(out: &mut Vec<u8>, s: &[u8], pos: usize, id: u64, a: usize, names: &[FrameName]) -> (r: Option<usize>)
    requires
        pos < a <= s@.len(),
    ensures
        final(out)@ == old(out)@ + frame_body(s@, pos as int, id, a as int, names@).0,
        match frame_body(s@, pos as int, id, a as int, names@).1 {
            None => r is None,
            Some(q) => r == Some(q as usize) && 0 <= q <= s@.len(),
        },
{
    reveal(frame_body);
    let first = slice_subrange(s, pos, s.len());
    let t = slice_subrange(s, a, s.len());
    if id == 0x00 {
        Some(skip_zeros(s, a))
    } else if id == 0x01 || id == 0x1e || id == 0x1f {
        Some(a)
    } else if FRAME_TYPE_STREAM_MIN <= id && id <= FRAME_TYPE_STREAM_MAX {
        let x = frame_stream(out, first);
        end_of(s, first, x, pos, Ghost(spec_frame_stream(first@).1))
    } else if id == 0x02 {
        let x = frame_ack(out, first, false, false);
        end_of(s, first, x, pos, Ghost(spec_frame_ack(first@, false, false).1))
    } else if id == 0x03 {
        let x = frame_ack(out, first, false, true);
        end_of(s, first, x, pos, Ghost(spec_frame_ack(first@, false, true).1))
    } else if id == 0x3e {
        let x = frame_ack(out, first, true, false);
        end_of(s, first, x, pos, Ghost(spec_frame_ack(first@, true, false).1))
    } else if id == 0x3f {
        let x = frame_ack(out, first, true, true);
        end_of(s, first, x, pos, Ghost(spec_frame_ack(first@, true, true).1))
    } else if id == 0x04 {
        let x = frame_reset(out, t, false);
        end_of(s, t, x, a, Ghost(spec_frame_reset(t@, false).1))
    } else if id == 0x24 {
        let x = frame_reset(out, t, true);
        end_of(s, t, x, a, Ghost(spec_frame_reset(t@, true).1))
    } else if id == 0x1c {
        let x = frame_connection_close(out, t, false, names);
        end_of(s, t, x, a, Ghost(spec_frame_connection_close(t@, false, names@).1))
    } else if id == 0x1d {
        let x = frame_connection_close(out, t, true, names);
        end_of(s, t, x, a, Ghost(spec_frame_connection_close(t@, true, names@).1))
    } else if id == 0x10 {
        let x = frame_one_param(out, t, "maximum");
        end_of(s, t, x, a, Ghost(spec_frame_one_param(t@, "maximum".spec_bytes()).1))
    } else if id == 0x11 {
        let x = frame_two_params(out, t, "stream_id", "maximum");
        end_of(s, t, x, a, Ghost(spec_frame_two_params(t@, "stream_id".spec_bytes(), "maximum".spec_bytes()).1))
    } else if id == 0x12 {
        let x = frame_max_streams(out, t, true, false);
        end_of(s, t, x, a, Ghost(spec_frame_max_streams(t@, true, false).1))
    } else if id == 0x13 {
        let x = frame_max_streams(out, t, false, false);
        end_of(s, t, x, a, Ghost(spec_frame_max_streams(t@, false, false).1))
    } else if id == 0x14 {
        let x = frame_one_param(out, t, "limit");
        end_of(s, t, x, a, Ghost(spec_frame_one_param(t@, "limit".spec_bytes()).1))
    } else if id == 0x15 {
        let x = frame_two_params(out, t, "stream_id", "limit");
        end_of(s, t, x, a, Ghost(spec_frame_two_params(t@, "stream_id".spec_bytes(), "limit".spec_bytes()).1))
    } else if id == 0x16 {
        let x = frame_max_streams(out, t, true, true);
        end_of(s, t, x, a, Ghost(spec_frame_max_streams(t@, true, true).1))
    } else if id == 0x17 {
        let x = frame_max_streams(out, t, false, true);
        end_of(s, t, x, a, Ghost(spec_frame_max_streams(t@, false, true).1))
    } else if id == 0x18 {
        let x = frame_new_connection_id(out, t, false);
        end_of(s, t, x, a, Ghost(spec_frame_new_connection_id(t@, false).1))
    } else if id == 0x3e78 {
        let x = frame_new_connection_id(out, t, true);
        end_of(s, t, x, a, Ghost(spec_frame_new_connection_id(t@, true).1))
    } else if id == 0x05 {
        let x = frame_two_params(out, t, "stream_id", "error_code");
        end_of(s, t, x, a, Ghost(spec_frame_two_params(t@, "stream_id".spec_bytes(), "error_code".spec_bytes()).1))
    } else if id == 0x1a {
        let x = frame_path_challenge_response(out, t, true);
        end_of(s, t, x, a, Ghost(spec_frame_path_challenge_response(t@, true).1))
    } else if id == 0x1b {
        let x = frame_path_challenge_response(out, t, false);
        end_of(s, t, x, a, Ghost(spec_frame_path_challenge_response(t@, false).1))
    } else if id == 0x06 {
        let x = frame_crypto_hs(out, t);
        end_of(s, t, x, a, Ghost(spec_frame_crypto_hs(t@).1))
    } else if id == 0x07 {
        let x = frame_new_token(out, t);
        end_of(s, t, x, a, Ghost(spec_frame_new_token(t@).1))
    } else if id == 0x19 {
        let x = frame_one_param(out, t, "sequence_number");
        end_of(s, t, x, a, Ghost(spec_frame_one_param(t@, "sequence_number".spec_bytes()).1))
    } else if id == 0x3e79 {
        let x = frame_two_params(out, t, "path_id", "sequence_number");
        end_of(s, t, x, a, Ghost(spec_frame_two_params(t@, "path_id".spec_bytes(), "sequence_number".spec_bytes()).1))
    } else if id == 0x30 {
        let x = frame_datagram(out, t, false);
        end_of(s, t, x, a, Ghost(spec_frame_datagram(t@, false).1))
    } else if id == 0x31 {
        let x = frame_datagram(out, t, true);
        end_of(s, t, x, a, Ghost(spec_frame_datagram(t@, true).1))
    } else if id == 0xaf {
        let x = frame_ack_frequency(out, t);
        end_of(s, t, x, a, Ghost(spec_frame_ack_frequency(t@).1))
    } else if id == 757 {
        let x = frame_one_param(out, t, "time_stamp");
        end_of(s, t, x, a, Ghost(spec_frame_one_param(t@, "time_stamp".spec_bytes()).1))
    } else if id == 0x3e75 {
        let x = frame_two_params(out, t, "path_id", "reason");
        end_of(s, t, x, a, Ghost(spec_frame_two_params(t@, "path_id".spec_bytes(), "reason".spec_bytes()).1))
    } else if id == 0x3e76 || id == 0x3e77 {
        let x = frame_two_params(out, t, "path_id", "sequence");
        end_of(s, t, x, a, Ghost(spec_frame_two_params(t@, "path_id".spec_bytes(), "sequence".spec_bytes()).1))
    } else if id == 0xebd9 {
        let x = frame_bdp(out, t);
        end_of(s, t, x, a, Ghost(spec_frame_bdp(t@).1))
    } else if id == 0x3e7a || id == 0x3e7b {
        let x = frame_one_param(out, t, "max_path_id");
        end_of(s, t, x, a, Ghost(spec_frame_one_param(t@, "max_path_id".spec_bytes()).1))
    } else if id == 0x3e7c {
        let x = frame_two_params(out, t, "path_id", "next_sequence_number");
        end_of(s, t, x, a, Ghost(spec_frame_two_params(t@, "path_id".spec_bytes(), "next_sequence_number".spec_bytes()).1))
    } else if id == 0x9f81a6 || id == 0x9f81a7 {
        let x = frame_observed_address(out, t, id);
        end_of(s, t, x, a, Ghost(spec_frame_observed_address(t@, id).1))
    } else {
        push_field(out, "unknown_frame_type", id);
        Some(a)
    }
}

/// The name of `id` in `names`, or "unknown".
pub open spec fn frame_name_text(names: Seq<FrameName>, id: u64) -> Seq<u8> {
    let k = frame_name_index(names, id, 0);
    if k == -1 {
        "unknown".spec_bytes()
    } else {
        names[k].name.spec_bytes()
    }
}

/// The text that opens the qlog of a frame of type `id`, after a comma
/// when it is not the first.
pub open spec fn frame_head(comma: bool, names: Seq<FrameName>, id: u64) -> Seq<u8> {
    (if comma {
        ", ".spec_bytes()
    } else {
        Seq::empty()
    }) + "{ \n    \"frame_type\": \"".spec_bytes() + frame_name_text(names, id) + "\"".spec_bytes()
}

pub proof fn lemma_zeros_end(s: Seq<u8>, p: int)
    requires
        0 <= p <= s.len(),
    ensures
        p <= zeros_end(s, p) <= s.len(),
    decreases s.len() - p,
{
    if p < s.len() && s[p] == 0 {
        lemma_zeros_end(s, p + 1);
    }
}

/// The qlog text of the frames of `s` from `pos` on, and the position
/// after the last one written in full.  Runs of padding are skipped
/// silently when `skip_padding`; the dump stops at a frame type that
/// cannot be read or at a frame that cannot be read (whose text is still
/// closed).  `comma` tells whether a frame was written before.
pub open spec fn spec_qlog_frames(s: Seq<u8>, pos: int, skip_padding: bool, names: Seq<FrameName>, comma: bool) -> (
    Seq<u8>,
    int,
)
    decreases s.len() - pos,
{
    if pos < 0 || pos >= s.len() {
        (Seq::empty(), pos)
    } else {
        match decode_at(s, pos) {
            None => (Seq::empty(), pos),
            Some((id, a)) => if a <= pos || a > s.len() {
                (Seq::empty(), pos)
            } else if id == 0 && skip_padding {
                proof {
                    lemma_zeros_end(s, a);
                }
                spec_qlog_frames(s, zeros_end(s, a), skip_padding, names, comma)
            } else {
                let b = frame_body(s, pos, id, a, names);
                let text = frame_head(comma, names, id) + b.0 + "}".spec_bytes();
                match b.1 {
                    Some(q) => if pos < q <= s.len() {
                        let r = spec_qlog_frames(s, q, skip_padding, names, true);
                        (text + r.0, r.1)
                    } else {
                        (text, pos)
                    },
                    None => (text, pos),
                }
            },
        }
    }
}

/// Write the qlog text of the frames in `bytes` (see `spec_qlog_frames`),
/// naming each frame type from `names`, and give the bytes after the last
/// frame written in full.
#[verifier::rlimit(60)]
pub fn qlog_frames<'a>(out: &mut Vec<u8>, bytes: &'a [u8], skip_padding: bool, names: &[FrameName]) -> (r: &'a [u8])
    ensures
        final(out)@ == old(out)@ + spec_qlog_frames(bytes@, 0, skip_padding, names@, false).0,
        0 <= spec_qlog_frames(bytes@, 0, skip_padding, names@, false).1 <= bytes@.len(),
        r@ == bytes@.subrange(spec_qlog_frames(bytes@, 0, skip_padding, names@, false).1, bytes@.len() as int),
{
    let ghost total = spec_qlog_frames(bytes@, 0, skip_padding, names@, false);
    let ghost start = out@;
    let ghost mut done: Seq<u8> = Seq::empty();
    let mut pos: usize = 0;
    let mut comma = false;
    loop
        invariant_except_break
            out@ == start + done,
            total.0 == done + spec_qlog_frames(bytes@, pos as int, skip_padding, names@, comma).0,
            total.1 == spec_qlog_frames(bytes@, pos as int, skip_padding, names@, comma).1,
        invariant
            pos <= bytes@.len(),
            total == spec_qlog_frames(bytes@, 0, skip_padding, names@, false),
        ensures
            pos <= bytes@.len(),
            out@ == start + total.0,
            total.1 == pos,
        decreases bytes.len() - pos,
    {
        if pos >= bytes.len() {
            assert(done + Seq::<u8>::empty() =~= done);
            break;
        }
        let (id, a) = match decode_at_exec(bytes, pos) {
            None => {
                assert(done + Seq::<u8>::empty() =~= done);
                break;
            },
            Some(x) => x,
        };
        if id == 0 && skip_padding {
            pos = skip_zeros(bytes, a);
        } else {
            let ghost here = spec_qlog_frames(bytes@, pos as int, skip_padding, names@, comma);
            let ghost before = out@;
            if comma {
                push_text(out, ", ");
            }
            push_text(out, "{ \n    \"frame_type\": \"");
            match find_frame_name(names, id) {
                Some(k) => push_text(out, names[k].name),
                None => push_text(out, "unknown"),
            }
            push_text(out, "\"");
            let q = frame_body_exec(out, bytes, pos, id, a, names);
            push_text(out, "}");
            let ghost text = frame_head(comma, names@, id) + frame_body(bytes@, pos as int, id, a as int, names@).0
                + "}".spec_bytes();
            assert(out@ =~= before + text);
            proof {
                done = done + text;
            }
            match q {
                Some(q) => {
                    if q <= pos {
                        assert(out@ =~= start + total.0);
                        break;
                    }
                    assert(total.0 =~= done + spec_qlog_frames(bytes@, q as int, skip_padding, names@, true).0);
                    pos = q;
                    comma = true;
                },
                None => {
                    assert(out@ =~= start + total.0);
                    break;
                },
            }
        }
    }
    slice_subrange(bytes, pos, bytes.len())
}

} // verus!
