//! SipHash-2-4 with a 64-bit digest.

use vstd::prelude::*;

verus! {

/// The four-word SipHash state.
pub type SipState = (u64, u64, u64, u64);

/// Left rotation of a 64-bit word by `n` bits (0 < n < 64).
pub open spec fn rotl(x: u64, n: u64) -> u64 {
    (x << n) | (x >> (64 - n) as u64)
}

/// One SipRound.
pub open spec fn sip_round(s: SipState) -> SipState {
    let v0 = s.0.wrapping_add(s.1);
    let v1 = rotl(s.1, 13) ^ v0;
    let v0 = rotl(v0, 32);
    let v2 = s.2.wrapping_add(s.3);
    let v3 = rotl(s.3, 16) ^ v2;
    let v0 = v0.wrapping_add(v3);
    let v3 = rotl(v3, 21) ^ v0;
    let v2 = v2.wrapping_add(v1);
    let v1 = rotl(v1, 17) ^ v2;
    let v2 = rotl(v2, 32);
    (v0, v1, v2, v3)
}

/// Absorb one 64-bit message word with two SipRounds.
pub open spec fn sip_compress(s: SipState, m: u64) -> SipState {
    let t = sip_round(sip_round((s.0, s.1, s.2, s.3 ^ m)));
    (t.0 ^ m, t.1, t.2, t.3)
}

/// Little-endian 64-bit word made of `s[off..off + 8]`.
pub open spec fn le_word(s: Seq<u8>, off: int) -> u64 {
    (s[off] as u64) | ((s[off + 1] as u64) << 8u64) | ((s[off + 2] as u64) << 16u64) | ((
    s[off + 3] as u64) << 24u64) | ((s[off + 4] as u64) << 32u64) | ((s[off + 5] as u64)
        << 40u64) | ((s[off + 6] as u64) << 48u64) | ((s[off + 7] as u64) << 56u64)
}

/// State after absorbing the first `n` full 8-byte blocks of `s`.
pub open spec fn sip_absorb(v: SipState, s: Seq<u8>, n: nat) -> SipState
    decreases n,
{
    if n == 0 {
        v
    } else {
        sip_compress(sip_absorb(v, s, (n - 1) as nat), le_word(s, 8 * (n - 1)))
    }
}

/// Or of the first `k` bytes of `s` starting at `base`, byte `i` shifted
/// left by `8 * i`.
pub open spec fn tail_bits(s: Seq<u8>, base: int, k: nat) -> u64
    decreases k,
{
    if k == 0 {
        0
    } else {
        tail_bits(s, base, (k - 1) as nat) | ((s[base + k - 1] as u64) << (8 * (k - 1)) as u64)
    }
}

/// The final message word: input length in the top byte, tail bytes below.
pub open spec fn sip_last_word(s: Seq<u8>) -> u64 {
    ((s.len() as u64) << 56u64) | tail_bits(s, 8 * (s.len() / 8) as int, s.len() % 8)
}

/// Initial state keyed by the two little-endian key words.
pub open spec fn sip_init(key: Seq<u8>) -> SipState {
    let k0 = le_word(key, 0);
    let k1 = le_word(key, 8);
    (0x736f6d6570736575u64 ^ k0, 0x646f72616e646f6du64 ^ k1, 0x6c7967656e657261u64 ^ k0,
    0x7465646279746573u64 ^ k1)
}

/// SipHash-2-4 of `input` under the 16-byte `key`.
pub open spec fn spec_siphash(input: Seq<u8>, key: Seq<u8>) -> u64 {
    let a = sip_absorb(sip_init(key), input, input.len() / 8);
    let b = sip_last_word(input);
    let c = sip_compress(a, b);
    let d = sip_round(sip_round(sip_round(sip_round((c.0, c.1, c.2 ^ 0xffu64, c.3)))));
    d.0 ^ d.1 ^ d.2 ^ d.3
}

fn rotl_exec(x: u64, n: u64) -> (r: u64)
    requires
        0 < n < 64,
    ensures
        r == rotl(x, n),
{
    (x << n) | (x >> (64 - n))
}

fn round_exec(s: SipState) -> (r: SipState)
    ensures
        r == sip_round(s),
{
    let v0 = s.0.wrapping_add(s.1);
    let v1 = rotl_exec(s.1, 13) ^ v0;
    let v0 = rotl_exec(v0, 32);
    let v2 = s.2.wrapping_add(s.3);
    let v3 = rotl_exec(s.3, 16) ^ v2;
    let v0 = v0.wrapping_add(v3);
    let v3 = rotl_exec(v3, 21) ^ v0;
    let v2 = v2.wrapping_add(v1);
    let v1 = rotl_exec(v1, 17) ^ v2;
    let v2 = rotl_exec(v2, 32);
    (v0, v1, v2, v3)
}

fn compress_exec(s: SipState, m: u64) -> (r: SipState)
    ensures
        r == sip_compress(s, m),
{
    let t = round_exec(round_exec((s.0, s.1, s.2, s.3 ^ m)));
    (t.0 ^ m, t.1, t.2, t.3)
}

fn le_word_exec(s: &[u8], off: usize) -> (r: u64)
    requires
        off + 8 <= s@.len(),
    ensures
        r == le_word(s@, off as int),
{
    (s[off] as u64) | ((s[off + 1] as u64) << 8u64) | ((s[off + 2] as u64) << 16u64) | ((s[off
        + 3] as u64) << 24u64) | ((s[off + 4] as u64) << 32u64) | ((s[off + 5] as u64) << 40u64)
        | ((s[off + 6] as u64) << 48u64) | ((s[off + 7] as u64) << 56u64)
}

/// Compute the 64-bit SipHash-2-4 digest of `input` under `key`.
pub fn siphash(input: &[u8], key: &[u8; 16]) -> (r: u64)
    ensures
        r == spec_siphash(input@, key@),
{
    let k0 = le_word_exec(key.as_slice(), 0);
    let k1 = le_word_exec(key.as_slice(), 8);
    let mut v: SipState = (0x736f6d6570736575u64 ^ k0, 0x646f72616e646f6du64 ^ k1,
    0x6c7967656e657261u64 ^ k0, 0x7465646279746573u64 ^ k1);
    let nblocks: usize = input.len() / 8;
    let mut i: usize = 0;
    while i < nblocks
        invariant
            nblocks == input@.len() / 8,
            i <= nblocks,
            v == sip_absorb(sip_init(key@), input@, i as nat),
        decreases nblocks - i,
    {
        assert(8 * i + 8 <= 8 * nblocks) by (nonlinear_arith)
            requires
                i < nblocks,
        ;
        assert(8 * nblocks <= input@.len()) by (nonlinear_arith)
            requires
                nblocks == input@.len() / 8,
        ;
        assert(input@.len() == input.len());
        let m = le_word_exec(input, 8 * i);
        v = compress_exec(v, m);
        i = i + 1;
    }
    assert(8 * nblocks <= input@.len()) by (nonlinear_arith)
        requires
            nblocks == input@.len() / 8,
    ;
    let base: usize = 8 * nblocks;
    let rem: usize = input.len() - base;
    let mut b: u64 = (input.len() as u64) << 56u64;
    let mut t: u64 = 0;
    let mut k: usize = 0;
    while k < rem
        invariant
            base == 8 * nblocks,
            nblocks == input@.len() / 8,
            rem == input@.len() - base,
            rem < 8,
            k <= rem,
            t == tail_bits(input@, base as int, k as nat),
        decreases rem - k,
    {
        t = t | ((input[base + k] as u64) << ((8 * k) as u64));
        k = k + 1;
    }
    b = b | t;
    assert(rem == input@.len() % 8);
    let c = compress_exec(v, b);
    let d = round_exec(round_exec(round_exec(round_exec((c.0, c.1, c.2 ^ 0xffu64, c.3)))));
    d.0 ^ d.1 ^ d.2 ^ d.3
}


/// Each byte of a message word is the message byte at its place: byte `t`
/// (the bits from `8 * t` up) of the word at `off` is `s[off + t]`.
pub proof fn law_le_word_bytes(s: Seq<u8>, off: int)
    requires
        0 <= off,
        off + 8 <= s.len(),
    ensures
        forall|t: int| 0 <= t < 8 ==> #[trigger] ((le_word(s, off) >> ((8 * t) as u64)) & 0xff) == s[off + t] as u64,
{
    let b0 = s[off];
    let b1 = s[off + 1];
    let b2 = s[off + 2];
    let b3 = s[off + 3];
    let b4 = s[off + 4];
    let b5 = s[off + 5];
    let b6 = s[off + 6];
    let b7 = s[off + 7];
    let w = le_word(s, off);
    assert({
        &&& (w >> 0u64) & 0xff == b0 as u64
        &&& (w >> 8u64) & 0xff == b1 as u64
        &&& (w >> 16u64) & 0xff == b2 as u64
        &&& (w >> 24u64) & 0xff == b3 as u64
        &&& (w >> 32u64) & 0xff == b4 as u64
        &&& (w >> 40u64) & 0xff == b5 as u64
        &&& (w >> 48u64) & 0xff == b6 as u64
        &&& (w >> 56u64) & 0xff == b7 as u64
    }) by (bit_vector)
        requires
            w == (b0 as u64) | ((b1 as u64) << 8u64) | ((b2 as u64) << 16u64) | ((b3 as u64) << 24u64) | ((
            b4 as u64) << 32u64) | ((b5 as u64) << 40u64) | ((b6 as u64) << 48u64) | ((b7 as u64) << 56u64),
    ;
    assert forall|t: int| 0 <= t < 8 implies #[trigger] ((le_word(s, off) >> ((8 * t) as u64)) & 0xff) == s[off
        + t] as u64 by {
        if t == 0 {
            assert(((8 * t) as u64) == 0u64);
        } else if t == 1 {
            assert(((8 * t) as u64) == 8u64);
        } else if t == 2 {
            assert(((8 * t) as u64) == 16u64);
        } else if t == 3 {
            assert(((8 * t) as u64) == 24u64);
        } else if t == 4 {
            assert(((8 * t) as u64) == 32u64);
        } else if t == 5 {
            assert(((8 * t) as u64) == 40u64);
        } else if t == 6 {
            assert(((8 * t) as u64) == 48u64);
        } else {
            assert(((8 * t) as u64) == 56u64);
        }
    }
}

/// The first block of a message is absorbed as its own little-endian word,
/// with nothing mixed in.
pub proof fn law_first_block_is_its_word(v: SipState, s: Seq<u8>)
    ensures
        sip_absorb(v, s, 1) == sip_compress(v, le_word(s, 0)),
{
    assert(sip_absorb(v, s, 0) == v);
}

/// Absorbing blocks only reads those blocks: a message that continues
/// after its first `k` blocks gives the same state after them.
pub proof fn law_absorb_reads_only_its_blocks(v: SipState, a: Seq<u8>, b: Seq<u8>, k: nat)
    requires
        8 * k <= a.len(),
    ensures
        sip_absorb(v, a + b, k) == sip_absorb(v, a, k),
    decreases k,
{
    if k > 0 {
        law_absorb_reads_only_its_blocks(v, a, b, (k - 1) as nat);
        let off = 8 * (k - 1);
        assert(le_word(a + b, off) == le_word(a, off));
    }
}

/// Absorption goes block by block: absorbing a message made of `a` (whole
/// blocks, `k` of them) and then `b` is absorbing `a`, then from that
/// state the blocks of `b`, as if `b` were a message of its own.  Block
/// positions play no part in how a block is absorbed.
pub proof fn law_absorb_concat(v: SipState, a: Seq<u8>, b: Seq<u8>, k: nat, m: nat)
    requires
        a.len() == 8 * k,
        8 * m <= b.len(),
    ensures
        sip_absorb(v, a + b, k + m) == sip_absorb(sip_absorb(v, a, k), b, m),
    decreases m,
{
    if m == 0 {
        law_absorb_reads_only_its_blocks(v, a, b, k);
    } else {
        law_absorb_concat(v, a, b, k, (m - 1) as nat);
        let off = 8 * (m - 1);
        assert(8 * (k + m - 1) == a.len() + off);
        assert(le_word(a + b, a.len() + off) == le_word(b, off));
        assert(((k + m) - 1) as nat == k + (m - 1) as nat);
    }
}


proof fn lemma_or_byte(x: u64, b: u8, j: u64)
    requires
        j < 7,
        x >> (8 * j) == 0,
    ensures
        (x | ((b as u64) << (8 * j))) >> (8 * (j + 1)) == 0,
        forall|t: u64|
            t < 8 ==> #[trigger] (((x | ((b as u64) << (8 * j))) >> (8 * t)) & 0xff) == if t == j {
                b as u64
            } else {
                (x >> (8 * t)) & 0xff
            },
{
    assert((x | ((b as u64) << (8 * j))) >> (8 * (j + 1)) == 0) by (bit_vector)
        requires
            j < 7,
            x >> (8 * j) == 0,
    ;
    assert forall|t: u64| t < 8 implies #[trigger] (((x | ((b as u64) << (8 * j))) >> (8 * t)) & 0xff) == if t == j {
        b as u64
    } else {
        (x >> (8 * t)) & 0xff
    } by {
        assert((((x | ((b as u64) << (8 * j))) >> (8 * t)) & 0xff) == if t == j {
            b as u64
        } else {
            (x >> (8 * t)) & 0xff
        }) by (bit_vector)
            requires
                j < 7,
                t < 8,
                x >> (8 * j) == 0,
        ;
    }
}

proof fn lemma_tail_bits(s: Seq<u8>, base: int, k: nat)
    requires
        k <= 7,
    ensures
        tail_bits(s, base, k) >> (8 * k) as u64 == 0,
        forall|t: u64|
            t < 8 ==> #[trigger] ((tail_bits(s, base, k) >> (8 * t)) & 0xff) == if t < k {
                s[base + t] as u64
            } else {
                0
            },
    decreases k,
{
    if k == 0 {
        assert(forall|t: u64| t < 8 ==> #[trigger] ((0u64 >> (8 * t)) & 0xff) == 0) by (bit_vector);
        assert(0u64 >> 0u64 == 0) by (bit_vector);
    } else {
        let j: u64 = (k - 1) as u64;
        lemma_tail_bits(s, base, (k - 1) as nat);
        let x = tail_bits(s, base, (k - 1) as nat);
        assert((8 * (k - 1)) as u64 == 8 * j);
        lemma_or_byte(x, s[base + k - 1], j);
        assert((8 * k) as u64 == 8 * (j + 1));
    }
}

/// The final message word holds the message length (mod 256) in its top
/// byte, the bytes after the last full block in order in the bytes below,
/// and zeros between.
pub proof fn law_last_word_layout(s: Seq<u8>)
    requires
        s.len() <= u64::MAX,
    ensures
        sip_last_word(s) >> 56u64 == (s.len() % 256) as u64,
        forall|t: u64|
            t < 7 ==> #[trigger] ((sip_last_word(s) >> (8 * t)) & 0xff) == if t < s.len() % 8 {
                s[8 * (s.len() / 8) + t] as u64
            } else {
                0
            },
{
    let k = s.len() % 8;
    let base = 8 * (s.len() / 8) as int;
    lemma_tail_bits(s, base, k);
    let x = tail_bits(s, base, k);
    let l = s.len() as u64;
    let m: u64 = k as u64;
    assert((8 * k) as u64 == 8 * m);
    assert(x >> 56u64 == 0) by (bit_vector)
        requires
            m <= 7,
            x >> (8 * m) == 0,
    ;
    assert(((l << 56u64) | x) >> 56u64 == l % 256) by (bit_vector)
        requires
            x >> 56u64 == 0,
    ;
    assert forall|t: u64| t < 7 implies #[trigger] ((sip_last_word(s) >> (8 * t)) & 0xff) == if t < s.len() % 8 {
        s[8 * (s.len() / 8) + t] as u64
    } else {
        0
    } by {
        assert((((l << 56u64) | x) >> (8 * t)) & 0xff == (x >> (8 * t)) & 0xff) by (bit_vector)
            requires
                t < 7,
        ;
        assert(((x >> (8 * t)) & 0xff) == if t < k { s[base + t] as u64 } else { 0 });
    }
}

} // verus!
