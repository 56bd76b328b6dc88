//! Fixed-capacity QUIC connection identifiers.

use vstd::prelude::*;
use crate::siphash::{siphash, spec_siphash};
use crate::types::CONNECTION_ID_MAX_SIZE;

verus! {

/// Fixed-capacity QUIC connection ID: a 20-byte buffer plus a length.
/// Bytes past the length are always zero, so two IDs are equal exactly
/// when their live bytes are equal.
#[derive(Debug, Copy, Clone, PartialEq, Eq, PartialOrd, Ord, Hash)]
pub struct ConnectionId {
    id: [u8; 20],
    id_len: u8,
}

impl View for ConnectionId {
    type V = Seq<u8>;

    /// The live bytes of the identifier.
    closed spec fn view(&self) -> Seq<u8> {
        self.id@.subrange(0, self.id_len as int)
    }
}

/// The first eight bytes of `s` (zero-padded) read as a big-endian number.
pub open spec fn spec_val64(s: Seq<u8>) -> u64 {
    let b = Seq::new(8, |i: int| if i < s.len() { s[i] } else { 0u8 });
    ((b[0] as u64) << 56u64) | ((b[1] as u64) << 48u64) | ((b[2] as u64) << 40u64) | ((
    b[3] as u64) << 32u64) | ((b[4] as u64) << 24u64) | ((b[5] as u64) << 16u64) | ((
    b[6] as u64) << 8u64) | (b[7] as u64)
}

impl ConnectionId {
    #[verifier::type_invariant]
    spec fn wf(self) -> bool {
        &&& self.id_len <= 20
        &&& forall|i: int| self.id_len <= i < 20 ==> self.id@[i] == 0
    }

    /// The zero-length identifier.
    pub fn empty() -> (r: ConnectionId)
        ensures
            r@ == Seq::<u8>::empty(),
    {
        let r = ConnectionId { id: [0u8; 20], id_len: 0 };
        assert(r@ =~= Seq::<u8>::empty());
        r
    }

    /// Construct a connection id by copying `bytes`.  Returns `None` when
    /// `bytes` is longer than the 20-byte capacity.
    pub fn clone_from_slice(bytes: &[u8]) -> (r: Option<ConnectionId>)
        ensures
            r is Some <==> bytes@.len() <= CONNECTION_ID_MAX_SIZE,
            r matches Some(c) ==> c@ == bytes@,
    {
        if bytes.len() > CONNECTION_ID_MAX_SIZE {
            return None;
        }
        let mut id: [u8; 20] = [0u8; 20];
        let mut i: usize = 0;
        while i < bytes.len()
            invariant
                bytes@.len() <= 20,
                i <= bytes@.len(),
                forall|j: int| 0 <= j < i ==> id@[j] == bytes@[j],
                forall|j: int| i <= j < 20 ==> id@[j] == 0,
            decreases bytes.len() - i,
        {
            id[i] = bytes[i];
            i = i + 1;
        }
        let r = ConnectionId { id, id_len: bytes.len() as u8 };
        assert(r@ =~= bytes@);
        Some(r)
    }

    /// A connection ID of `id_length` bytes (at most 20) taken from the
    /// random bytes the caller drew.
    pub fn from_random_bytes(id_length: u8, random: &[u8]) -> (r: ConnectionId)
        requires
            random@.len() >= (if id_length <= 20 { id_length as int } else { 20 }),
        ensures
            r@ == random@.subrange(0, if id_length <= 20 { id_length as int } else { 20 }),
    {
        let len: usize = if id_length <= 20 { id_length as usize } else { 20 };
        let mut id: [u8; 20] = [0u8; 20];
        let mut i: usize = 0;
        while i < len
            invariant
                len <= 20,
                len <= random@.len(),
                i <= len,
                forall|j: int| 0 <= j < i ==> id@[j] == random@[j],
                forall|j: int| i <= j < 20 ==> id@[j] == 0,
            decreases len - i,
        {
            id[i] = random[i];
            i = i + 1;
        }
        let r = ConnectionId { id, id_len: len as u8 };
        assert(r@ =~= random@.subrange(0, len as int));
        r
    }

    /// Construct a zero-filled connection id of length `len`.  Returns
    /// `None` when `len` exceeds the 20-byte capacity.
    pub fn with_size(len: usize) -> (r: Option<ConnectionId>)
        ensures
            r is Some <==> len <= CONNECTION_ID_MAX_SIZE,
            r matches Some(c) ==> c@ == Seq::new(len as nat, |i: int| 0u8),
    {
        if len > CONNECTION_ID_MAX_SIZE {
            return None;
        }
        let r = ConnectionId { id: [0u8; 20], id_len: len as u8 };
        assert(r@ =~= Seq::new(len as nat, |i: int| 0u8));
        Some(r)
    }

    /// Borrow the live id bytes.
    pub fn as_bytes(&self) -> (r: &[u8])
        ensures
            r@ == self@,
    {
        proof {
            use_type_invariant(self);
        }
        &self.id.as_slice()[0..self.id_len as usize]
    }

    /// Number of bytes in the id.
    pub fn len(&self) -> (r: usize)
        ensures
            r == self@.len(),
            r <= CONNECTION_ID_MAX_SIZE,
    {
        proof {
            use_type_invariant(self);
        }
        self.id_len as usize
    }

    /// `true` when the id has zero length.
    pub fn is_empty(&self) -> (r: bool)
        ensures
            r == (self@.len() == 0),
    {
        proof {
            use_type_invariant(self);
        }
        self.id_len == 0
    }

    /// Byte-wise comparison of the live bytes of two ids.
    pub fn same_as(&self, other: &ConnectionId) -> (r: bool)
        ensures
            r == (self@ == other@),
    {
        proof {
            use_type_invariant(self);
            use_type_invariant(other);
        }
        if self.id_len != other.id_len {
            proof {
                assert(self@.len() != other@.len());
            }
            return false;
        }
        let mut i: usize = 0;
        while i < self.id_len as usize
            invariant
                self.id_len == other.id_len,
                self.id_len <= 20,
                i <= self.id_len,
                forall|j: int| 0 <= j < i ==> self.id@[j] == other.id@[j],
            decreases self.id_len as usize - i,
        {
            if self.id[i] != other.id[i] {
                proof {
                    assert(self@[i as int] != other@[i as int]);
                }
                return false;
            }
            i = i + 1;
        }
        assert(self@ =~= other@);
        true
    }

    /// SipHash-2-4 of the live bytes under a 16-byte seed.
    pub fn hash_with_seed(&self, seed: &[u8; 16]) -> (r: u64)
        ensures
            r == spec_siphash(self@, seed@),
    {
        siphash(self.as_bytes(), seed)
    }

    /// Fold the first up-to-8 bytes of the id into a big-endian `u64`,
    /// zero-padded on the right.
    pub fn val64(&self) -> (r: u64)
        ensures
            r == spec_val64(self@),
    {
        let bytes = self.as_bytes();
        let len: usize = if bytes.len() < 8 { bytes.len() } else { 8 };
        let mut buf: [u8; 8] = [0u8; 8];
        let mut i: usize = 0;
        while i < len
            invariant
                len <= 8,
                len <= bytes@.len(),
                len == (if bytes@.len() < 8 { bytes@.len() } else { 8 }),
                i <= len,
                forall|j: int| 0 <= j < i ==> buf@[j] == bytes@[j],
                forall|j: int| i <= j < 8 ==> buf@[j] == 0,
            decreases len - i,
        {
            buf[i] = bytes[i];
            i = i + 1;
        }
        let ghost b = Seq::new(8, |k: int| if k < bytes@.len() { bytes@[k] } else { 0u8 });
        assert(buf@ =~= b);
        ((buf[0] as u64) << 56u64) | ((buf[1] as u64) << 48u64) | ((buf[2] as u64) << 40u64) | ((
        buf[3] as u64) << 32u64) | ((buf[4] as u64) << 24u64) | ((buf[5] as u64) << 16u64) | ((
        buf[6] as u64) << 8u64) | (buf[7] as u64)
    }
}

impl Default for ConnectionId {
    fn default() -> (r: ConnectionId)
        ensures
            r@ == Seq::<u8>::empty(),
    {
        ConnectionId::empty()
    }
}

} // verus!
