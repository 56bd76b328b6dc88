//! Socket-level values the stack reasons about: ECN code points carried
//! in the IP header and the operating-system errors that mean a
//! destination cannot be reached.

use vstd::prelude::*;

verus! {

/// ECN code point of the two low bits of the IP TOS / IPv6 traffic class.
#[derive(Debug, Copy, Clone, PartialEq, Eq, Structural)]
pub enum EcnCodepoint {
    NotEct,
    Ect1,
    Ect0,
    Ce,
}

/// The two-bit value of a code point.
pub open spec fn spec_ecn_bits(c: EcnCodepoint) -> u8 {
    match c {
        EcnCodepoint::NotEct => 0,
        EcnCodepoint::Ect1 => 1,
        EcnCodepoint::Ect0 => 2,
        EcnCodepoint::Ce => 3,
    }
}

/// The code point of a TOS / traffic-class byte (its two low bits).
pub open spec fn spec_ecn_from_byte(value: u8) -> EcnCodepoint {
    let b = value % 4;
    if b == 1 {
        EcnCodepoint::Ect1
    } else if b == 2 {
        EcnCodepoint::Ect0
    } else if b == 3 {
        EcnCodepoint::Ce
    } else {
        EcnCodepoint::NotEct
    }
}

impl Default for EcnCodepoint {
    fn default() -> (r: EcnCodepoint)
        ensures
            r == EcnCodepoint::NotEct,
    {
        EcnCodepoint::NotEct
    }
}

impl EcnCodepoint {
    /// The two-bit value of the code point.
    pub fn bits(self) -> (r: u8)
        ensures
            r == spec_ecn_bits(self),
    {
        match self {
            EcnCodepoint::NotEct => 0,
            EcnCodepoint::Ect1 => 1,
            EcnCodepoint::Ect0 => 2,
            EcnCodepoint::Ce => 3,
        }
    }
}

/// The code point of a received TOS / traffic-class byte.
pub fn ecn_codepoint_from_byte(value: u8) -> (r: EcnCodepoint)
    ensures
        r == spec_ecn_from_byte(value),
{
    let b = value & 0x03;
    assert(b == value % 4) by (bit_vector)
        requires
            b == value & 0x03,
    ;
    if b == 1 {
        EcnCodepoint::Ect1
    } else if b == 2 {
        EcnCodepoint::Ect0
    } else if b == 3 {
        EcnCodepoint::Ce
    } else {
        EcnCodepoint::NotEct
    }
}

/// Reading back the bits of a code point gives the code point, and the
/// code point of a byte keeps exactly its two low bits.
pub proof fn law_ecn_roundtrip(c: EcnCodepoint, value: u8)
    ensures
        spec_ecn_from_byte(spec_ecn_bits(c)) == c,
        spec_ecn_bits(spec_ecn_from_byte(value)) == value % 4,
{
}

/// An operating-system error code returned by a socket call.
#[derive(Debug, Copy, Clone, PartialEq, Eq, Structural)]
pub struct OsError(pub i32);

/// The `errno` values of `libc` that mean the destination cannot be
/// reached: `EAFNOSUPPORT`, `ECONNRESET`, `EHOSTUNREACH`, `ENETDOWN`,
/// `ENETUNREACH`.  Their numbers are the platform's and differ between
/// platforms; stated is only what holds on every platform `libc`
/// defines them for: none of them is 0 (success) or -1 (the generic
/// failure).
#[verifier::external_body]
fn unreachable_errnos() -> (r: [i32; 5])
    ensures
        forall|i: int| 0 <= i < 5 ==> #[trigger] r@[i] != 0 && r@[i] != -1,
{
    [libc::EAFNOSUPPORT, libc::ECONNRESET, libc::EHOSTUNREACH, libc::ENETDOWN, libc::ENETUNREACH]
}

impl OsError {
    /// Whether the code is one of `errors` or the generic failure -1.
    pub fn is_unreachable_among(self, errors: &[i32]) -> (r: bool)
        ensures
            r == (self.0 == -1 || errors@.contains(self.0)),
    {
        if self.0 == -1 {
            return true;
        }
        let mut k: usize = 0;
        while k < errors.len()
            invariant
                k <= errors@.len(),
                forall|j: int| 0 <= j < k ==> errors@[j] != self.0,
            decreases errors.len() - k,
        {
            if errors[k] == self.0 {
                assert(errors@[k as int] == self.0);
                return true;
            }
            k = k + 1;
        }
        false
    }

    /// Whether the error implies that the destination is unreachable, so
    /// that the path should be abandoned: the generic failure -1 or one of
    /// the platform's unreachability `errno` values.
    pub fn is_unreachable(self) -> (r: bool)
        ensures
            exists|errors: Seq<i32>|
                #![trigger errors.len()]
                errors.len() == 5 && (forall|i: int| 0 <= i < 5 ==> #[trigger] errors[i] != 0 && errors[i] != -1) && r == (
                self.0 == -1 || errors.contains(self.0)),
            self.0 == -1 ==> r,
            self.0 == 0 ==> !r,
    {
        let errors = unreachable_errnos();
        let list = errors.as_slice();
        let r = self.is_unreachable_among(list);
        proof {
            let e = list@;
            assert(e == errors@);
            if self.0 == 0 {
                assert(!e.contains(0)) by {
                    if e.contains(0) {
                        let k = choose|k: int| 0 <= k < e.len() && e[k] == 0;
                        assert(e[k] != 0);
                    }
                }
            }
            assert(e.len() == 5);
        }
        r
    }
}

} // verus!
