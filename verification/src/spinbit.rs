//! Spin-bit policies: what a received spin bit does to a path, and which
//! spin bit (bit 5 of the short-header first byte) outgoing packets carry.

use vstd::prelude::*;
use crate::connection::Connection;
use crate::header::PacketHeader;
use crate::path::Path;
use crate::random::{public_random_64, spec_random_64, PublicRandomState};

verus! {

/// Position of the spin bit in the first byte of a short header.
pub const SPIN_BIT_MASK: u8 = 0x20;

/// The spin bit a connection sends under the basic policy: that of its
/// primary path, in bit 5.
pub open spec fn spec_basic_outgoing(c: Connection) -> u8 {
    if c.paths@.len() > 0 && c.paths@[0].current_spin { SPIN_BIT_MASK } else { 0 }
}

/// Basic policy: the server reflects the received spin bit, the client
/// inverts it; outgoing packets carry the primary path's current value.
#[derive(Debug, Copy, Clone)]
pub struct BasicSpinBit;

/// Null policy: spin bits are ignored and always sent as zero.
#[derive(Debug, Copy, Clone)]
pub struct NullSpinBit;

/// Random policy: spin bits are ignored and sent at random.
#[derive(Debug, Copy, Clone)]
pub struct RandomSpinBit;

impl BasicSpinBit {
    /// Record the spin bit of a received packet on `path_x`.
    pub fn incoming(&self, connection: &Connection, path_x: &mut Path, ph: &PacketHeader)
        ensures
            *final(path_x) == (Path { current_spin: ph.spin != connection.client_mode, ..*old(path_x) }),
    {
        path_x.current_spin = ph.spin ^ connection.client_mode;
    }

    /// The spin bit to send, in bit 5.
    pub fn outgoing(&self, connection: &Connection) -> (r: u8)
        ensures
            r == spec_basic_outgoing(*connection),
    {
        let spin = if connection.paths.len() > 0 { connection.paths[0].current_spin } else { false };
        if spin { SPIN_BIT_MASK } else { 0 }
    }
}

impl NullSpinBit {
    /// Received spin bits are ignored.
    pub fn incoming(&self, connection: &Connection, path_x: &mut Path, ph: &PacketHeader)
        ensures
            *final(path_x) == *old(path_x),
    {
    }

    /// Always zero.
    pub fn outgoing(&self, connection: &Connection) -> (r: u8)
        ensures
            r == 0,
    {
        0
    }
}

impl RandomSpinBit {
    /// Received spin bits are ignored.
    pub fn incoming(&self, connection: &Connection, path_x: &mut Path, ph: &PacketHeader)
        ensures
            *final(path_x) == *old(path_x),
    {
    }

    /// Bit 5 of the next value of the public random stream.
    pub fn outgoing(&self, connection: &Connection, random: &mut PublicRandomState) -> (r: u8)
        ensures
            final(random)@ == spec_random_64(old(random)@).0,
            r == (spec_random_64(old(random)@).1 as u8) & SPIN_BIT_MASK,
    {
        let x = public_random_64(random);
        (x as u8) & SPIN_BIT_MASK
    }
}

/// A random outgoing spin bit, in bit 5.
pub fn picoquic_spinbit_random_outgoing(connection: &Connection, random: &mut PublicRandomState) -> (r: u8)
    ensures
        final(random)@ == spec_random_64(old(random)@).0,
        r == (spec_random_64(old(random)@).1 as u8) & SPIN_BIT_MASK,
{
    RandomSpinBit.outgoing(connection, random)
}

/// Whatever the policy, an outgoing spin byte has no bit set but bit 5.
pub proof fn law_spin_byte_is_bit_five(c: Connection, x: u64)
    ensures
        spec_basic_outgoing(c) & !SPIN_BIT_MASK == 0,
        ((x as u8) & SPIN_BIT_MASK) & !SPIN_BIT_MASK == 0,
{
    let b = spec_basic_outgoing(c);
    assert(b == 0 || b == 0x20u8);
    assert((b == 0u8 || b == 0x20u8) ==> b & !0x20u8 == 0) by (bit_vector);
    let y = x as u8;
    assert((y & 0x20u8) & !0x20u8 == 0) by (bit_vector);
}

/// Under the basic policy a connection sends back, on its primary path,
/// the spin bit it last received there (inverted on the client side):
/// once `incoming` has recorded `spin` on the primary path, `outgoing`
/// yields it in bit 5.
pub proof fn law_basic_spin_echo(c: Connection, spin: bool)
    requires
        c.paths@.len() > 0,
        c.paths@[0].current_spin == (spin != c.client_mode),
    ensures
        spec_basic_outgoing(c) == (if spin != c.client_mode { SPIN_BIT_MASK } else { 0u8 }),
{
}

} // verus!
