//! How a server screens the first Initial packet of a client before it
//! creates a connection for it: the checks made before decryption, and
//! the decision on the client's token after it.

use vstd::prelude::*;
use crate::header::PacketHeader;
use crate::quic::Quic;
use crate::types::{blocked_ports, check_addr_blocked, spec_port, Error, InternalError, SocketAddr};

verus! {

/// Smallest datagram that may carry the first Initial packet of a client.
pub const ENFORCED_INITIAL_MTU: usize = 1200;

/// Shortest destination ID that the first Initial packet of a client may
/// carry.
pub const ENFORCED_INITIAL_CID_LENGTH: usize = 8;

/// What became of the token that a client's Initial packet carried.
#[derive(Debug, Copy, Clone, PartialEq, Eq, Structural)]
pub enum TokenCheck {
    /// The packet carried no token.
    Absent,
    /// The token was verified.
    Valid,
    /// The token did not verify.
    Invalid,
}

impl Quic {
    /// The checks made on a client's first Initial packet of
    /// `packet_length` bytes with header `ph` before it is decrypted: the
    /// datagram must be at least `ENFORCED_INITIAL_MTU` bytes
    /// (`InitialTooShort`), the destination ID at least
    /// `ENFORCED_INITIAL_CID_LENGTH` bytes (`InitialCidTooShort`), and the
    /// server must take connections (`ServerBusy`: client-only, busy, or
    /// at its connection limit).
    pub fn screen_initial_shape(&self, packet_length: usize, ph: &PacketHeader) -> (r: Result<(), Error>)
        ensures
            r == (if packet_length < ENFORCED_INITIAL_MTU {
                Err(Error::Internal(InternalError::InitialTooShort))
            } else if ph.dest_connection_id@.len() < ENFORCED_INITIAL_CID_LENGTH {
                Err(Error::Internal(InternalError::InitialCidTooShort))
            } else if self.enforce_client_only || self.server_busy || self.current_number_connections
                >= self.tentative_max_number_connections {
                Err(Error::Internal(InternalError::ServerBusy))
            } else {
                Ok(())
            }),
    {
        if packet_length < ENFORCED_INITIAL_MTU {
            return Err(Error::Internal(InternalError::InitialTooShort));
        }
        if ph.dest_connection_id.len() < ENFORCED_INITIAL_CID_LENGTH {
            return Err(Error::Internal(InternalError::InitialCidTooShort));
        }
        if self.enforce_client_only || self.server_busy
            || self.current_number_connections >= self.tentative_max_number_connections {
            return Err(Error::Internal(InternalError::ServerBusy));
        }
        Ok(())
    }

    /// The decision on a decrypted first Initial packet from `addr_from`
    /// whose token came out as `token`: a token that did not verify is
    /// `InvalidToken`; without a token, a retry is needed
    /// (`RetryNeeded`) when tokens are always checked, when the half-open
    /// connections have reached their limit, or when the source port is
    /// blocked and port blocking is on.  A valid token is always accepted.
    pub fn screen_initial_token(&self, token: TokenCheck, addr_from: &SocketAddr) -> (r: Result<(), Error>)
        ensures
            token == TokenCheck::Invalid ==> r == Err::<(), Error>(Error::Internal(InternalError::InvalidToken)),
            token == TokenCheck::Valid ==> r is Ok,
            token == TokenCheck::Absent ==> ({
                let blocked = !self.is_port_blocking_disabled && blocked_ports().contains(spec_port(*addr_from));
                if self.force_check_token || self.max_half_open_before_retry <= self.current_number_half_open || blocked {
                    r == Err::<(), Error>(Error::Internal(InternalError::RetryNeeded))
                } else {
                    r is Ok
                }
            }),
    {
        let is_address_blocked = !self.is_port_blocking_disabled && check_addr_blocked(addr_from);
        match token {
            TokenCheck::Invalid => Err(Error::Internal(InternalError::InvalidToken)),
            TokenCheck::Valid => Ok(()),
            TokenCheck::Absent => {
                if self.force_check_token || self.max_half_open_before_retry <= self.current_number_half_open
                    || is_address_blocked {
                    Err(Error::Internal(InternalError::RetryNeeded))
                } else {
                    Ok(())
                }
            },
        }
    }
}

} // verus!
