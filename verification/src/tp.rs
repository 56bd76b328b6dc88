//! QUIC transport parameters.

use vstd::prelude::*;
use crate::types::{Duration, Error};

verus! {

/// The transport parameters a peer advertises.
#[derive(Debug, Copy, Clone, PartialEq, Eq, Structural)]
pub struct TransportParameters {
    pub max_idle_timeout: Duration,
    pub max_packet_size: u32,
    pub initial_max_data: u64,
    pub initial_max_stream_data_bidi_local: u64,
    pub initial_max_stream_data_bidi_remote: u64,
    pub initial_max_stream_data_uni: u64,
    pub initial_max_stream_id_bidir: u64,
    pub initial_max_stream_id_unidir: u64,
    pub ack_delay_exponent: u8,
    pub max_ack_delay: u32,
    pub migration_disabled: bool,
    pub active_connection_id_limit: u32,
    pub max_datagram_frame_size: u32,
    pub enable_loss_bit: i32,
    pub min_ack_delay: Duration,
    pub enable_time_stamp: i32,
    pub do_grease_quic_bit: bool,
    pub enable_bdp_frame: bool,
    pub initial_max_path_id: u64,
    pub address_discovery_mode: i32,
    pub is_reset_stream_at_enabled: bool,
}

/// All-zero transport parameters.
pub open spec fn spec_tp_zero() -> TransportParameters {
    TransportParameters {
        max_idle_timeout: 0,
        max_packet_size: 0,
        initial_max_data: 0,
        initial_max_stream_data_bidi_local: 0,
        initial_max_stream_data_bidi_remote: 0,
        initial_max_stream_data_uni: 0,
        initial_max_stream_id_bidir: 0,
        initial_max_stream_id_unidir: 0,
        ack_delay_exponent: 0,
        max_ack_delay: 0,
        migration_disabled: false,
        active_connection_id_limit: 0,
        max_datagram_frame_size: 0,
        enable_loss_bit: 0,
        min_ack_delay: 0,
        enable_time_stamp: 0,
        do_grease_quic_bit: false,
        enable_bdp_frame: false,
        initial_max_path_id: 0,
        address_discovery_mode: 0,
        is_reset_stream_at_enabled: false,
    }
}

impl Default for TransportParameters {
    fn default() -> (r: TransportParameters)
        ensures
            r == spec_tp_zero(),
    {
        TransportParameters {
            max_idle_timeout: 0,
            max_packet_size: 0,
            initial_max_data: 0,
            initial_max_stream_data_bidi_local: 0,
            initial_max_stream_data_bidi_remote: 0,
            initial_max_stream_data_uni: 0,
            initial_max_stream_id_bidir: 0,
            initial_max_stream_id_unidir: 0,
            ack_delay_exponent: 0,
            max_ack_delay: 0,
            migration_disabled: false,
            active_connection_id_limit: 0,
            max_datagram_frame_size: 0,
            enable_loss_bit: 0,
            min_ack_delay: 0,
            enable_time_stamp: 0,
            do_grease_quic_bit: false,
            enable_bdp_frame: false,
            initial_max_path_id: 0,
            address_discovery_mode: 0,
            is_reset_stream_at_enabled: false,
        }
    }
}

/// The wire identifiers that `set_tp_value_by_type` knows.
pub open spec fn tp_type_known(t: u64) -> bool {
    t == 1 || t == 3 || t == 4 || t == 5 || t == 6 || t == 7 || t == 8 || t == 9 || t == 10
        || t == 11 || t == 12 || t == 14 || t == 32 || t == 0x1057 || t == 0xff04de1b
        || t == 0x7158 || t == 0x2ab2 || t == 0xebd9 || t == 0x3e || t == 0x9f81a176
        || t == 0x17f7586d2cb571
}

/// Transport parameters after writing `v` into the slot with wire id `t`
/// (narrower slots keep the low bits of `v`).
pub open spec fn spec_tp_set(tp: TransportParameters, t: u64, v: u64) -> TransportParameters {
    if t == 1 {
        TransportParameters { max_idle_timeout: v, ..tp }
    } else if t == 3 {
        TransportParameters { max_packet_size: v as u32, ..tp }
    } else if t == 4 {
        TransportParameters { initial_max_data: v, ..tp }
    } else if t == 5 {
        TransportParameters { initial_max_stream_data_bidi_local: v, ..tp }
    } else if t == 6 {
        TransportParameters { initial_max_stream_data_bidi_remote: v, ..tp }
    } else if t == 7 {
        TransportParameters { initial_max_stream_data_uni: v, ..tp }
    } else if t == 8 {
        TransportParameters { initial_max_stream_id_bidir: v, ..tp }
    } else if t == 9 {
        TransportParameters { initial_max_stream_id_unidir: v, ..tp }
    } else if t == 10 {
        TransportParameters { ack_delay_exponent: v as u8, ..tp }
    } else if t == 11 {
        TransportParameters { max_ack_delay: v as u32, ..tp }
    } else if t == 12 {
        TransportParameters { migration_disabled: v != 0, ..tp }
    } else if t == 14 {
        TransportParameters { active_connection_id_limit: v as u32, ..tp }
    } else if t == 32 {
        TransportParameters { max_datagram_frame_size: v as u32, ..tp }
    } else if t == 0x1057 {
        TransportParameters { enable_loss_bit: if v != 0 { 1 } else { 0 }, ..tp }
    } else if t == 0xff04de1b {
        TransportParameters { min_ack_delay: v, ..tp }
    } else if t == 0x7158 {
        TransportParameters { enable_time_stamp: v as i32, ..tp }
    } else if t == 0x2ab2 {
        TransportParameters { do_grease_quic_bit: v != 0, ..tp }
    } else if t == 0xebd9 {
        TransportParameters { enable_bdp_frame: v != 0, ..tp }
    } else if t == 0x3e {
        TransportParameters { initial_max_path_id: v, ..tp }
    } else if t == 0x9f81a176 {
        TransportParameters { address_discovery_mode: v as i32, ..tp }
    } else if t == 0x17f7586d2cb571 {
        TransportParameters { is_reset_stream_at_enabled: v != 0, ..tp }
    } else {
        tp
    }
}

/// Write one transport-parameter slot identified by its wire id.  Unknown
/// ids are rejected with `InvalidArgument` and leave `tp` unchanged.
pub fn set_tp_value_by_type(tp: &mut TransportParameters, tp_type: u64, tp_value: u64) -> (r: Result<(), Error>)
    ensures
        r is Ok <==> tp_type_known(tp_type),
        r is Err ==> r == Err::<(), Error>(Error::InvalidArgument),
        *final(tp) == spec_tp_set(*old(tp), tp_type, tp_value),
{
    match tp_type {
        1 => tp.max_idle_timeout = tp_value,
        3 => tp.max_packet_size = tp_value as u32,
        4 => tp.initial_max_data = tp_value,
        5 => tp.initial_max_stream_data_bidi_local = tp_value,
        6 => tp.initial_max_stream_data_bidi_remote = tp_value,
        7 => tp.initial_max_stream_data_uni = tp_value,
        8 => tp.initial_max_stream_id_bidir = tp_value,
        9 => tp.initial_max_stream_id_unidir = tp_value,
        10 => tp.ack_delay_exponent = tp_value as u8,
        11 => tp.max_ack_delay = tp_value as u32,
        12 => tp.migration_disabled = tp_value != 0,
        14 => tp.active_connection_id_limit = tp_value as u32,
        32 => tp.max_datagram_frame_size = tp_value as u32,
        0x1057 => tp.enable_loss_bit = if tp_value != 0 { 1 } else { 0 },
        0xff04de1b => tp.min_ack_delay = tp_value,
        0x7158 => tp.enable_time_stamp = tp_value as i32,
        0x2ab2 => tp.do_grease_quic_bit = tp_value != 0,
        0xebd9 => tp.enable_bdp_frame = tp_value != 0,
        0x3e => tp.initial_max_path_id = tp_value,
        0x9f81a176 => tp.address_discovery_mode = tp_value as i32,
        0x17f7586d2cb571 => tp.is_reset_stream_at_enabled = tp_value != 0,
        _ => return Err(Error::InvalidArgument),
    }
    Ok(())
}

} // verus!
