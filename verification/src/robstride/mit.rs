//! Robstride OperationControl frame layout.
//!
//! The Robstride frame uses a **29-bit extended id** with three packed
//! fields (see [`crate::robstride::frame`]). For `OPERATION_CONTROL`, the
//! 16-bit torque setpoint is placed in `extra_data`; the 8-byte data payload
//! carries position/velocity/kp/kd as four **big-endian** `u16`s:
//!
//! | bytes | field         |
//! |-------|---------------|
//! | 0..2  | position_u16  |
//! | 2..4  | velocity_u16  |
//! | 4..6  | kp_u16        |
//! | 6..8  | kd_u16        |
//!
//! The `OPERATION_STATUS` reply carries position, velocity, torque and
//! temperature as four big-endian `u16`s. The quantization between SI
//! units and these integers is done by the caller; this module owns the
//! layout.
use vstd::prelude::*;
use crate::wire::{be_u16, be_u16_value, u16_from_be, u16_to_be, lemma_be_u16_roundtrip};

verus! {

/// Encoded operation-control frame: `extra_data` for the arbitration id
/// and 8 data bytes for the payload.
#[derive(Debug, Clone, Copy)]
pub struct EncodedMit {
    pub torque_extra: u16,
    pub data: [u8; 8],
}

/// Lay out the quantized setpoint: torque in the id's `extra_data`,
/// position, velocity, kp, kd big-endian in the payload.
pub fn encode_fields(position: u16, velocity: u16, kp: u16, kd: u16, torque: u16) -> (e: EncodedMit)
    ensures
        e.torque_extra == torque,
        e.data@ == be_u16(position) + be_u16(velocity) + be_u16(kp) + be_u16(kd),
{
    let p = u16_to_be(position);
    let v = u16_to_be(velocity);
    let k = u16_to_be(kp);
    let d = u16_to_be(kd);
    let data = [p[0], p[1], v[0], v[1], k[0], k[1], d[0], d[1]];
    assert(data@ =~= be_u16(position) + be_u16(velocity) + be_u16(kp) + be_u16(kd));
    EncodedMit { torque_extra: torque, data }
}

/// The quantized fields of an `OPERATION_STATUS` payload.
#[derive(Debug, Clone, Copy, PartialEq, Eq, Structural)]
pub struct StatusFields {
    pub position: u16,
    pub velocity: u16,
    pub torque: u16,
    /// Temperature in tenths of a degree Celsius.
    pub temperature: u16,
}

/// The fields the first 8 bytes of `d` carry.
pub open spec fn spec_status_fields(d: Seq<u8>) -> StatusFields {
    StatusFields {
        position: be_u16_value(d.subrange(0, 2)),
        velocity: be_u16_value(d.subrange(2, 4)),
        torque: be_u16_value(d.subrange(4, 6)),
        temperature: be_u16_value(d.subrange(6, 8)),
    }
}

/// Read the four big-endian words of an `OPERATION_STATUS` payload. Bytes
/// past the eighth are ignored.
pub fn decode_fields(data: &[u8]) -> (r: StatusFields)
    requires
        data@.len() >= 8,
    ensures
        r == spec_status_fields(data@),
        r.position == data@[0] * 0x100 + data@[1],
        r.velocity == data@[2] * 0x100 + data@[3],
        r.torque == data@[4] * 0x100 + data@[5],
        r.temperature == data@[6] * 0x100 + data@[7],
{
    proof {
        lemma_status_words(data@);
    }
    let a = [data[0], data[1]];
    let b = [data[2], data[3]];
    let c = [data[4], data[5]];
    let d = [data[6], data[7]];
    assert(a@ =~= data@.subrange(0, 2));
    assert(b@ =~= data@.subrange(2, 4));
    assert(c@ =~= data@.subrange(4, 6));
    assert(d@ =~= data@.subrange(6, 8));
    StatusFields {
        position: u16_from_be(a),
        velocity: u16_from_be(b),
        torque: u16_from_be(c),
        temperature: u16_from_be(d),
    }
}

/// The command payload keeps each field whole: reading its four big-endian
/// words gives position, velocity, kp and kd back, and the torque is only
/// in `extra_data`.
pub proof fn lemma_command_words(position: u16, velocity: u16, kp: u16, kd: u16)
    ensures
        ({
            let d = be_u16(position) + be_u16(velocity) + be_u16(kp) + be_u16(kd);
            &&& d.len() == 8
            &&& be_u16_value(d.subrange(0, 2)) == position
            &&& be_u16_value(d.subrange(2, 4)) == velocity
            &&& be_u16_value(d.subrange(4, 6)) == kp
            &&& be_u16_value(d.subrange(6, 8)) == kd
        }),
{
    lemma_be_u16_roundtrip(position);
    lemma_be_u16_roundtrip(velocity);
    lemma_be_u16_roundtrip(kp);
    lemma_be_u16_roundtrip(kd);
    let d = be_u16(position) + be_u16(velocity) + be_u16(kp) + be_u16(kd);
    assert(d.subrange(0, 2) =~= be_u16(position));
    assert(d.subrange(2, 4) =~= be_u16(velocity));
    assert(d.subrange(4, 6) =~= be_u16(kp));
    assert(d.subrange(6, 8) =~= be_u16(kd));
}


/// An `OPERATION_STATUS` payload carries its words in the order position
/// (bytes 0..2), velocity (2..4), torque (4..6), temperature (6..8), each
/// big-endian; writing the four decoded words back big-endian in that order
/// gives the first 8 bytes of the payload.
pub proof fn lemma_status_words(d: Seq<u8>)
    requires
        d.len() >= 8,
    ensures
        spec_status_fields(d).position == d[0] * 0x100 + d[1],
        spec_status_fields(d).velocity == d[2] * 0x100 + d[3],
        spec_status_fields(d).torque == d[4] * 0x100 + d[5],
        spec_status_fields(d).temperature == d[6] * 0x100 + d[7],
        ({
            let f = spec_status_fields(d);
            be_u16(f.position) + be_u16(f.velocity) + be_u16(f.torque) + be_u16(f.temperature)
                == d.subrange(0, 8)
        }),
{
    let f = spec_status_fields(d);
    assert(be_u16(f.position) + be_u16(f.velocity) + be_u16(f.torque) + be_u16(f.temperature)
        =~= d.subrange(0, 8));
}

} // verus!
