//! MIT impedance-control frame layout (Damiao).
//!
//! The command is a single 8-byte payload carrying five quantized fields:
//! `q*` (16 bits), `dq*`, `kp`, `kd`, `tau` (12 bits each):
//!
//! | byte | bits  | field          |
//! |------|-------|----------------|
//! | 0    | 15..8 | q\*  high      |
//! | 1    | 7..0  | q\*  low       |
//! | 2    | 11..4 | dq\* high      |
//! | 3    | 3..0  | dq\* low (hi 4 of next field follow) |
//! | 3    | 11..8 | kp   high      |
//! | 4    | 7..0  | kp   low       |
//! | 5    | 11..4 | kd   high      |
//! | 6    | 3..0  | kd   low (hi 4 of next field follow) |
//! | 6    | 11..8 | tau  high      |
//! | 7    | 7..0  | tau  low       |
//!
//! Reply frames carry the motor id (low nibble of byte 0), the status code
//! (high nibble of byte 0), the quantized `q` (16 bits), `dq` and `tau`
//! (12 bits each) and two temperature bytes. The quantization between SI
//! units and these integers is done by the caller; this module owns the
//! bit layout.
use vstd::prelude::*;

verus! {

/// Width in bits of the quantized position field.
pub const Q_BITS: u32 = 16;

/// Width in bits of the quantized velocity, gain and torque fields.
pub const FIELD_BITS: u32 = 12;

/// The payload bytes of an MIT command carrying the quantized fields.
/// Only the low 16 bits of `q` and the low 12 bits of the others are sent.
pub open spec fn spec_command_bytes(q: u32, dq: u32, kp: u32, kd: u32, tau: u32) -> Seq<u8> {
    seq![
        (q / 0x100 % 0x100) as u8,
        (q % 0x100) as u8,
        (dq / 0x10 % 0x100) as u8,
        (dq % 0x10 * 0x10 + kp / 0x100 % 0x10) as u8,
        (kp % 0x100) as u8,
        (kd / 0x10 % 0x100) as u8,
        (kd % 0x10 * 0x10 + tau / 0x100 % 0x10) as u8,
        (tau % 0x100) as u8,
    ]
}

/// Pack the quantized MIT setpoint fields into the 8-byte command payload.
pub fn encode_fields(q: u32, dq: u32, kp: u32, kd: u32, tau: u32) -> (r: [u8; 8])
    ensures
        r@ == spec_command_bytes(q, dq, kp, kd, tau),
{
    let r = [
        (q / 0x100 % 0x100) as u8,
        (q % 0x100) as u8,
        (dq / 0x10 % 0x100) as u8,
        (dq % 0x10 * 0x10 + kp / 0x100 % 0x10) as u8,
        (kp % 0x100) as u8,
        (kd / 0x10 % 0x100) as u8,
        (kd % 0x10 * 0x10 + tau / 0x100 % 0x10) as u8,
        (tau % 0x100) as u8,
    ];
    assert(r@ =~= spec_command_bytes(q, dq, kp, kd, tau));
    r
}

/// The fields an MIT reply carries, still quantized.
#[derive(Debug, Clone, Copy, PartialEq, Eq, Structural)]
pub struct MitReply {
    /// Low 4 bits of the replying motor's id.
    pub motor_id: u8,
    /// Status code (see [`crate::damiao::status::MotorStatus`]).
    pub error: u8,
    /// Quantized position, 16 bits.
    pub q: u32,
    /// Quantized velocity, 12 bits.
    pub dq: u32,
    /// Quantized torque, 12 bits.
    pub tau: u32,
    /// MOSFET temperature, °C.
    pub t_mos: u8,
    /// Rotor temperature, °C.
    pub t_rotor: u8,
}

/// The reply fields that the first 8 bytes of `d` carry.
pub open spec fn spec_reply(d: Seq<u8>) -> MitReply {
    MitReply {
        motor_id: (d[0] % 0x10) as u8,
        error: (d[0] / 0x10) as u8,
        q: (d[1] * 0x100 + d[2]) as u32,
        dq: (d[3] * 0x10 + d[4] / 0x10) as u32,
        tau: (d[4] % 0x10 * 0x100 + d[5]) as u32,
        t_mos: d[6],
        t_rotor: d[7],
    }
}

/// Unpack the quantized fields of an MIT reply. Bytes past the eighth are
/// ignored.
pub fn decode_fields(data: &[u8]) -> (r: MitReply)
    requires
        data@.len() >= 8,
    ensures
        r == spec_reply(data@),
{
    MitReply {
        motor_id: data[0] % 0x10,
        error: data[0] / 0x10,
        q: data[1] as u32 * 0x100 + data[2] as u32,
        dq: data[3] as u32 * 0x10 + data[4] as u32 / 0x10,
        tau: (data[4] % 0x10) as u32 * 0x100 + data[5] as u32,
        t_mos: data[6],
        t_rotor: data[7],
    }
}

/// The command layout keeps the fields apart: from the payload of in-range
/// fields, each field is read back whole.
pub proof fn lemma_command_fields_recoverable(q: u32, dq: u32, kp: u32, kd: u32, tau: u32)
    requires
        q < 0x1_0000,
        dq < 0x1000,
        kp < 0x1000,
        kd < 0x1000,
        tau < 0x1000,
    ensures
        ({
            let b = spec_command_bytes(q, dq, kp, kd, tau);
            &&& b.len() == 8
            &&& q == b[0] * 0x100 + b[1]
            &&& dq == b[2] * 0x10 + b[3] / 0x10
            &&& kp == b[3] % 0x10 * 0x100 + b[4]
            &&& kd == b[5] * 0x10 + b[6] / 0x10
            &&& tau == b[6] % 0x10 * 0x100 + b[7]
        }),
{
    let b = spec_command_bytes(q, dq, kp, kd, tau);
    assert(b[3] / 0x10 == dq % 0x10 && b[3] % 0x10 == kp / 0x100 % 0x10);
    assert(b[6] / 0x10 == kd % 0x10 && b[6] % 0x10 == tau / 0x100 % 0x10);
}

/// A reply payload is determined by its fields: in-range fields laid out as
/// the motor sends them decode to themselves.
pub proof fn lemma_reply_layout(d: Seq<u8>)
    requires
        d.len() >= 8,
    ensures
        ({
            let r = spec_reply(d);
            &&& r.motor_id < 0x10 && r.error < 0x10
            &&& d[0] == r.error * 0x10 + r.motor_id
            &&& r.q < 0x1_0000 && r.dq < 0x1000 && r.tau < 0x1000
            &&& d[1] == r.q / 0x100 && d[2] == r.q % 0x100
            &&& d[3] == r.dq / 0x10
            &&& d[4] == r.dq % 0x10 * 0x10 + r.tau / 0x100
            &&& d[5] == r.tau % 0x100
        }),
{
}

} // verus!
