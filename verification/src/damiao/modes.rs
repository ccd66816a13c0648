//! Damiao control modes and their wire payloads.
//!
//! Mode is selected by writing register 10 (`CTRL_MODE`). Each mode also
//! uses a different CAN arbitration id for its command frame:
//!
//! | Mode      | reg 10 | arbitration id        |
//! |-----------|--------|-----------------------|
//! | MIT       | 1      | `motor_id`            |
//! | POS_VEL   | 2      | `0x100 + motor_id`    |
//! | VEL       | 3      | `0x200 + motor_id`    |
//! | FORCE_POS | 4      | `0x300 + motor_id`    |
//!
//! The payloads of POS_VEL, VEL and FORCE_POS carry IEEE-754 `f32` values
//! little-endian; here they are handled as their bit patterns
//! (`f32::to_bits`), which is all the wire layout depends on.
use vstd::prelude::*;
use crate::wire::{le_u16, le_u32, u16_to_le, u32_to_le};

verus! {

/// Damiao control mode (register 10).
#[derive(Debug, Clone, Copy, PartialEq, Eq, Structural)]
pub enum ControlMode {
    Mit,
    PosVel,
    Vel,
    ForcePos,
}

/// Largest scaled velocity limit / torque ratio a FORCE_POS payload carries.
pub const FORCE_POS_SCALED_MAX: u32 = 10_000;

impl ControlMode {
    /// The value of register 10 that selects this mode.
    pub open spec fn spec_register_value(self) -> u32 {
        match self {
            ControlMode::Mit => 1,
            ControlMode::PosVel => 2,
            ControlMode::Vel => 3,
            ControlMode::ForcePos => 4,
        }
    }

    /// The offset added to the motor id to address this mode's commands.
    pub open spec fn spec_offset(self) -> u16 {
        match self {
            ControlMode::Mit => 0,
            ControlMode::PosVel => 0x100,
            ControlMode::Vel => 0x200,
            ControlMode::ForcePos => 0x300,
        }
    }

    /// The value of register 10 that selects this mode.
    pub fn register_value(&self) -> (v: u32)
        ensures
            v == self.spec_register_value(),
            1 <= v <= 4,
    {
        match self {
            ControlMode::Mit => 1,
            ControlMode::PosVel => 2,
            ControlMode::Vel => 3,
            ControlMode::ForcePos => 4,
        }
    }

    /// The offset added to the motor id to address this mode's commands.
    pub fn offset(&self) -> (o: u16)
        ensures
            o == self.spec_offset(),
    {
        match self {
            ControlMode::Mit => 0,
            ControlMode::PosVel => 0x100,
            ControlMode::Vel => 0x200,
            ControlMode::ForcePos => 0x300,
        }
    }

    /// Decode register-10 readback; `None` for values that name no mode.
    pub fn from_register(value: u32) -> (m: Option<Self>)
        ensures
            m is Some <==> 1 <= value <= 4,
            m matches Some(mode) ==> mode.spec_register_value() == value,
    {
        match value {
            1 => Some(ControlMode::Mit),
            2 => Some(ControlMode::PosVel),
            3 => Some(ControlMode::Vel),
            4 => Some(ControlMode::ForcePos),
            _ => None,
        }
    }

    /// CAN arbitration id used for command frames in this mode.
    pub fn arbitration_id(&self, motor_id: u16) -> (id: u16)
        requires
            motor_id + self.spec_offset() <= u16::MAX,
        ensures
            id == motor_id + self.spec_offset(),
    {
        match self {
            ControlMode::Mit => motor_id,
            ControlMode::PosVel => 0x100 + motor_id,
            ControlMode::Vel => 0x200 + motor_id,
            ControlMode::ForcePos => 0x300 + motor_id,
        }
    }
}

/// Every mode reads back as itself from the register value that selects it.
pub proof fn lemma_register_value_roundtrip(mode: ControlMode, other: ControlMode)
    ensures
        1 <= mode.spec_register_value() <= 4,
        mode.spec_register_value() == other.spec_register_value() ==> mode == other,
        (mode == ControlMode::Mit) <==> (mode.spec_register_value() == 1 && mode.spec_offset() == 0),
        (mode == ControlMode::PosVel) <==> (mode.spec_register_value() == 2 && mode.spec_offset() == 0x100),
        (mode == ControlMode::Vel) <==> (mode.spec_register_value() == 3 && mode.spec_offset() == 0x200),
        (mode == ControlMode::ForcePos) <==> (mode.spec_register_value() == 4 && mode.spec_offset() == 0x300),
{
}

/// Different modes address the same motor on different arbitration ids.
pub proof fn lemma_arbitration_ids_distinct(m1: ControlMode, m2: ControlMode, motor_id: u16)
    requires
        motor_id < 0x100,
    ensures
        m1 != m2 ==> motor_id + m1.spec_offset() != motor_id + m2.spec_offset(),
{
}

/// POS_VEL payload: little-endian f32 position + f32 velocity.
pub fn pos_vel_payload(position_bits: u32, velocity_bits: u32) -> (r: [u8; 8])
    ensures
        r@ == le_u32(position_bits) + le_u32(velocity_bits),
{
    let p = u32_to_le(position_bits);
    let v = u32_to_le(velocity_bits);
    let r = [p[0], p[1], p[2], p[3], v[0], v[1], v[2], v[3]];
    assert(r@ =~= le_u32(position_bits) + le_u32(velocity_bits));
    r
}

/// VEL payload: little-endian f32 velocity + 4 padding zeros.
pub fn vel_payload(velocity_bits: u32) -> (r: [u8; 8])
    ensures
        r@ == le_u32(velocity_bits) + seq![0u8, 0u8, 0u8, 0u8],
{
    let v = u32_to_le(velocity_bits);
    let r = [v[0], v[1], v[2], v[3], 0, 0, 0, 0];
    assert(r@ =~= le_u32(velocity_bits) + seq![0u8, 0u8, 0u8, 0u8]);
    r
}

/// The smaller of `x` and the FORCE_POS cap, as a `u16`.
pub open spec fn capped(x: u32) -> u16 {
    if x < FORCE_POS_SCALED_MAX { x as u16 } else { FORCE_POS_SCALED_MAX as u16 }
}

/// FORCE_POS payload: little-endian f32 position + u16 scaled velocity
/// limit + u16 scaled torque ratio. The scaled values are capped at
/// 10 000 (100 rad/s × 100, and ratio 1.0 × 10 000).
pub fn force_pos_payload(position_bits: u32, velocity_scaled: u32, ratio_scaled: u32) -> (r: [u8; 8])
    ensures
        r@ == le_u32(position_bits) + le_u16(capped(velocity_scaled)) + le_u16(capped(ratio_scaled)),
        capped(velocity_scaled) <= FORCE_POS_SCALED_MAX,
        capped(ratio_scaled) <= FORCE_POS_SCALED_MAX,
{
    let v: u16 = if velocity_scaled < FORCE_POS_SCALED_MAX {
        velocity_scaled as u16
    } else {
        FORCE_POS_SCALED_MAX as u16
    };
    let t: u16 = if ratio_scaled < FORCE_POS_SCALED_MAX {
        ratio_scaled as u16
    } else {
        FORCE_POS_SCALED_MAX as u16
    };
    let p = u32_to_le(position_bits);
    let vb = u16_to_le(v);
    let tb = u16_to_le(t);
    let r = [p[0], p[1], p[2], p[3], vb[0], vb[1], tb[0], tb[1]];
    assert(r@ =~= le_u32(position_bits) + le_u16(v) + le_u16(t));
    r
}

} // verus!
