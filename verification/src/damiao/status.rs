//! Damiao motor status codes.
//!
//! The motor encodes its status in the high 4 bits of byte 0 of every
//! feedback frame (see [`crate::damiao::mit::MitReply::error`]).
use vstd::prelude::*;

verus! {

/// Damiao motor status, decoded from the high 4 bits of feedback byte 0.
#[derive(Debug, Clone, Copy, PartialEq, Eq, Structural)]
pub enum MotorStatus {
    Disabled,
    Enabled,
    OverVoltage,
    UnderVoltage,
    OverCurrent,
    MosOverTemp,
    RotorOverTemp,
    LostComm,
    Overload,
    /// Status code outside the documented set.
    Unknown(u8),
}

/// The documented status codes and what each one means.
pub open spec fn spec_from_code(code: u8) -> MotorStatus {
    match code {
        0x0 => MotorStatus::Disabled,
        0x1 => MotorStatus::Enabled,
        0x8 => MotorStatus::OverVoltage,
        0x9 => MotorStatus::UnderVoltage,
        0xA => MotorStatus::OverCurrent,
        0xB => MotorStatus::MosOverTemp,
        0xC => MotorStatus::RotorOverTemp,
        0xD => MotorStatus::LostComm,
        0xE => MotorStatus::Overload,
        other => MotorStatus::Unknown(other),
    }
}

impl MotorStatus {
    /// True for every state except Disabled and Enabled.
    pub open spec fn spec_is_fault(self) -> bool {
        !(self is Disabled || self is Enabled)
    }

    /// Decode the 4-bit status code from a feedback frame. Codes outside
    /// the documented set are kept, as `Unknown(code)`.
    pub fn from_code(code: u8) -> (s: Self)
        ensures
            s == spec_from_code(code),
            (code == 0x0 <==> s == MotorStatus::Disabled)
            && (code == 0x1 <==> s == MotorStatus::Enabled)
            && (code == 0x8 <==> s == MotorStatus::OverVoltage)
            && (code == 0x9 <==> s == MotorStatus::UnderVoltage)
            && (code == 0xA <==> s == MotorStatus::OverCurrent)
            && (code == 0xB <==> s == MotorStatus::MosOverTemp)
            && (code == 0xC <==> s == MotorStatus::RotorOverTemp)
            && (code == 0xD <==> s == MotorStatus::LostComm)
            && (code == 0xE <==> s == MotorStatus::Overload)
            && ((code == 0x2 || code == 0x3 || code == 0x4 || code == 0x5 || code == 0x6
                || code == 0x7 || code >= 0xF) <==> s == MotorStatus::Unknown(code)),
    {
        proof {
            lemma_status_codes(code);
        }
        match code {
            0x0 => MotorStatus::Disabled,
            0x1 => MotorStatus::Enabled,
            0x8 => MotorStatus::OverVoltage,
            0x9 => MotorStatus::UnderVoltage,
            0xA => MotorStatus::OverCurrent,
            0xB => MotorStatus::MosOverTemp,
            0xC => MotorStatus::RotorOverTemp,
            0xD => MotorStatus::LostComm,
            0xE => MotorStatus::Overload,
            other => MotorStatus::Unknown(other),
        }
    }

    /// True if the motor is in any fault state (anything except
    /// Disabled / Enabled).
    pub fn is_fault(&self) -> (r: bool)
        ensures
            r == self.spec_is_fault(),
    {
        match self {
            MotorStatus::Disabled | MotorStatus::Enabled => false,
            _ => true,
        }
    }
}

/// A decoded status is a fault exactly when its code is neither 0
/// (disabled) nor 1 (enabled).
pub proof fn lemma_fault_codes(code: u8)
    ensures
        spec_from_code(code).spec_is_fault() <==> (code != 0 && code != 1),
{
}

/// Decoding loses no information: distinct codes decode to distinct
/// statuses, and an undocumented code is kept as it came.
pub proof fn lemma_from_code_injective(c1: u8, c2: u8)
    ensures
        spec_from_code(c1) == spec_from_code(c2) ==> c1 == c2,
        (spec_from_code(c1) is Unknown) ==> spec_from_code(c1) == MotorStatus::Unknown(c1),
        (spec_from_code(c1) is Unknown) <==> !(c1 <= 1 || (0x8 <= c1 && c1 <= 0xE)),
{
}


/// Each documented code names its status, and only that code names it:
/// 0 Disabled, 1 Enabled, 8 OverVoltage, 9 UnderVoltage, 0xA OverCurrent,
/// 0xB MosOverTemp, 0xC RotorOverTemp, 0xD LostComm, 0xE Overload; every
/// other code is kept as `Unknown(code)`.
pub proof fn lemma_status_codes(code: u8)
    ensures
        ({
            let s = spec_from_code(code);
            (code == 0x0 <==> s == MotorStatus::Disabled)
            && (code == 0x1 <==> s == MotorStatus::Enabled)
            && (code == 0x8 <==> s == MotorStatus::OverVoltage)
            && (code == 0x9 <==> s == MotorStatus::UnderVoltage)
            && (code == 0xA <==> s == MotorStatus::OverCurrent)
            && (code == 0xB <==> s == MotorStatus::MosOverTemp)
            && (code == 0xC <==> s == MotorStatus::RotorOverTemp)
            && (code == 0xD <==> s == MotorStatus::LostComm)
            && (code == 0xE <==> s == MotorStatus::Overload)
            && ((code == 0x2 || code == 0x3 || code == 0x4 || code == 0x5 || code == 0x6
                || code == 0x7 || code >= 0xF) <==> s == MotorStatus::Unknown(code))
        }),
{
}

} // verus!
