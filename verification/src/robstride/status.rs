//! Status flags packed into the `extra_data` field of `OPERATION_STATUS`
//! reply frames, plus the two-word fault report layout.
use vstd::prelude::*;
use crate::wire::{le_u32_value, u32_from_le};

verus! {

/// Bit `k` of a 16-bit word.
pub open spec fn bit16(x: u16, k: u16) -> bool {
    (x >> k) & 1u16 == 1u16
}

/// Bit `k` of a 32-bit word.
pub open spec fn bit32(x: u32, k: u32) -> bool {
    (x >> k) & 1u32 == 1u32
}

/// Per-bit status flags from `OPERATION_STATUS.extra_data`.
///
/// `extra_data` is 16 bits; the bottom 8 bits echo the motor's `device_id`,
/// the upper bits carry warning flags:
///
/// | bit | flag                     |
/// |-----|--------------------------|
/// | 8   | undervoltage             |
/// | 9   | overcurrent              |
/// | 10  | overtemperature          |
/// | 11  | magnetic encoder fault   |
/// | 12  | stalled                  |
/// | 13  | uncalibrated             |
#[derive(Debug, Clone, Copy, Default, PartialEq, Eq, Structural)]
pub struct StatusFlags {
    pub undervoltage: bool,
    pub overcurrent: bool,
    pub overtemperature: bool,
    pub magnetic_encoder_fault: bool,
    pub stalled: bool,
    pub uncalibrated: bool,
}

/// The flags that `extra` carries.
pub open spec fn spec_flags(extra: u16) -> StatusFlags {
    StatusFlags {
        undervoltage: bit16(extra, 8),
        overcurrent: bit16(extra, 9),
        overtemperature: bit16(extra, 10),
        magnetic_encoder_fault: bit16(extra, 11),
        stalled: bit16(extra, 12),
        uncalibrated: bit16(extra, 13),
    }
}

impl StatusFlags {
    /// True if any warning bit is set.
    pub open spec fn spec_any(self) -> bool {
        self.undervoltage || self.overcurrent || self.overtemperature
            || self.magnetic_encoder_fault || self.stalled || self.uncalibrated
    }

    /// Decode the warning bits of an `OPERATION_STATUS` `extra_data`.
    pub fn from_extra(extra: u16) -> (f: Self)
        ensures
            f == spec_flags(extra),
    {
        StatusFlags {
            undervoltage: (extra >> 8u16) & 1u16 == 1u16,
            overcurrent: (extra >> 9u16) & 1u16 == 1u16,
            overtemperature: (extra >> 10u16) & 1u16 == 1u16,
            magnetic_encoder_fault: (extra >> 11u16) & 1u16 == 1u16,
            stalled: (extra >> 12u16) & 1u16 == 1u16,
            uncalibrated: (extra >> 13u16) & 1u16 == 1u16,
        }
    }

    /// True if any warning bit is set.
    pub fn any(&self) -> (r: bool)
        ensures
            r == self.spec_any(),
    {
        self.undervoltage || self.overcurrent || self.overtemperature
            || self.magnetic_encoder_fault || self.stalled || self.uncalibrated
    }
}

/// The flags depend on bits 8..13 of `extra` alone: the device id in the
/// low byte and bits 14, 15 do not change them, and some flag is set
/// exactly when one of bits 8..13 is.
pub proof fn lemma_flags_bits(extra: u16, other: u16)
    ensures
        (extra >> 8u16) & 0x3Fu16 == (other >> 8u16) & 0x3Fu16 ==> spec_flags(extra) == spec_flags(other),
        spec_flags(extra).spec_any() <==> (extra >> 8u16) & 0x3Fu16 != 0u16,
{
    assert((extra >> 8u16) & 0x3Fu16 == (other >> 8u16) & 0x3Fu16 ==> (
        ((extra >> 8u16) & 1u16 == (other >> 8u16) & 1u16)
        && ((extra >> 9u16) & 1u16 == (other >> 9u16) & 1u16)
        && ((extra >> 10u16) & 1u16 == (other >> 10u16) & 1u16)
        && ((extra >> 11u16) & 1u16 == (other >> 11u16) & 1u16)
        && ((extra >> 12u16) & 1u16 == (other >> 12u16) & 1u16)
        && ((extra >> 13u16) & 1u16 == (other >> 13u16) & 1u16))) by (bit_vector);
    assert(((extra >> 8u16) & 1u16 == 1u16 || (extra >> 9u16) & 1u16 == 1u16
        || (extra >> 10u16) & 1u16 == 1u16 || (extra >> 11u16) & 1u16 == 1u16
        || (extra >> 12u16) & 1u16 == 1u16 || (extra >> 13u16) & 1u16 == 1u16)
        <==> (extra >> 8u16) & 0x3Fu16 != 0u16) by (bit_vector);
}

/// Decoded `FAULT_REPORT` (`communication_type = 21`) frame.
///
/// The 8-byte data is two little-endian `u32`s: a fault word and a
/// warning word. Each bit corresponds to a specific condition.
#[derive(Debug, Clone, Copy, Default, PartialEq, Eq, Structural)]
pub struct FaultReport {
    /// Fault bit 0.
    pub motor_overtemperature: bool,
    /// Fault bit 1.
    pub gate: bool,
    /// Fault bit 2.
    pub undervoltage: bool,
    /// Fault bit 3.
    pub overvoltage: bool,
    /// Fault bit 7.
    pub encoder_uncalibrated: bool,
    /// Warning bit 14.
    pub stall_current: bool,
    /// Warning bit 0.
    pub warning_overtemperature: bool,
}

/// The report that a fault word and a warning word carry.
pub open spec fn spec_fault_report(fault: u32, warn: u32) -> FaultReport {
    FaultReport {
        motor_overtemperature: bit32(fault, 0),
        gate: bit32(fault, 1),
        undervoltage: bit32(fault, 2),
        overvoltage: bit32(fault, 3),
        encoder_uncalibrated: bit32(fault, 7),
        stall_current: bit32(warn, 14),
        warning_overtemperature: bit32(warn, 0),
    }
}

impl FaultReport {
    /// Decode the fault word (bytes 0..4) and warning word (bytes 4..8),
    /// both little-endian. Bytes past the eighth are ignored.
    pub fn from_data(data: &[u8]) -> (r: Self)
        requires
            data@.len() >= 8,
        ensures
            r == spec_fault_report(
                le_u32_value(data@.subrange(0, 4)),
                le_u32_value(data@.subrange(4, 8)),
            ),
            r.motor_overtemperature == (data@[0] % 2 == 1),
            r.gate == (data@[0] / 2 % 2 == 1),
            r.undervoltage == (data@[0] / 4 % 2 == 1),
            r.overvoltage == (data@[0] / 8 % 2 == 1),
            r.encoder_uncalibrated == (data@[0] / 128 % 2 == 1),
            r.stall_current == (data@[5] / 64 % 2 == 1),
            r.warning_overtemperature == (data@[4] % 2 == 1),
    {
        proof {
            lemma_fault_report_bytes(data@);
        }
        let f4 = [data[0], data[1], data[2], data[3]];
        let w4 = [data[4], data[5], data[6], data[7]];
        assert(f4@ =~= data@.subrange(0, 4));
        assert(w4@ =~= data@.subrange(4, 8));
        let fault = u32_from_le(f4);
        let warn = u32_from_le(w4);
        FaultReport {
            motor_overtemperature: (fault >> 0u32) & 1u32 == 1u32,
            gate: (fault >> 1u32) & 1u32 == 1u32,
            undervoltage: (fault >> 2u32) & 1u32 == 1u32,
            overvoltage: (fault >> 3u32) & 1u32 == 1u32,
            encoder_uncalibrated: (fault >> 7u32) & 1u32 == 1u32,
            stall_current: (warn >> 14u32) & 1u32 == 1u32,
            warning_overtemperature: (warn >> 0u32) & 1u32 == 1u32,
        }
    }
}


/// Bit `k` of a little-endian word is bit `k % 8` of its byte `k / 8`.
proof fn lemma_le_word_bits(b0: u8, b1: u8, b2: u8, b3: u8, w: u32)
    requires
        w == b0 + b1 * 0x100 + b2 * 0x1_0000 + b3 * 0x100_0000,
    ensures
        bit32(w, 0) == (b0 % 2 == 1),
        bit32(w, 1) == (b0 / 2 % 2 == 1),
        bit32(w, 2) == (b0 / 4 % 2 == 1),
        bit32(w, 3) == (b0 / 8 % 2 == 1),
        bit32(w, 7) == (b0 / 128 % 2 == 1),
        bit32(w, 14) == (b1 / 64 % 2 == 1),
{
    let x0 = b0 as u32;
    let x1 = b1 as u32;
    let x2 = b2 as u32;
    let x3 = b3 as u32;
    assert(w == x0 + x1 * 0x100u32 + x2 * 0x1_0000u32 + x3 * 0x100_0000u32);
    assert(x0 < 0x100u32 && x1 < 0x100u32 && x2 < 0x100u32 && x3 < 0x100u32
        && w == x0 + x1 * 0x100u32 + x2 * 0x1_0000u32 + x3 * 0x100_0000u32 ==> (
        ((w >> 0u32) & 1u32 == 1u32) == (x0 % 2u32 == 1u32)
        && ((w >> 1u32) & 1u32 == 1u32) == (x0 / 2u32 % 2u32 == 1u32)
        && ((w >> 2u32) & 1u32 == 1u32) == (x0 / 4u32 % 2u32 == 1u32)
        && ((w >> 3u32) & 1u32 == 1u32) == (x0 / 8u32 % 2u32 == 1u32)
        && ((w >> 7u32) & 1u32 == 1u32) == (x0 / 128u32 % 2u32 == 1u32)
        && ((w >> 14u32) & 1u32 == 1u32) == (x1 / 64u32 % 2u32 == 1u32))) by (bit_vector);
}

/// The fault flags of a fault report come from the fault word in bytes 0..4
/// (bits 0, 1, 2, 3, 7 of byte 0) and the warning flags from the warning word
/// in bytes 4..8 (bit 0 of byte 4: over-temperature warning; bit 6 of byte 5,
/// i.e. warning bit 14: stall current), each little-endian.
pub proof fn lemma_fault_report_bytes(d: Seq<u8>)
    requires
        d.len() >= 8,
    ensures
        ({
            let r = spec_fault_report(le_u32_value(d.subrange(0, 4)), le_u32_value(d.subrange(4, 8)));
            &&& r.motor_overtemperature == (d[0] % 2 == 1)
            &&& r.gate == (d[0] / 2 % 2 == 1)
            &&& r.undervoltage == (d[0] / 4 % 2 == 1)
            &&& r.overvoltage == (d[0] / 8 % 2 == 1)
            &&& r.encoder_uncalibrated == (d[0] / 128 % 2 == 1)
            &&& r.stall_current == (d[5] / 64 % 2 == 1)
            &&& r.warning_overtemperature == (d[4] % 2 == 1)
        }),
{
    let f = d.subrange(0, 4);
    let w = d.subrange(4, 8);
    lemma_le_word_bits(f[0], f[1], f[2], f[3], le_u32_value(f));
    lemma_le_word_bits(w[0], w[1], w[2], w[3], le_u32_value(w));
}


/// Which bit names which flag: bits 8..13 of `extra` — bits 0..5 of its high
/// byte — are undervoltage, overcurrent, overtemperature, magnetic encoder
/// fault, stalled and uncalibrated, in that order.
pub proof fn lemma_flag_bits(extra: u16)
    ensures
        spec_flags(extra).undervoltage == (extra / 0x100 % 2 == 1),
        spec_flags(extra).overcurrent == (extra / 0x200 % 2 == 1),
        spec_flags(extra).overtemperature == (extra / 0x400 % 2 == 1),
        spec_flags(extra).magnetic_encoder_fault == (extra / 0x800 % 2 == 1),
        spec_flags(extra).stalled == (extra / 0x1000 % 2 == 1),
        spec_flags(extra).uncalibrated == (extra / 0x2000 % 2 == 1),
{
    assert(
        (((extra >> 8u16) & 1u16 == 1u16) == (extra / 0x100u16 % 2u16 == 1u16))
        && (((extra >> 9u16) & 1u16 == 1u16) == (extra / 0x200u16 % 2u16 == 1u16))
        && (((extra >> 10u16) & 1u16 == 1u16) == (extra / 0x400u16 % 2u16 == 1u16))
        && (((extra >> 11u16) & 1u16 == 1u16) == (extra / 0x800u16 % 2u16 == 1u16))
        && (((extra >> 12u16) & 1u16 == 1u16) == (extra / 0x1000u16 % 2u16 == 1u16))
        && (((extra >> 13u16) & 1u16 == 1u16) == (extra / 0x2000u16 % 2u16 == 1u16))
    ) by (bit_vector);
}

} // verus!
