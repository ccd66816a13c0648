//! Damiao register table (parameter ids 0–81).
//!
//! Register frames are addressed to the broadcast id `0x7FF`; the target
//! motor id is packed into the first two bytes of the payload. The third
//! byte is the command type — `0x33` read, `0x55` write, `0xAA` save to
//! flash, `0xCC` request feedback. Read replies echo `0x33` in byte 2 and
//! the register id in byte 3, with the 4-byte little-endian value in
//! bytes 4–7.
use vstd::prelude::*;
use crate::wire::{le_u32, le_u32_value, u32_from_le, u32_to_le, lemma_le_u32_roundtrip, lemma_le_u32_value_roundtrip};

verus! {

/// Register access mode.
#[derive(Debug, Clone, Copy, PartialEq, Eq, Structural)]
pub enum Access {
    ReadOnly,
    ReadWrite,
}

/// Register payload type. Damiao uses only 32-bit float and uint32.
#[derive(Debug, Clone, Copy, PartialEq, Eq, Structural)]
pub enum DataType {
    Float,
    Uint32,
}

/// One row of the manufacturer-supplied register table.
#[derive(Debug, Clone, Copy)]
pub struct RegisterInfo {
    pub rid: u8,
    pub name: &'static str,
    pub description: &'static str,
    pub access: Access,
    pub data_type: DataType,
}

/// A typed register value. A float value is held as the bit pattern of
/// its IEEE-754 `f32` (`f32::to_bits`), which is what goes on the wire.
#[derive(Debug, Clone, Copy, PartialEq, Eq, Structural)]
pub enum RegisterValue {
    Float(u32),
    Uint32(u32),
}

impl RegisterValue {
    /// The type tag of the value.
    pub open spec fn spec_data_type(self) -> DataType {
        match self {
            RegisterValue::Float(_) => DataType::Float,
            RegisterValue::Uint32(_) => DataType::Uint32,
        }
    }

    /// The 32 bits the value carries.
    pub open spec fn spec_bits(self) -> u32 {
        match self {
            RegisterValue::Float(v) => v,
            RegisterValue::Uint32(v) => v,
        }
    }

    /// The type tag of the value.
    pub fn data_type(&self) -> (t: DataType)
        ensures
            t == self.spec_data_type(),
    {
        match self {
            RegisterValue::Float(_) => DataType::Float,
            RegisterValue::Uint32(_) => DataType::Uint32,
        }
    }

    /// The 4 little-endian bytes the value is sent as.
    pub fn to_le_bytes(&self) -> (b: [u8; 4])
        ensures
            b@ == le_u32(self.spec_bits()),
    {
        match self {
            RegisterValue::Float(v) => u32_to_le(*v),
            RegisterValue::Uint32(v) => u32_to_le(*v),
        }
    }

    /// The value of type `dtype` that 4 little-endian bytes carry.
    pub fn from_le_bytes(dtype: DataType, bytes: [u8; 4]) -> (v: Self)
        ensures
            v.spec_data_type() == dtype,
            v.spec_bits() == le_u32_value(bytes@),
    {
        match dtype {
            DataType::Float => RegisterValue::Float(u32_from_le(bytes)),
            DataType::Uint32 => RegisterValue::Uint32(u32_from_le(bytes)),
        }
    }

    /// The `f32` bit pattern of a float value; `None` for a uint32 value.
    pub fn as_f32(&self) -> (r: Option<u32>)
        ensures
            r == (match self {
                RegisterValue::Float(v) => Some(*v),
                _ => None,
            }),
    {
        match self {
            RegisterValue::Float(v) => Some(*v),
            _ => None,
        }
    }

    /// The number of a uint32 value; `None` for a float value.
    pub fn as_u32(&self) -> (r: Option<u32>)
        ensures
            r == (match self {
                RegisterValue::Uint32(v) => Some(*v),
                _ => None,
            }),
    {
        match self {
            RegisterValue::Uint32(v) => Some(*v),
            _ => None,
        }
    }
}

/// Sending a register value and reading the bytes back as the same type
/// gives the value back; reading 4 bytes and sending the value gives the
/// bytes back.
pub proof fn lemma_register_value_roundtrip(v: RegisterValue, bytes: Seq<u8>)
    requires
        bytes.len() == 4,
    ensures
        (match v.spec_data_type() {
            DataType::Float => RegisterValue::Float(le_u32_value(le_u32(v.spec_bits()))),
            DataType::Uint32 => RegisterValue::Uint32(le_u32_value(le_u32(v.spec_bits()))),
        }) == v,
        le_u32(le_u32_value(bytes)) == bytes,
{
    lemma_le_u32_roundtrip(v.spec_bits());
    lemma_le_u32_value_roundtrip(bytes);
}

/// CAN bitrate codes accepted by register 35 (`can_br`).
#[derive(Debug, Clone, Copy, PartialEq, Eq, Structural)]
pub enum BaudRate {
    K125,
    K200,
    K250,
    K500,
    M1,
}

impl BaudRate {
    /// The register-35 code of the rate.
    pub open spec fn spec_code(self) -> u8 {
        match self {
            BaudRate::K125 => 0,
            BaudRate::K200 => 1,
            BaudRate::K250 => 2,
            BaudRate::K500 => 3,
            BaudRate::M1 => 4,
        }
    }

    /// The rate in bits per second.
    pub open spec fn spec_bps(self) -> u32 {
        match self {
            BaudRate::K125 => 125_000,
            BaudRate::K200 => 200_000,
            BaudRate::K250 => 250_000,
            BaudRate::K500 => 500_000,
            BaudRate::M1 => 1_000_000,
        }
    }

    /// The register-35 code of the rate (0 for 125 kbit/s ... 4 for 1 Mbit/s).
    pub fn code(&self) -> (c: u8)
        ensures
            c == self.spec_code(),
    {
        match self {
            BaudRate::K125 => 0,
            BaudRate::K200 => 1,
            BaudRate::K250 => 2,
            BaudRate::K500 => 3,
            BaudRate::M1 => 4,
        }
    }

    /// The rate in bits per second.
    pub fn bps(&self) -> (r: u32)
        ensures
            r == self.spec_bps(),
    {
        match self {
            BaudRate::K125 => 125_000,
            BaudRate::K200 => 200_000,
            BaudRate::K250 => 250_000,
            BaudRate::K500 => 500_000,
            BaudRate::M1 => 1_000_000,
        }
    }
}

/// Codes grow with the rate: a higher code means a faster bus.
pub proof fn lemma_baud_codes_ordered(a: BaudRate, b: BaudRate)
    ensures
        a.spec_code() < b.spec_code() <==> a.spec_bps() < b.spec_bps(),
        a.spec_code() <= 4,
        (a.spec_code() == 0) <==> (a == BaudRate::K125 && a.spec_bps() == 125_000),
        (a.spec_code() == 1) <==> (a == BaudRate::K200 && a.spec_bps() == 200_000),
        (a.spec_code() == 2) <==> (a == BaudRate::K250 && a.spec_bps() == 250_000),
        (a.spec_code() == 3) <==> (a == BaudRate::K500 && a.spec_bps() == 500_000),
        (a.spec_code() == 4) <==> (a == BaudRate::M1 && a.spec_bps() == 1_000_000),
{
}

/// A register-table row.
pub open spec fn spec_row(
    rid: u8,
    name: &'static str,
    description: &'static str,
    access: Access,
    data_type: DataType,
) -> RegisterInfo {
    RegisterInfo { rid, name, description, access, data_type }
}

fn row(
    rid: u8,
    name: &'static str,
    description: &'static str,
    access: Access,
    data_type: DataType,
) -> (r: RegisterInfo)
    ensures
        r == spec_row(rid, name, description, access, data_type),
{
    RegisterInfo { rid, name, description, access, data_type }
}

/// The manufacturer register table, row by register id.
pub open spec fn spec_register(rid: u8) -> Option<RegisterInfo> {
    match rid {
        0 => Some(spec_row(0, "UV_Value", "Under-voltage protection value", Access::ReadWrite, DataType::Float)),
        1 => Some(spec_row(1, "KT_Value", "Torque coefficient", Access::ReadWrite, DataType::Float)),
        2 => Some(spec_row(2, "OT_Value", "Over-temperature protection", Access::ReadWrite, DataType::Float)),
        3 => Some(spec_row(3, "OC_Value", "Over-current protection", Access::ReadWrite, DataType::Float)),
        4 => Some(spec_row(4, "ACC", "Acceleration", Access::ReadWrite, DataType::Float)),
        5 => Some(spec_row(5, "DEC", "Deceleration", Access::ReadWrite, DataType::Float)),
        6 => Some(spec_row(6, "MAX_SPD", "Maximum speed", Access::ReadWrite, DataType::Float)),
        7 => Some(spec_row(7, "MST_ID", "Feedback (master) CAN id", Access::ReadWrite, DataType::Uint32)),
        8 => Some(spec_row(8, "ESC_ID", "Receive (motor) CAN id", Access::ReadWrite, DataType::Uint32)),
        9 => Some(spec_row(9, "TIMEOUT", "Timeout alarm (1 unit = 50 us)", Access::ReadWrite, DataType::Uint32)),
        10 => Some(spec_row(10, "CTRL_MODE", "Control mode 1=MIT 2=POS_VEL 3=VEL 4=FORCE_POS", Access::ReadWrite, DataType::Uint32)),
        11 => Some(spec_row(11, "Damp", "Viscous damping coefficient", Access::ReadOnly, DataType::Float)),
        12 => Some(spec_row(12, "Inertia", "Moment of inertia", Access::ReadOnly, DataType::Float)),
        13 => Some(spec_row(13, "hw_ver", "Hardware version (reserved)", Access::ReadOnly, DataType::Uint32)),
        14 => Some(spec_row(14, "sw_ver", "Software version", Access::ReadOnly, DataType::Uint32)),
        15 => Some(spec_row(15, "SN", "Serial number (reserved)", Access::ReadOnly, DataType::Uint32)),
        16 => Some(spec_row(16, "NPP", "Motor pole pairs", Access::ReadOnly, DataType::Uint32)),
        17 => Some(spec_row(17, "Rs", "Phase resistance", Access::ReadOnly, DataType::Float)),
        18 => Some(spec_row(18, "Ls", "Phase inductance", Access::ReadOnly, DataType::Float)),
        19 => Some(spec_row(19, "Flux", "Flux linkage", Access::ReadOnly, DataType::Float)),
        20 => Some(spec_row(20, "Gr", "Gear reduction ratio", Access::ReadOnly, DataType::Float)),
        21 => Some(spec_row(21, "PMAX", "Position mapping range", Access::ReadWrite, DataType::Float)),
        22 => Some(spec_row(22, "VMAX", "Speed mapping range", Access::ReadWrite, DataType::Float)),
        23 => Some(spec_row(23, "TMAX", "Torque mapping range", Access::ReadWrite, DataType::Float)),
        24 => Some(spec_row(24, "I_BW", "Current loop bandwidth", Access::ReadWrite, DataType::Float)),
        25 => Some(spec_row(25, "KP_ASR", "Speed loop Kp", Access::ReadWrite, DataType::Float)),
        26 => Some(spec_row(26, "KI_ASR", "Speed loop Ki", Access::ReadWrite, DataType::Float)),
        27 => Some(spec_row(27, "KP_APR", "Position loop Kp", Access::ReadWrite, DataType::Float)),
        28 => Some(spec_row(28, "KI_APR", "Position loop Ki", Access::ReadWrite, DataType::Float)),
        29 => Some(spec_row(29, "OV_Value", "Over-voltage protection", Access::ReadWrite, DataType::Float)),
        30 => Some(spec_row(30, "GREF", "Gear torque efficiency", Access::ReadWrite, DataType::Float)),
        31 => Some(spec_row(31, "Deta", "Speed loop damping", Access::ReadWrite, DataType::Float)),
        32 => Some(spec_row(32, "V_BW", "Speed loop filter bandwidth", Access::ReadWrite, DataType::Float)),
        33 => Some(spec_row(33, "IQ_c1", "Current loop enhancement", Access::ReadWrite, DataType::Float)),
        34 => Some(spec_row(34, "VL_c1", "Speed loop enhancement", Access::ReadWrite, DataType::Float)),
        35 => Some(spec_row(35, "can_br", "CAN baud rate code (0..4)", Access::ReadWrite, DataType::Uint32)),
        36 => Some(spec_row(36, "sub_ver", "Sub-version number", Access::ReadOnly, DataType::Uint32)),
        50 => Some(spec_row(50, "u_off", "U-phase offset", Access::ReadOnly, DataType::Float)),
        51 => Some(spec_row(51, "v_off", "V-phase offset", Access::ReadOnly, DataType::Float)),
        52 => Some(spec_row(52, "k1", "Compensation factor 1", Access::ReadOnly, DataType::Float)),
        53 => Some(spec_row(53, "k2", "Compensation factor 2", Access::ReadOnly, DataType::Float)),
        54 => Some(spec_row(54, "m_off", "Output-shaft angle offset", Access::ReadOnly, DataType::Float)),
        55 => Some(spec_row(55, "dir", "Direction", Access::ReadOnly, DataType::Float)),
        56 => Some(spec_row(56, "m_off_motor", "Motor-side angle offset", Access::ReadOnly, DataType::Float)),
        59 => Some(spec_row(59, "Imax", "Driver board max current", Access::ReadOnly, DataType::Float)),
        60 => Some(spec_row(60, "VBus", "Power supply voltage", Access::ReadOnly, DataType::Float)),
        61 => Some(spec_row(61, "Tpcb", "Driver board temperature", Access::ReadOnly, DataType::Float)),
        62 => Some(spec_row(62, "Tmtr", "Motor temperature", Access::ReadOnly, DataType::Float)),
        63 => Some(spec_row(63, "Iu_off", "U-phase current offset", Access::ReadOnly, DataType::Float)),
        64 => Some(spec_row(64, "Iv_off", "V-phase current offset", Access::ReadOnly, DataType::Float)),
        65 => Some(spec_row(65, "Iw_off", "W-phase current offset", Access::ReadOnly, DataType::Float)),
        80 => Some(spec_row(80, "p_m", "Motor position", Access::ReadOnly, DataType::Float)),
        81 => Some(spec_row(81, "xout", "Output shaft position", Access::ReadOnly, DataType::Float)),
        _ => None,
    }
}

/// True for the ids the table has a row for: 0–36, 50–56, 59–65, 80, 81.
pub open spec fn is_register_id(rid: u8) -> bool {
    rid <= 36 || (50 <= rid <= 56) || (59 <= rid <= 65) || rid == 80 || rid == 81
}

/// True for the read-only registers: the motor's physical parameters
/// (11–20), the sub-version (36), calibration (50–56), driver-board
/// readings (59–65) and position feedback (80, 81).
pub open spec fn is_read_only_id(rid: u8) -> bool {
    (11 <= rid <= 20) || rid == 36 || (50 <= rid <= 56) || (59 <= rid <= 65) || rid == 80 || rid == 81
}

/// True for the registers that hold a uint32: the CAN ids (7, 8), the
/// timeout (9), the control mode (10), versions and serial (13–16),
/// the bitrate code (35) and the sub-version (36).
pub open spec fn is_uint32_id(rid: u8) -> bool {
    (7 <= rid <= 10) || (13 <= rid <= 16) || rid == 35 || rid == 36
}

/// The table's shape: which ids have rows, which rows are read-only and
/// which hold a uint32; every row carries its own id.
pub proof fn lemma_register_table(rid: u8)
    ensures
        spec_register(rid) is Some <==> is_register_id(rid),
        spec_register(rid) matches Some(info) ==> {
            &&& info.rid == rid
            &&& (info.access == Access::ReadOnly <==> is_read_only_id(rid))
            &&& (info.data_type == DataType::Uint32 <==> is_uint32_id(rid))
        },
{
}

/// Look up a register definition by id, or `None` if `rid` isn't in the
/// manufacturer table.
pub fn lookup(rid: u8) -> (r: Option<RegisterInfo>)
    ensures
        r == spec_register(rid),
        r is Some <==> is_register_id(rid),
        r matches Some(info) ==> {
            &&& info.rid == rid
            &&& (info.access == Access::ReadOnly <==> is_read_only_id(rid))
            &&& (info.data_type == DataType::Uint32 <==> is_uint32_id(rid))
        },
{
    proof {
        lemma_register_table(rid);
    }
    table_row(rid)
}

/// The table row of `rid`.
#[verifier::rlimit(60)]
fn table_row(rid: u8) -> (r: Option<RegisterInfo>)
    ensures
        r == spec_register(rid),
{
    match rid {
        0 => Some(row(0, "UV_Value", "Under-voltage protection value", Access::ReadWrite, DataType::Float)),
        1 => Some(row(1, "KT_Value", "Torque coefficient", Access::ReadWrite, DataType::Float)),
        2 => Some(row(2, "OT_Value", "Over-temperature protection", Access::ReadWrite, DataType::Float)),
        3 => Some(row(3, "OC_Value", "Over-current protection", Access::ReadWrite, DataType::Float)),
        4 => Some(row(4, "ACC", "Acceleration", Access::ReadWrite, DataType::Float)),
        5 => Some(row(5, "DEC", "Deceleration", Access::ReadWrite, DataType::Float)),
        6 => Some(row(6, "MAX_SPD", "Maximum speed", Access::ReadWrite, DataType::Float)),
        7 => Some(row(7, "MST_ID", "Feedback (master) CAN id", Access::ReadWrite, DataType::Uint32)),
        8 => Some(row(8, "ESC_ID", "Receive (motor) CAN id", Access::ReadWrite, DataType::Uint32)),
        9 => Some(row(9, "TIMEOUT", "Timeout alarm (1 unit = 50 us)", Access::ReadWrite, DataType::Uint32)),
        10 => Some(row(10, "CTRL_MODE", "Control mode 1=MIT 2=POS_VEL 3=VEL 4=FORCE_POS", Access::ReadWrite, DataType::Uint32)),
        11 => Some(row(11, "Damp", "Viscous damping coefficient", Access::ReadOnly, DataType::Float)),
        12 => Some(row(12, "Inertia", "Moment of inertia", Access::ReadOnly, DataType::Float)),
        13 => Some(row(13, "hw_ver", "Hardware version (reserved)", Access::ReadOnly, DataType::Uint32)),
        14 => Some(row(14, "sw_ver", "Software version", Access::ReadOnly, DataType::Uint32)),
        15 => Some(row(15, "SN", "Serial number (reserved)", Access::ReadOnly, DataType::Uint32)),
        16 => Some(row(16, "NPP", "Motor pole pairs", Access::ReadOnly, DataType::Uint32)),
        17 => Some(row(17, "Rs", "Phase resistance", Access::ReadOnly, DataType::Float)),
        18 => Some(row(18, "Ls", "Phase inductance", Access::ReadOnly, DataType::Float)),
        19 => Some(row(19, "Flux", "Flux linkage", Access::ReadOnly, DataType::Float)),
        20 => Some(row(20, "Gr", "Gear reduction ratio", Access::ReadOnly, DataType::Float)),
        21 => Some(row(21, "PMAX", "Position mapping range", Access::ReadWrite, DataType::Float)),
        22 => Some(row(22, "VMAX", "Speed mapping range", Access::ReadWrite, DataType::Float)),
        23 => Some(row(23, "TMAX", "Torque mapping range", Access::ReadWrite, DataType::Float)),
        24 => Some(row(24, "I_BW", "Current loop bandwidth", Access::ReadWrite, DataType::Float)),
        25 => Some(row(25, "KP_ASR", "Speed loop Kp", Access::ReadWrite, DataType::Float)),
        26 => Some(row(26, "KI_ASR", "Speed loop Ki", Access::ReadWrite, DataType::Float)),
        27 => Some(row(27, "KP_APR", "Position loop Kp", Access::ReadWrite, DataType::Float)),
        28 => Some(row(28, "KI_APR", "Position loop Ki", Access::ReadWrite, DataType::Float)),
        29 => Some(row(29, "OV_Value", "Over-voltage protection", Access::ReadWrite, DataType::Float)),
        30 => Some(row(30, "GREF", "Gear torque efficiency", Access::ReadWrite, DataType::Float)),
        31 => Some(row(31, "Deta", "Speed loop damping", Access::ReadWrite, DataType::Float)),
        32 => Some(row(32, "V_BW", "Speed loop filter bandwidth", Access::ReadWrite, DataType::Float)),
        33 => Some(row(33, "IQ_c1", "Current loop enhancement", Access::ReadWrite, DataType::Float)),
        34 => Some(row(34, "VL_c1", "Speed loop enhancement", Access::ReadWrite, DataType::Float)),
        35 => Some(row(35, "can_br", "CAN baud rate code (0..4)", Access::ReadWrite, DataType::Uint32)),
        36 => Some(row(36, "sub_ver", "Sub-version number", Access::ReadOnly, DataType::Uint32)),
        50 => Some(row(50, "u_off", "U-phase offset", Access::ReadOnly, DataType::Float)),
        51 => Some(row(51, "v_off", "V-phase offset", Access::ReadOnly, DataType::Float)),
        52 => Some(row(52, "k1", "Compensation factor 1", Access::ReadOnly, DataType::Float)),
        53 => Some(row(53, "k2", "Compensation factor 2", Access::ReadOnly, DataType::Float)),
        54 => Some(row(54, "m_off", "Output-shaft angle offset", Access::ReadOnly, DataType::Float)),
        55 => Some(row(55, "dir", "Direction", Access::ReadOnly, DataType::Float)),
        56 => Some(row(56, "m_off_motor", "Motor-side angle offset", Access::ReadOnly, DataType::Float)),
        59 => Some(row(59, "Imax", "Driver board max current", Access::ReadOnly, DataType::Float)),
        60 => Some(row(60, "VBus", "Power supply voltage", Access::ReadOnly, DataType::Float)),
        61 => Some(row(61, "Tpcb", "Driver board temperature", Access::ReadOnly, DataType::Float)),
        62 => Some(row(62, "Tmtr", "Motor temperature", Access::ReadOnly, DataType::Float)),
        63 => Some(row(63, "Iu_off", "U-phase current offset", Access::ReadOnly, DataType::Float)),
        64 => Some(row(64, "Iv_off", "V-phase current offset", Access::ReadOnly, DataType::Float)),
        65 => Some(row(65, "Iw_off", "W-phase current offset", Access::ReadOnly, DataType::Float)),
        80 => Some(row(80, "p_m", "Motor position", Access::ReadOnly, DataType::Float)),
        81 => Some(row(81, "xout", "Output shaft position", Access::ReadOnly, DataType::Float)),
        _ => None,
    }
}

} // verus!
