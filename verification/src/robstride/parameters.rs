//! Robstride parameter table (`READ_PARAMETER` / `WRITE_PARAMETER`).
//!
//! Each parameter is identified by a 16-bit id. Read/write frames carry
//! the id in bytes 0..2 of the data payload (little-endian); the value
//! occupies bytes 4..8 and is encoded per the parameter's `DataType`.
//!
//! Smaller types pad with zeros to fill 4 bytes:
//!
//! | DataType | layout (bytes 0..4 of value field)        |
//! |----------|-------------------------------------------|
//! | Uint8/Int8   | `[v, 0, 0, 0]`                        |
//! | Uint16/Int16 | `[v_lo, v_hi, 0, 0]` little-endian    |
//! | Uint32/Int32 | full 4 bytes little-endian            |
//! | Float32      | full 4 bytes little-endian            |
//!
//! A `Float32` value is held as the bit pattern of its IEEE-754 `f32`
//! (`f32::to_bits`), which is what goes on the wire.
use vstd::prelude::*;
use crate::wire::{le_u32, le_u32_value, u32_from_le, u32_to_le, lemma_le_u32_roundtrip};

verus! {

#[derive(Debug, Clone, Copy, PartialEq, Eq, Structural)]
pub enum DataType {
    Uint8,
    Int8,
    Uint16,
    Int16,
    Uint32,
    Int32,
    Float32,
}

#[derive(Debug, Clone, Copy)]
pub struct ParameterDef {
    pub id: u16,
    pub name: &'static str,
    pub data_type: DataType,
}

/// A typed parameter value. A `Float32` value is held as the bit pattern
/// of its IEEE-754 `f32` (`f32::to_bits`).
#[derive(Debug, Clone, Copy, PartialEq, Eq, Structural)]
pub enum ParameterValue {
    Uint8(u8),
    Int8(i8),
    Uint16(u16),
    Int16(i16),
    Uint32(u32),
    Int32(i32),
    Float32(u32),
}

/// Number of bytes a value of type `t` occupies in the 4-byte value field.
pub open spec fn width(t: DataType) -> nat {
    match t {
        DataType::Uint8 | DataType::Int8 => 1,
        DataType::Uint16 | DataType::Int16 => 2,
        _ => 4,
    }
}

/// The 32-bit word whose little-endian bytes carry a value of type `t`
/// read from `word`: the word cut to the type's width.
pub open spec fn spec_truncate(t: DataType, word: u32) -> u32 {
    match t {
        DataType::Uint8 | DataType::Int8 => word % 0x100,
        DataType::Uint16 | DataType::Int16 => word % 0x1_0000,
        _ => word,
    }
}

impl ParameterValue {
    /// The type tag of the value.
    pub open spec fn spec_data_type(self) -> DataType {
        match self {
            ParameterValue::Uint8(_) => DataType::Uint8,
            ParameterValue::Int8(_) => DataType::Int8,
            ParameterValue::Uint16(_) => DataType::Uint16,
            ParameterValue::Int16(_) => DataType::Int16,
            ParameterValue::Uint32(_) => DataType::Uint32,
            ParameterValue::Int32(_) => DataType::Int32,
            ParameterValue::Float32(_) => DataType::Float32,
        }
    }

    /// The 32-bit word the value is sent as: its two's-complement bits,
    /// zero-padded to 32 bits.
    pub open spec fn spec_word(self) -> u32 {
        match self {
            ParameterValue::Uint8(v) => v as u32,
            ParameterValue::Int8(v) => (v as u8) as u32,
            ParameterValue::Uint16(v) => v as u32,
            ParameterValue::Int16(v) => (v as u16) as u32,
            ParameterValue::Uint32(v) => v,
            ParameterValue::Int32(v) => v as u32,
            ParameterValue::Float32(v) => v,
        }
    }

    /// The value of type `t` whose word is `word` cut to the type's width.
    pub open spec fn spec_from_word(t: DataType, word: u32) -> ParameterValue {
        match t {
            DataType::Uint8 => ParameterValue::Uint8((word % 0x100) as u8),
            DataType::Int8 => ParameterValue::Int8((word % 0x100) as u8 as i8),
            DataType::Uint16 => ParameterValue::Uint16((word % 0x1_0000) as u16),
            DataType::Int16 => ParameterValue::Int16((word % 0x1_0000) as u16 as i16),
            DataType::Uint32 => ParameterValue::Uint32(word),
            DataType::Int32 => ParameterValue::Int32(word as i32),
            DataType::Float32 => ParameterValue::Float32(word),
        }
    }

    /// The type tag of the value.
    pub fn data_type(&self) -> (t: DataType)
        ensures
            t == self.spec_data_type(),
    {
        match self {
            ParameterValue::Uint8(_) => DataType::Uint8,
            ParameterValue::Int8(_) => DataType::Int8,
            ParameterValue::Uint16(_) => DataType::Uint16,
            ParameterValue::Int16(_) => DataType::Int16,
            ParameterValue::Uint32(_) => DataType::Uint32,
            ParameterValue::Int32(_) => DataType::Int32,
            ParameterValue::Float32(_) => DataType::Float32,
        }
    }

    /// The 4 bytes of the value field: little-endian, zero-padded.
    pub fn to_le_bytes(&self) -> (b: [u8; 4])
        ensures
            b@ == le_u32(self.spec_word()),
            self.spec_word() == spec_truncate(self.spec_data_type(), self.spec_word()),
    {
        let word: u32 = match self {
            ParameterValue::Uint8(v) => *v as u32,
            ParameterValue::Int8(v) => (*v as u8) as u32,
            ParameterValue::Uint16(v) => *v as u32,
            ParameterValue::Int16(v) => (*v as u16) as u32,
            ParameterValue::Uint32(v) => *v,
            ParameterValue::Int32(v) => *v as u32,
            ParameterValue::Float32(v) => *v,
        };
        u32_to_le(word)
    }

    /// The value of type `dtype` that the 4-byte value field carries; the
    /// bytes past the type's width are ignored.
    pub fn from_le_bytes(dtype: DataType, bytes: [u8; 4]) -> (v: Self)
        ensures
            v == Self::spec_from_word(dtype, le_u32_value(bytes@)),
            v.spec_data_type() == dtype,
            v.spec_word() == spec_truncate(dtype, le_u32_value(bytes@)),
    {
        let word = u32_from_le(bytes);
        let v = match dtype {
            DataType::Uint8 => ParameterValue::Uint8((word % 0x100) as u8),
            DataType::Int8 => ParameterValue::Int8((word % 0x100) as u8 as i8),
            DataType::Uint16 => ParameterValue::Uint16((word % 0x1_0000) as u16),
            DataType::Int16 => ParameterValue::Int16((word % 0x1_0000) as u16 as i16),
            DataType::Uint32 => ParameterValue::Uint32(word),
            DataType::Int32 => ParameterValue::Int32(word as i32),
            DataType::Float32 => ParameterValue::Float32(word),
        };
        proof {
            lemma_word_of_from_word(dtype, word);
        }
        v
    }

    /// The `f32` bit pattern of a `Float32` value.
    pub fn as_f32(&self) -> (r: Option<u32>)
        ensures
            r == (match self {
                ParameterValue::Float32(v) => Some(*v),
                _ => None,
            }),
    {
        if let ParameterValue::Float32(v) = self { Some(*v) } else { None }
    }

    /// The number of an `Int8` value.
    pub fn as_i8(&self) -> (r: Option<i8>)
        ensures
            r == (match self {
                ParameterValue::Int8(v) => Some(*v),
                _ => None,
            }),
    {
        if let ParameterValue::Int8(v) = self { Some(*v) } else { None }
    }

    /// The number of a `Uint8` value.
    pub fn as_u8(&self) -> (r: Option<u8>)
        ensures
            r == (match self {
                ParameterValue::Uint8(v) => Some(*v),
                _ => None,
            }),
    {
        if let ParameterValue::Uint8(v) = self { Some(*v) } else { None }
    }

    /// The number of a `Uint32` value.
    pub fn as_u32(&self) -> (r: Option<u32>)
        ensures
            r == (match self {
                ParameterValue::Uint32(v) => Some(*v),
                _ => None,
            }),
    {
        if let ParameterValue::Uint32(v) = self { Some(*v) } else { None }
    }
}

/// Reading a word as type `t` keeps exactly the type's width of it.
proof fn lemma_word_of_from_word(t: DataType, word: u32)
    ensures
        ParameterValue::spec_from_word(t, word).spec_word() == spec_truncate(t, word),
{
    let b = (word % 0x100) as u8;
    let h = (word % 0x1_0000) as u16;
    assert((b as i8) as u8 == b) by (bit_vector);
    assert((h as i16) as u16 == h) by (bit_vector);
    assert((word as i32) as u32 == word) by (bit_vector);
}

/// A value sent in the 4-byte field and read back as its own type is the
/// same value; bytes read as a type and sent again are the same bytes up to
/// the type's width.
pub proof fn lemma_parameter_value_roundtrip(v: ParameterValue, bytes: Seq<u8>)
    requires
        bytes.len() == 4,
    ensures
        ParameterValue::spec_from_word(v.spec_data_type(), le_u32_value(le_u32(v.spec_word()))) == v,
        le_u32(ParameterValue::spec_from_word(v.spec_data_type(), le_u32_value(bytes)).spec_word())
            == le_u32(spec_truncate(v.spec_data_type(), le_u32_value(bytes))),
{
    lemma_le_u32_roundtrip(v.spec_word());
    lemma_word_of_from_word(v.spec_data_type(), le_u32_value(bytes));
    match v {
        ParameterValue::Int8(x) => {
            assert(((x as u8) as u32) % 0x100 == (x as u8) as u32);
            assert(((x as u8) as i8) == x) by (bit_vector);
        },
        ParameterValue::Int16(x) => {
            assert(((x as u16) as u32) % 0x1_0000 == (x as u16) as u32);
            assert(((x as u16) as i16) == x) by (bit_vector);
        },
        ParameterValue::Int32(x) => {
            assert(((x as u32) as i32) == x) by (bit_vector);
        },
        _ => {},
    }
}

/// A table row.
pub open spec fn spec_p(id: u16, name: &'static str, data_type: DataType) -> ParameterDef {
    ParameterDef { id, name, data_type }
}

/// A table row.
pub fn p(id: u16, name: &'static str, data_type: DataType) -> (d: ParameterDef)
    ensures
        d == spec_p(id, name, data_type),
{
    ParameterDef { id, name, data_type }
}

// 0x2xxx range — calibration / mechanical; 0x3xxx range — measured
// (read-only telemetry); 0x7xxx range — control loop / setpoints.

/// `mechOffset` (0x2005).
pub fn mechanical_offset() -> (d: ParameterDef)
    ensures
        d == spec_p(0x2005, "mechOffset", DataType::Float32),
        spec_lookup(d.id) == Some(d),
{
    proof {
        lemma_lookup_finds_every_parameter(0);
    }
    p(0x2005, "mechOffset", DataType::Float32)
}

/// `mechPos` (0x3016).
pub fn measured_position() -> (d: ParameterDef)
    ensures
        d == spec_p(0x3016, "mechPos", DataType::Float32),
        spec_lookup(d.id) == Some(d),
{
    proof {
        lemma_lookup_finds_every_parameter(1);
    }
    p(0x3016, "mechPos", DataType::Float32)
}

/// `mechVel` (0x3017).
pub fn measured_velocity() -> (d: ParameterDef)
    ensures
        d == spec_p(0x3017, "mechVel", DataType::Float32),
        spec_lookup(d.id) == Some(d),
{
    proof {
        lemma_lookup_finds_every_parameter(2);
    }
    p(0x3017, "mechVel", DataType::Float32)
}

/// `torque_fdb` (0x302C).
pub fn measured_torque() -> (d: ParameterDef)
    ensures
        d == spec_p(0x302C, "torque_fdb", DataType::Float32),
        spec_lookup(d.id) == Some(d),
{
    proof {
        lemma_lookup_finds_every_parameter(3);
    }
    p(0x302C, "torque_fdb", DataType::Float32)
}

/// `run_mode` (0x7005).
pub fn mode() -> (d: ParameterDef)
    ensures
        d == spec_p(0x7005, "run_mode", DataType::Int8),
        spec_lookup(d.id) == Some(d),
{
    proof {
        lemma_lookup_finds_every_parameter(4);
    }
    p(0x7005, "run_mode", DataType::Int8)
}

/// `iq_ref` (0x7006).
pub fn iq_target() -> (d: ParameterDef)
    ensures
        d == spec_p(0x7006, "iq_ref", DataType::Float32),
        spec_lookup(d.id) == Some(d),
{
    proof {
        lemma_lookup_finds_every_parameter(5);
    }
    p(0x7006, "iq_ref", DataType::Float32)
}

/// `spd_ref` (0x700A).
pub fn velocity_target() -> (d: ParameterDef)
    ensures
        d == spec_p(0x700A, "spd_ref", DataType::Float32),
        spec_lookup(d.id) == Some(d),
{
    proof {
        lemma_lookup_finds_every_parameter(6);
    }
    p(0x700A, "spd_ref", DataType::Float32)
}

/// `limit_torque` (0x700B).
pub fn torque_limit() -> (d: ParameterDef)
    ensures
        d == spec_p(0x700B, "limit_torque", DataType::Float32),
        spec_lookup(d.id) == Some(d),
{
    proof {
        lemma_lookup_finds_every_parameter(7);
    }
    p(0x700B, "limit_torque", DataType::Float32)
}

/// `cur_kp` (0x7010).
pub fn current_kp() -> (d: ParameterDef)
    ensures
        d == spec_p(0x7010, "cur_kp", DataType::Float32),
        spec_lookup(d.id) == Some(d),
{
    proof {
        lemma_lookup_finds_every_parameter(8);
    }
    p(0x7010, "cur_kp", DataType::Float32)
}

/// `cur_ki` (0x7011).
pub fn current_ki() -> (d: ParameterDef)
    ensures
        d == spec_p(0x7011, "cur_ki", DataType::Float32),
        spec_lookup(d.id) == Some(d),
{
    proof {
        lemma_lookup_finds_every_parameter(9);
    }
    p(0x7011, "cur_ki", DataType::Float32)
}

/// `cur_filter_gain` (0x7014).
pub fn current_filter_gain() -> (d: ParameterDef)
    ensures
        d == spec_p(0x7014, "cur_filter_gain", DataType::Float32),
        spec_lookup(d.id) == Some(d),
{
    proof {
        lemma_lookup_finds_every_parameter(10);
    }
    p(0x7014, "cur_filter_gain", DataType::Float32)
}

/// `lof_ref` (0x7016).
pub fn position_target() -> (d: ParameterDef)
    ensures
        d == spec_p(0x7016, "lof_ref", DataType::Float32),
        spec_lookup(d.id) == Some(d),
{
    proof {
        lemma_lookup_finds_every_parameter(11);
    }
    p(0x7016, "lof_ref", DataType::Float32)
}

/// `limit_spd` (0x7017).
pub fn velocity_limit() -> (d: ParameterDef)
    ensures
        d == spec_p(0x7017, "limit_spd", DataType::Float32),
        spec_lookup(d.id) == Some(d),
{
    proof {
        lemma_lookup_finds_every_parameter(12);
    }
    p(0x7017, "limit_spd", DataType::Float32)
}

/// `limit_cur` (0x7018).
pub fn current_limit() -> (d: ParameterDef)
    ensures
        d == spec_p(0x7018, "limit_cur", DataType::Float32),
        spec_lookup(d.id) == Some(d),
{
    proof {
        lemma_lookup_finds_every_parameter(13);
    }
    p(0x7018, "limit_cur", DataType::Float32)
}

/// `mechPos` (0x7019).
pub fn mechanical_position() -> (d: ParameterDef)
    ensures
        d == spec_p(0x7019, "mechPos", DataType::Float32),
        spec_lookup(d.id) == Some(d),
{
    proof {
        lemma_lookup_finds_every_parameter(14);
    }
    p(0x7019, "mechPos", DataType::Float32)
}

/// `iqf` (0x701A).
pub fn iq_filtered() -> (d: ParameterDef)
    ensures
        d == spec_p(0x701A, "iqf", DataType::Float32),
        spec_lookup(d.id) == Some(d),
{
    proof {
        lemma_lookup_finds_every_parameter(15);
    }
    p(0x701A, "iqf", DataType::Float32)
}

/// `mechVel` (0x701B).
pub fn mechanical_velocity() -> (d: ParameterDef)
    ensures
        d == spec_p(0x701B, "mechVel", DataType::Float32),
        spec_lookup(d.id) == Some(d),
{
    proof {
        lemma_lookup_finds_every_parameter(16);
    }
    p(0x701B, "mechVel", DataType::Float32)
}

/// `VBUS` (0x701C).
pub fn vbus() -> (d: ParameterDef)
    ensures
        d == spec_p(0x701C, "VBUS", DataType::Float32),
        spec_lookup(d.id) == Some(d),
{
    proof {
        lemma_lookup_finds_every_parameter(17);
    }
    p(0x701C, "VBUS", DataType::Float32)
}

/// `loc_kp` (0x701E).
pub fn position_kp() -> (d: ParameterDef)
    ensures
        d == spec_p(0x701E, "loc_kp", DataType::Float32),
        spec_lookup(d.id) == Some(d),
{
    proof {
        lemma_lookup_finds_every_parameter(18);
    }
    p(0x701E, "loc_kp", DataType::Float32)
}

/// `spd_kp` (0x701F).
pub fn velocity_kp() -> (d: ParameterDef)
    ensures
        d == spec_p(0x701F, "spd_kp", DataType::Float32),
        spec_lookup(d.id) == Some(d),
{
    proof {
        lemma_lookup_finds_every_parameter(19);
    }
    p(0x701F, "spd_kp", DataType::Float32)
}

/// `spd_ki` (0x7020).
pub fn velocity_ki() -> (d: ParameterDef)
    ensures
        d == spec_p(0x7020, "spd_ki", DataType::Float32),
        spec_lookup(d.id) == Some(d),
{
    proof {
        lemma_lookup_finds_every_parameter(20);
    }
    p(0x7020, "spd_ki", DataType::Float32)
}

/// `spd_filter_gain` (0x7021).
pub fn velocity_filter_gain() -> (d: ParameterDef)
    ensures
        d == spec_p(0x7021, "spd_filter_gain", DataType::Float32),
        spec_lookup(d.id) == Some(d),
{
    proof {
        lemma_lookup_finds_every_parameter(21);
    }
    p(0x7021, "spd_filter_gain", DataType::Float32)
}

/// `acc_rad` (0x7022).
pub fn vel_acceleration_target() -> (d: ParameterDef)
    ensures
        d == spec_p(0x7022, "acc_rad", DataType::Float32),
        spec_lookup(d.id) == Some(d),
{
    proof {
        lemma_lookup_finds_every_parameter(22);
    }
    p(0x7022, "acc_rad", DataType::Float32)
}

/// `vel_max` (0x7024).
pub fn pp_velocity_max() -> (d: ParameterDef)
    ensures
        d == spec_p(0x7024, "vel_max", DataType::Float32),
        spec_lookup(d.id) == Some(d),
{
    proof {
        lemma_lookup_finds_every_parameter(23);
    }
    p(0x7024, "vel_max", DataType::Float32)
}

/// `acc_set` (0x7025).
pub fn pp_acceleration_target() -> (d: ParameterDef)
    ensures
        d == spec_p(0x7025, "acc_set", DataType::Float32),
        spec_lookup(d.id) == Some(d),
{
    proof {
        lemma_lookup_finds_every_parameter(24);
    }
    p(0x7025, "acc_set", DataType::Float32)
}

/// `EPScan_time` (0x7026).
pub fn epscan_time() -> (d: ParameterDef)
    ensures
        d == spec_p(0x7026, "EPScan_time", DataType::Uint16),
        spec_lookup(d.id) == Some(d),
{
    proof {
        lemma_lookup_finds_every_parameter(25);
    }
    p(0x7026, "EPScan_time", DataType::Uint16)
}

/// `canTimeout` (0x7028).
pub fn can_timeout() -> (d: ParameterDef)
    ensures
        d == spec_p(0x7028, "canTimeout", DataType::Uint32),
        spec_lookup(d.id) == Some(d),
{
    proof {
        lemma_lookup_finds_every_parameter(26);
    }
    p(0x7028, "canTimeout", DataType::Uint32)
}

/// `zero_sta` (0x7029).
pub fn zero_state() -> (d: ParameterDef)
    ensures
        d == spec_p(0x7029, "zero_sta", DataType::Uint8),
        spec_lookup(d.id) == Some(d),
{
    proof {
        lemma_lookup_finds_every_parameter(27);
    }
    p(0x7029, "zero_sta", DataType::Uint8)
}

/// Every parameter in the manufacturer table, in table order.
pub open spec fn spec_all_parameters() -> Seq<ParameterDef> {
    seq![
        spec_p(0x2005, "mechOffset", DataType::Float32),
        spec_p(0x3016, "mechPos", DataType::Float32),
        spec_p(0x3017, "mechVel", DataType::Float32),
        spec_p(0x302C, "torque_fdb", DataType::Float32),
        spec_p(0x7005, "run_mode", DataType::Int8),
        spec_p(0x7006, "iq_ref", DataType::Float32),
        spec_p(0x700A, "spd_ref", DataType::Float32),
        spec_p(0x700B, "limit_torque", DataType::Float32),
        spec_p(0x7010, "cur_kp", DataType::Float32),
        spec_p(0x7011, "cur_ki", DataType::Float32),
        spec_p(0x7014, "cur_filter_gain", DataType::Float32),
        spec_p(0x7016, "lof_ref", DataType::Float32),
        spec_p(0x7017, "limit_spd", DataType::Float32),
        spec_p(0x7018, "limit_cur", DataType::Float32),
        spec_p(0x7019, "mechPos", DataType::Float32),
        spec_p(0x701A, "iqf", DataType::Float32),
        spec_p(0x701B, "mechVel", DataType::Float32),
        spec_p(0x701C, "VBUS", DataType::Float32),
        spec_p(0x701E, "loc_kp", DataType::Float32),
        spec_p(0x701F, "spd_kp", DataType::Float32),
        spec_p(0x7020, "spd_ki", DataType::Float32),
        spec_p(0x7021, "spd_filter_gain", DataType::Float32),
        spec_p(0x7022, "acc_rad", DataType::Float32),
        spec_p(0x7024, "vel_max", DataType::Float32),
        spec_p(0x7025, "acc_set", DataType::Float32),
        spec_p(0x7026, "EPScan_time", DataType::Uint16),
        spec_p(0x7028, "canTimeout", DataType::Uint32),
        spec_p(0x7029, "zero_sta", DataType::Uint8),
    ]
}

/// Every parameter in the manufacturer table.
pub fn all_parameters() -> (t: Vec<ParameterDef>)
    ensures
        t@ == spec_all_parameters(),
{
    let t = vec![
        mechanical_offset(),
        measured_position(),
        measured_velocity(),
        measured_torque(),
        mode(),
        iq_target(),
        velocity_target(),
        torque_limit(),
        current_kp(),
        current_ki(),
        current_filter_gain(),
        position_target(),
        velocity_limit(),
        current_limit(),
        mechanical_position(),
        iq_filtered(),
        mechanical_velocity(),
        vbus(),
        position_kp(),
        velocity_kp(),
        velocity_ki(),
        velocity_filter_gain(),
        vel_acceleration_target(),
        pp_velocity_max(),
        pp_acceleration_target(),
        epscan_time(),
        can_timeout(),
        zero_state(),
    ];
    assert(t@ =~= spec_all_parameters());
    t
}

/// The first row of `table` with id `id`.
pub open spec fn spec_find(table: Seq<ParameterDef>, id: u16) -> Option<ParameterDef>
    decreases table.len(),
{
    if table.len() == 0 {
        None
    } else if table[0].id == id {
        Some(table[0])
    } else {
        spec_find(table.drop_first(), id)
    }
}

/// The parameter with id `id` in the manufacturer table.
pub open spec fn spec_lookup(id: u16) -> Option<ParameterDef> {
    spec_find(spec_all_parameters(), id)
}

/// Look up a parameter by id.
pub fn lookup(id: u16) -> (r: Option<ParameterDef>)
    ensures
        r == spec_lookup(id),
{
    let table = all_parameters();
    let mut i: usize = 0;
    assert(table@.skip(0) =~= table@);
    while i < table.len()
        invariant
            0 <= i <= table@.len(),
            table@ == spec_all_parameters(),
            spec_find(table@.skip(i as int), id) == spec_lookup(id),
        decreases table@.len() - i,
    {
        assert(table@.skip(i as int).drop_first() =~= table@.skip(i as int + 1));
        if table[i].id == id {
            return Some(table[i]);
        }
        i = i + 1;
    }
    assert(table@.skip(i as int).len() == 0);
    None
}


/// No two rows of the manufacturer table share an id.
pub proof fn lemma_parameter_ids_distinct()
    ensures
        forall|j: int, k: int|
            0 <= j < k < spec_all_parameters().len() ==> #[trigger] spec_all_parameters()[j].id
                != #[trigger] spec_all_parameters()[k].id,
{
    let t = spec_all_parameters();
    assert forall|j: int, k: int| 0 <= j < k < t.len() implies #[trigger] t[j].id != #[trigger] t[k].id by {
        assert(t[j].id < t[k].id);
    }
}

proof fn lemma_find_distinct(s: Seq<ParameterDef>, i: int)
    requires
        0 <= i < s.len(),
        forall|j: int, k: int| 0 <= j < k < s.len() ==> #[trigger] s[j].id != #[trigger] s[k].id,
    ensures
        spec_find(s, s[i].id) == Some(s[i]),
    decreases s.len(),
{
    if i > 0 {
        assert(s[0].id != s[i].id);
        let r = s.drop_first();
        assert forall|j: int, k: int| 0 <= j < k < r.len() implies #[trigger] r[j].id != #[trigger] r[k].id by {
            assert(r[j] == s[j + 1] && r[k] == s[k + 1]);
        }
        lemma_find_distinct(r, i - 1);
    }
}

/// Every parameter of the manufacturer table is found by its id.
pub proof fn lemma_lookup_finds_every_parameter(i: int)
    requires
        0 <= i < spec_all_parameters().len(),
    ensures
        spec_lookup(spec_all_parameters()[i].id) == Some(spec_all_parameters()[i]),
{
    lemma_parameter_ids_distinct();
    lemma_find_distinct(spec_all_parameters(), i);
}


/// Every named parameter is a row of the table, found by its own id: the
/// lookup of each id below gives exactly that parameter's definition.
pub proof fn lemma_named_parameters()
    ensures
        spec_lookup(0x2005) == Some(spec_p(0x2005, "mechOffset", DataType::Float32)),
        spec_lookup(0x3016) == Some(spec_p(0x3016, "mechPos", DataType::Float32)),
        spec_lookup(0x3017) == Some(spec_p(0x3017, "mechVel", DataType::Float32)),
        spec_lookup(0x302C) == Some(spec_p(0x302C, "torque_fdb", DataType::Float32)),
        spec_lookup(0x7005) == Some(spec_p(0x7005, "run_mode", DataType::Int8)),
        spec_lookup(0x7006) == Some(spec_p(0x7006, "iq_ref", DataType::Float32)),
        spec_lookup(0x700A) == Some(spec_p(0x700A, "spd_ref", DataType::Float32)),
        spec_lookup(0x700B) == Some(spec_p(0x700B, "limit_torque", DataType::Float32)),
        spec_lookup(0x7010) == Some(spec_p(0x7010, "cur_kp", DataType::Float32)),
        spec_lookup(0x7011) == Some(spec_p(0x7011, "cur_ki", DataType::Float32)),
        spec_lookup(0x7014) == Some(spec_p(0x7014, "cur_filter_gain", DataType::Float32)),
        spec_lookup(0x7016) == Some(spec_p(0x7016, "lof_ref", DataType::Float32)),
        spec_lookup(0x7017) == Some(spec_p(0x7017, "limit_spd", DataType::Float32)),
        spec_lookup(0x7018) == Some(spec_p(0x7018, "limit_cur", DataType::Float32)),
        spec_lookup(0x7019) == Some(spec_p(0x7019, "mechPos", DataType::Float32)),
        spec_lookup(0x701A) == Some(spec_p(0x701A, "iqf", DataType::Float32)),
        spec_lookup(0x701B) == Some(spec_p(0x701B, "mechVel", DataType::Float32)),
        spec_lookup(0x701C) == Some(spec_p(0x701C, "VBUS", DataType::Float32)),
        spec_lookup(0x701E) == Some(spec_p(0x701E, "loc_kp", DataType::Float32)),
        spec_lookup(0x701F) == Some(spec_p(0x701F, "spd_kp", DataType::Float32)),
        spec_lookup(0x7020) == Some(spec_p(0x7020, "spd_ki", DataType::Float32)),
        spec_lookup(0x7021) == Some(spec_p(0x7021, "spd_filter_gain", DataType::Float32)),
        spec_lookup(0x7022) == Some(spec_p(0x7022, "acc_rad", DataType::Float32)),
        spec_lookup(0x7024) == Some(spec_p(0x7024, "vel_max", DataType::Float32)),
        spec_lookup(0x7025) == Some(spec_p(0x7025, "acc_set", DataType::Float32)),
        spec_lookup(0x7026) == Some(spec_p(0x7026, "EPScan_time", DataType::Uint16)),
        spec_lookup(0x7028) == Some(spec_p(0x7028, "canTimeout", DataType::Uint32)),
        spec_lookup(0x7029) == Some(spec_p(0x7029, "zero_sta", DataType::Uint8)),
{
    lemma_lookup_finds_every_parameter(0);
    lemma_lookup_finds_every_parameter(1);
    lemma_lookup_finds_every_parameter(2);
    lemma_lookup_finds_every_parameter(3);
    lemma_lookup_finds_every_parameter(4);
    lemma_lookup_finds_every_parameter(5);
    lemma_lookup_finds_every_parameter(6);
    lemma_lookup_finds_every_parameter(7);
    lemma_lookup_finds_every_parameter(8);
    lemma_lookup_finds_every_parameter(9);
    lemma_lookup_finds_every_parameter(10);
    lemma_lookup_finds_every_parameter(11);
    lemma_lookup_finds_every_parameter(12);
    lemma_lookup_finds_every_parameter(13);
    lemma_lookup_finds_every_parameter(14);
    lemma_lookup_finds_every_parameter(15);
    lemma_lookup_finds_every_parameter(16);
    lemma_lookup_finds_every_parameter(17);
    lemma_lookup_finds_every_parameter(18);
    lemma_lookup_finds_every_parameter(19);
    lemma_lookup_finds_every_parameter(20);
    lemma_lookup_finds_every_parameter(21);
    lemma_lookup_finds_every_parameter(22);
    lemma_lookup_finds_every_parameter(23);
    lemma_lookup_finds_every_parameter(24);
    lemma_lookup_finds_every_parameter(25);
    lemma_lookup_finds_every_parameter(26);
    lemma_lookup_finds_every_parameter(27);
}


/// The word each value is sent as, in plain arithmetic: unsigned values as
/// they are, signed values in two's complement of their own width (a
/// negative `Int8` `x` as `x + 256`, `Int16` as `x + 65536`, `Int32` as
/// `x + 2^32`), floats as their bit pattern.
pub proof fn lemma_value_words(v: ParameterValue)
    ensures
        v matches ParameterValue::Uint8(x) ==> v.spec_word() == x,
        v matches ParameterValue::Int8(x) ==> v.spec_word() == (if x < 0 { x + 0x100 } else { x as int }),
        v matches ParameterValue::Uint16(x) ==> v.spec_word() == x,
        v matches ParameterValue::Int16(x) ==> v.spec_word() == (if x < 0 { x + 0x1_0000 } else { x as int }),
        v matches ParameterValue::Uint32(x) ==> v.spec_word() == x,
        v matches ParameterValue::Int32(x) ==> v.spec_word() == (if x < 0 { x + 0x1_0000_0000 } else { x as int }),
        v matches ParameterValue::Float32(x) ==> v.spec_word() == x,
{
    match v {
        ParameterValue::Int8(x) => {
            assert(x < 0 ==> (x as u8) as i16 == x as i16 + 256i16) by (bit_vector);
            assert(x >= 0 ==> (x as u8) as i16 == x as i16) by (bit_vector);
        },
        ParameterValue::Int16(x) => {
            assert(x < 0 ==> (x as u16) as i32 == x as i32 + 0x1_0000i32) by (bit_vector);
            assert(x >= 0 ==> (x as u16) as i32 == x as i32) by (bit_vector);
        },
        ParameterValue::Int32(x) => {
            assert(x < 0 ==> (x as u32) as i64 == x as i64 + 0x1_0000_0000i64) by (bit_vector);
            assert(x >= 0 ==> (x as u32) as i64 == x as i64) by (bit_vector);
        },
        _ => {},
    }
}

} // verus!
