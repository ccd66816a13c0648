//! Robstride framing and the decisions of the command / parameter protocol:
//! which 29-bit id and payload each command goes out with, and what a
//! received frame means to a command waiting for its reply.
use vstd::prelude::*;
use crate::transport::{spec_send_check, CanFrame, CanId};
use crate::wire::{le_u16, le_u32, u16_to_le};
use super::error::Error;
use super::frame::{comm_type, decode, encode, spec_decode, spec_encode};
use super::mit::EncodedMit;
use super::parameters::{DataType, ParameterDef, ParameterValue};
use super::status::{spec_fault_report, spec_flags, FaultReport, StatusFlags};
use super::mit::{decode_fields, spec_status_fields, StatusFields};
use crate::wire::le_u32_value;

verus! {

/// Manufacturer recommends host_id > all device_ids; `0xFF` is the maximum.
pub const DEFAULT_HOST_ID: u16 = 0xFF;

/// Result of `ping` / `set_device_id`.
#[derive(Debug, Clone, Copy)]
pub struct DeviceInfo {
    pub device_id: u8,
    pub uuid: [u8; 8],
}

/// Eight zero bytes.
pub open spec fn zero8() -> Seq<u8> {
    seq![0u8, 0u8, 0u8, 0u8, 0u8, 0u8, 0u8, 0u8]
}

/// True when `f` is a classic frame with extended id `ext_id` and data `data`.
pub open spec fn is_extended_frame(f: CanFrame, ext_id: u32, data: Seq<u8>) -> bool {
    &&& f.id == CanId::Extended(ext_id)
    &&& f.data@ == data
    &&& !f.fd
    &&& !f.brs
}

/// The bytes of an 8-byte payload, as a `Vec`.
fn payload_vec(p: [u8; 8]) -> (v: Vec<u8>)
    ensures
        v@ == p@,
{
    let v = vec![p[0], p[1], p[2], p[3], p[4], p[5], p[6], p[7]];
    assert(v@ =~= p@);
    v
}

/// A command with no data (8 zero bytes): `comm` from `host_id` to
/// `motor_id`. Used for enable, disable, set-zero, ping and save.
pub fn simple_frame(comm: u8, host_id: u16, motor_id: u8) -> (f: CanFrame)
    ensures
        is_extended_frame(f, spec_encode(comm, host_id, motor_id), zero8()),
{
    let data = payload_vec([0, 0, 0, 0, 0, 0, 0, 0]);
    assert(data@ =~= zero8());
    CanFrame::classic(CanId::Extended(encode(comm, host_id, motor_id)), data)
}

/// The `OPERATION_CONTROL` frame of an encoded setpoint: the torque in the
/// id's `extra_data`, the rest in the payload.
pub fn operation_control_frame(enc: &EncodedMit, motor_id: u8) -> (f: CanFrame)
    ensures
        is_extended_frame(
            f,
            spec_encode(comm_type::OPERATION_CONTROL, enc.torque_extra, motor_id),
            enc.data@,
        ),
{
    CanFrame::classic(
        CanId::Extended(encode(comm_type::OPERATION_CONTROL, enc.torque_extra, motor_id)),
        payload_vec(enc.data),
    )
}

/// The `SET_DEVICE_ID` frame: the new id in the high byte of `extra_data`,
/// the low byte of `host_id` in its low byte.
pub fn set_device_id_frame(host_id: u16, motor_id: u8, new_id: u8) -> (f: CanFrame)
    ensures
        is_extended_frame(
            f,
            spec_encode(comm_type::SET_DEVICE_ID, (new_id * 0x100 + host_id % 0x100) as u16, motor_id),
            zero8(),
        ),
{
    let extra: u16 = new_id as u16 * 0x100 + host_id % 0x100;
    let data = payload_vec([0, 0, 0, 0, 0, 0, 0, 0]);
    assert(data@ =~= zero8());
    CanFrame::classic(CanId::Extended(encode(comm_type::SET_DEVICE_ID, extra, motor_id)), data)
}

/// The `READ_PARAMETER` payload: the parameter id little-endian, then zeros.
pub open spec fn spec_read_parameter_data(param_id: u16) -> Seq<u8> {
    le_u16(param_id) + seq![0u8, 0u8, 0u8, 0u8, 0u8, 0u8]
}

/// The `WRITE_PARAMETER` payload: the parameter id little-endian, two zero
/// bytes, then the 4-byte value field.
pub open spec fn spec_write_parameter_data(param_id: u16, value: ParameterValue) -> Seq<u8> {
    le_u16(param_id) + seq![0u8, 0u8] + le_u32(value.spec_word())
}

/// The frame that reads parameter `param`.
pub fn read_parameter_frame(host_id: u16, motor_id: u8, param: &ParameterDef) -> (f: CanFrame)
    ensures
        is_extended_frame(
            f,
            spec_encode(comm_type::READ_PARAMETER, host_id, motor_id),
            spec_read_parameter_data(param.id),
        ),
{
    let id = u16_to_le(param.id);
    let p = [id[0], id[1], 0, 0, 0, 0, 0, 0];
    assert(p@ =~= spec_read_parameter_data(param.id));
    CanFrame::classic(CanId::Extended(encode(comm_type::READ_PARAMETER, host_id, motor_id)), payload_vec(p))
}

/// The frame that writes `value` to parameter `param`; refused with
/// `TypeMismatch`, with nothing to send, when the value's type is not the
/// parameter's.
pub fn write_parameter_request(
    host_id: u16,
    motor_id: u8,
    param: &ParameterDef,
    value: ParameterValue,
) -> (r: Result<CanFrame, Error>)
    ensures
        r is Ok <==> value.spec_data_type() == param.data_type,
        r matches Ok(f) ==> is_extended_frame(
            f,
            spec_encode(comm_type::WRITE_PARAMETER, host_id, motor_id),
            spec_write_parameter_data(param.id, value),
        ),
        r matches Err(e) ==> (e matches Error::TypeMismatch { rid, expected, got } && rid == param.id
            && expected == param.data_type && got == value.spec_data_type()),
{
    let got = value.data_type();
    if !same_type(got, param.data_type) {
        return Err(Error::TypeMismatch { rid: param.id, expected: param.data_type, got });
    }
    let id = u16_to_le(param.id);
    let v = value.to_le_bytes();
    let p = [id[0], id[1], 0, 0, v[0], v[1], v[2], v[3]];
    assert(p@ =~= spec_write_parameter_data(param.id, value));
    Ok(CanFrame::classic(CanId::Extended(encode(comm_type::WRITE_PARAMETER, host_id, motor_id)), payload_vec(p)))
}

fn same_type(a: DataType, b: DataType) -> (r: bool)
    ensures
        r == (a == b),
{
    match (a, b) {
        (DataType::Uint8, DataType::Uint8) => true,
        (DataType::Int8, DataType::Int8) => true,
        (DataType::Uint16, DataType::Uint16) => true,
        (DataType::Int16, DataType::Int16) => true,
        (DataType::Uint32, DataType::Uint32) => true,
        (DataType::Int32, DataType::Int32) => true,
        (DataType::Float32, DataType::Float32) => true,
        _ => false,
    }
}

/// What a received frame means to a command waiting for a reply of
/// communication type `want`.
#[derive(Debug)]
pub enum ReplyStep {
    /// Unrelated traffic (a standard id, another motor's status, an active
    /// report, ...): keep waiting.
    Skip,
    /// The motor reported a fault: stop with it.
    Fault(FaultReport),
    /// The reply: its `extra_data` and its first 8 data bytes, zero-padded.
    Reply(u16, [u8; 8]),
}

/// The communication type of an extended-id frame.
pub open spec fn spec_comm(f: CanFrame) -> u8 {
    spec_decode(f.id.spec_raw()).0
}

/// True when `f` is a fault report.
pub open spec fn is_fault_frame(f: CanFrame) -> bool {
    f.id is Extended && spec_comm(f) == comm_type::FAULT_REPORT
}

/// The first 8 bytes of `d`, padded with zeros when `d` is shorter.
pub open spec fn spec_first8(d: Seq<u8>) -> Seq<u8> {
    Seq::new(8, |i: int| if i < d.len() { d[i] } else { 0u8 })
}

/// Classify a received frame for a command waiting for communication type
/// `want`: frames with a standard id are skipped; a fault report stops the
/// wait; a frame of type `want` is the reply; anything else is skipped.
pub fn reply_step(frame: &CanFrame, want: u8) -> (r: ReplyStep)
    requires
        is_fault_frame(*frame) ==> frame.data@.len() >= 8,
    ensures
        frame.id is Standard ==> r is Skip,
        is_fault_frame(*frame) ==> r == ReplyStep::Fault(spec_fault_report(
            le_u32_value(frame.data@.subrange(0, 4)),
            le_u32_value(frame.data@.subrange(4, 8)),
        )),
        (frame.id is Extended && !is_fault_frame(*frame) && spec_comm(*frame) == want) ==> (r matches ReplyStep::Reply(extra, data)
            && extra == spec_decode(frame.id.spec_raw()).1 && data@ == spec_first8(frame.data@)),
        (frame.id is Extended && !is_fault_frame(*frame) && spec_comm(*frame) != want) ==> r is Skip,
{
    let ext_id = match frame.id {
        CanId::Extended(v) => v,
        CanId::Standard(_) => return ReplyStep::Skip,
    };
    let (comm, extra, _low) = decode(ext_id);
    if comm == comm_type::FAULT_REPORT {
        return ReplyStep::Fault(FaultReport::from_data(frame.data.as_slice()));
    }
    if comm == want {
        let mut data: [u8; 8] = [0, 0, 0, 0, 0, 0, 0, 0];
        let n: usize = if frame.data.len() < 8 { frame.data.len() } else { 8 };
        let mut i: usize = 0;
        while i < n
            invariant
                0 <= i <= n,
                n <= 8,
                n <= frame.data@.len(),
                n == 8 || n == frame.data@.len(),
                forall|j: int| 0 <= j < i ==> data@[j] == frame.data@[j],
                forall|j: int| i <= j < 8 ==> data@[j] == 0u8,
            decreases n - i,
        {
            data[i] = frame.data[i];
            i = i + 1;
        }
        assert(data@ =~= spec_first8(frame.data@));
        return ReplyStep::Reply(extra, data);
    }
    ReplyStep::Skip
}

/// The device id and MCU UUID that a `GET_DEVICE_ID` reply carries: the low
/// byte of its `extra_data`, and its 8 data bytes.
pub fn device_info(extra: u16, data: [u8; 8]) -> (d: DeviceInfo)
    ensures
        d.device_id == extra % 0x100,
        d.uuid == data,
{
    DeviceInfo { device_id: (extra % 0x100) as u8, uuid: data }
}

/// The value of parameter `param` that a `READ_PARAMETER` reply carries in
/// bytes 4..8.
pub fn parameter_from_reply(param: &ParameterDef, data: [u8; 8]) -> (v: ParameterValue)
    ensures
        v == ParameterValue::spec_from_word(param.data_type, le_u32_value(data@.subrange(4, 8))),
{
    let b = [data[4], data[5], data[6], data[7]];
    assert(b@ =~= data@.subrange(4, 8));
    ParameterValue::from_le_bytes(param.data_type, b)
}


/// Every frame the Robstride protocol builds can go on the wire: a classic
/// frame of 8 bytes whose extended id is a packed 29-bit id passes the
/// transport's check.
pub proof fn lemma_protocol_frames_sendable(f: CanFrame, comm: u8, extra: u16, low: u8, data: Seq<u8>)
    requires
        is_extended_frame(f, spec_encode(comm, extra, low), data),
        data.len() == 8,
    ensures
        spec_send_check(f) is None,
{
}

/// What an `OPERATION_STATUS` reply carries besides the quantized state:
/// the replying device's id, and its warning flags.
#[derive(Debug, Clone, Copy)]
pub struct OperationStatusFields {
    pub fields: StatusFields,
    pub flags: StatusFlags,
    pub device_id: u8,
}

/// Read an `OPERATION_STATUS` reply: the device id is the low byte of
/// `extra_data`, the flags its bits 8..13, the state the payload's words.
pub fn operation_status_fields(extra: u16, data: [u8; 8]) -> (r: OperationStatusFields)
    ensures
        r.device_id == extra % 0x100,
        r.flags == spec_flags(extra),
        r.fields == spec_status_fields(data@),
{
    OperationStatusFields {
        fields: decode_fields(&data),
        flags: StatusFlags::from_extra(extra),
        device_id: (extra % 0x100) as u8,
    }
}

} // verus!
