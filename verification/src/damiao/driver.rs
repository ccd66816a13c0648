//! Damiao framing, addressing, and the decisions of the command/register
//! protocol.
//!
//! * classic-CAN framing, 11-bit standard ids
//! * `0xFF FF FF FF FF FF FF Fx` enable / disable / set-zero / clear-error
//! * register read/write/save-flash/feedback-request frames on broadcast id
//!   `0x7FF`, and which received frame answers a register read
//! * the read / write / verify sequence that puts a motor in a control mode
use vstd::prelude::*;
use crate::transport::{spec_send_check, CanFrame, CanId};
use crate::wire::{le_u16, le_u32, le_u32_value, u16_to_le, u32_to_le};
use super::error::Error;
use super::modes::ControlMode;
use super::registers::{lookup, spec_register, Access, BaudRate, DataType, RegisterValue};

verus! {

/// Broadcast id used for register read/write/save/feedback-request frames.
pub const REGISTER_BROADCAST_ID: u16 = 0x7FF;
/// Register command: read.
pub const READ_CMD: u8 = 0x33;
/// Register command: write.
pub const WRITE_CMD: u8 = 0x55;
/// Register command: save parameters to flash.
pub const STORE_CMD: u8 = 0xAA;
/// Register command: request a status frame.
pub const FEEDBACK_REQ_CMD: u8 = 0xCC;

/// Last byte of the enable command.
pub const ENABLE_CODE: u8 = 0xFC;
/// Last byte of the disable command.
pub const DISABLE_CODE: u8 = 0xFD;
/// Last byte of the set-zero command.
pub const SET_ZERO_CODE: u8 = 0xFE;
/// Last byte of the clear-error command.
pub const CLEAR_ERROR_CODE: u8 = 0xFB;

/// Register 9: CAN timeout alarm, in units of 50 µs.
pub const CAN_TIMEOUT_RID: u8 = 9;
/// Register 10: control mode.
pub const CTRL_MODE_RID: u8 = 10;
/// Register 35: CAN bitrate code.
pub const CAN_BAUD_RID: u8 = 35;

/// Timeout-alarm register units per millisecond (1 unit = 50 µs).
pub const TIMEOUT_UNITS_PER_MS: u64 = 20;

/// `FF FF FF FF FF FF FF code`: the motor-state commands.
pub open spec fn spec_special_command(code: u8) -> Seq<u8> {
    seq![0xFFu8, 0xFFu8, 0xFFu8, 0xFFu8, 0xFFu8, 0xFFu8, 0xFFu8, code]
}

/// The payload of a motor-state command (enable, disable, set-zero,
/// clear-error) whose last byte is `code`.
pub fn special_command(code: u8) -> (r: [u8; 8])
    ensures
        r@ == spec_special_command(code),
{
    let r = [0xFF, 0xFF, 0xFF, 0xFF, 0xFF, 0xFF, 0xFF, code];
    assert(r@ =~= spec_special_command(code));
    r
}

/// The bytes of an 8-byte payload, as a `Vec`.
pub fn payload_vec(p: [u8; 8]) -> (v: Vec<u8>)
    ensures
        v@ == p@,
{
    let v = vec![p[0], p[1], p[2], p[3], p[4], p[5], p[6], p[7]];
    assert(v@ =~= p@);
    v
}

/// True when `f` is a classic frame with standard id `id` and data `data`.
pub open spec fn is_classic_frame(f: CanFrame, id: u16, data: Seq<u8>) -> bool {
    &&& f.id == CanId::Standard(id)
    &&& f.data@ == data
    &&& !f.fd
    &&& !f.brs
}

/// A command frame: `payload` sent classic on `arbitration_id` (low 11 bits).
pub fn command_frame(arbitration_id: u16, payload: [u8; 8]) -> (f: CanFrame)
    ensures
        is_classic_frame(f, arbitration_id & 0x7FF, payload@),
{
    CanFrame::classic(CanId::standard(arbitration_id), payload_vec(payload))
}

/// A register-protocol frame: `payload` sent classic on `0x7FF`.
pub fn register_frame(payload: [u8; 8]) -> (f: CanFrame)
    ensures
        is_classic_frame(f, REGISTER_BROADCAST_ID, payload@),
{
    let f = CanFrame::classic(CanId::Standard(REGISTER_BROADCAST_ID), payload_vec(payload));
    f
}

/// A register-protocol payload: the motor id little-endian, the command,
/// its argument, and 4 value bytes.
pub open spec fn spec_register_payload(motor_id: u16, cmd: u8, arg: u8, value: Seq<u8>) -> Seq<u8> {
    le_u16(motor_id) + seq![cmd, arg] + value
}

/// The payload of a register-protocol frame.
fn register_payload(motor_id: u16, cmd: u8, arg: u8, value: [u8; 4]) -> (r: [u8; 8])
    ensures
        r@ == spec_register_payload(motor_id, cmd, arg, value@),
{
    let m = u16_to_le(motor_id);
    let r = [m[0], m[1], cmd, arg, value[0], value[1], value[2], value[3]];
    assert(r@ =~= spec_register_payload(motor_id, cmd, arg, value@));
    r
}

/// Four zero bytes.
pub open spec fn zero4() -> Seq<u8> {
    seq![0u8, 0u8, 0u8, 0u8]
}

/// Read request for register `rid`: `id_lo id_hi 33 rid 00 00 00 00`.
pub fn read_request_payload(motor_id: u16, rid: u8) -> (r: [u8; 8])
    ensures
        r@ == spec_register_payload(motor_id, READ_CMD, rid, zero4()),
{
    let r = register_payload(motor_id, READ_CMD, rid, [0, 0, 0, 0]);
    assert([0u8, 0u8, 0u8, 0u8]@ =~= zero4());
    r
}

/// Write request for register `rid`: `id_lo id_hi 55 rid v0 v1 v2 v3`.
pub fn write_request_payload(motor_id: u16, rid: u8, value: [u8; 4]) -> (r: [u8; 8])
    ensures
        r@ == spec_register_payload(motor_id, WRITE_CMD, rid, value@),
{
    register_payload(motor_id, WRITE_CMD, rid, value)
}

/// Save-to-flash request: `id_lo id_hi AA 01 00 00 00 00`.
pub fn store_payload(motor_id: u16) -> (r: [u8; 8])
    ensures
        r@ == spec_register_payload(motor_id, STORE_CMD, 0x01, zero4()),
{
    let r = register_payload(motor_id, STORE_CMD, 0x01, [0, 0, 0, 0]);
    assert([0u8, 0u8, 0u8, 0u8]@ =~= zero4());
    r
}

/// Feedback request: `id_lo id_hi CC 00 00 00 00 00`.
pub fn feedback_request_payload(motor_id: u16) -> (r: [u8; 8])
    ensures
        r@ == spec_register_payload(motor_id, FEEDBACK_REQ_CMD, 0x00, zero4()),
{
    let r = register_payload(motor_id, FEEDBACK_REQ_CMD, 0x00, [0, 0, 0, 0]);
    assert([0u8, 0u8, 0u8, 0u8]@ =~= zero4());
    r
}

/// The frame that asks motor `motor_id` for its status.
pub fn feedback_request(motor_id: u16) -> (f: CanFrame)
    ensures
        is_classic_frame(
            f,
            REGISTER_BROADCAST_ID,
            spec_register_payload(motor_id, FEEDBACK_REQ_CMD, 0x00, zero4()),
        ),
{
    register_frame(feedback_request_payload(motor_id))
}

/// The frame that saves motor `motor_id`'s parameters to flash.
pub fn store_parameters_request(motor_id: u16) -> (f: CanFrame)
    ensures
        is_classic_frame(
            f,
            REGISTER_BROADCAST_ID,
            spec_register_payload(motor_id, STORE_CMD, 0x01, zero4()),
        ),
{
    register_frame(store_payload(motor_id))
}

/// The frame that reads register `rid` of motor `motor_id`, with the type
/// the reply's value is to be read as; `UnknownRegister` when the table has
/// no such register.
pub fn read_register_request(motor_id: u16, rid: u8) -> (r: Result<(CanFrame, DataType), Error>)
    ensures
        r is Ok <==> spec_register(rid) is Some,
        r matches Ok((f, t)) ==> {
            &&& is_classic_frame(
                f,
                REGISTER_BROADCAST_ID,
                spec_register_payload(motor_id, READ_CMD, rid, zero4()),
            )
            &&& t == spec_register(rid)->Some_0.data_type
        },
        r matches Err(e) ==> e matches Error::UnknownRegister(x) && x == rid,
{
    match lookup(rid) {
        None => Err(Error::UnknownRegister(rid)),
        Some(info) => Ok((register_frame(read_request_payload(motor_id, rid)), info.data_type)),
    }
}

/// True when `data` answers a read of register `rid`: 8 bytes, with the
/// read command echoed in byte 2 and `rid` in byte 3.
pub open spec fn is_register_reply(data: Seq<u8>, rid: u8) -> bool {
    data.len() == 8 && data[2] == READ_CMD && data[3] == rid
}

/// The 4 value bytes of `frame` if it answers a read of register `rid`;
/// `None` for any other frame (status replies, other registers' replies),
/// which the reader skips.
pub fn match_register_reply(frame: &CanFrame, rid: u8) -> (r: Option<[u8; 4]>)
    ensures
        r is Some <==> is_register_reply(frame.data@, rid),
        r is Some <==> (frame.data@.len() == 8 && frame.data@[2] == 0x33 && frame.data@[3] == rid),
        r matches Some(v) ==> v@ == frame.data@.subrange(4, 8),
{
    proof {
        lemma_register_reply_shape(frame.data@, rid);
    }
    if frame.data.len() == 8 && frame.data[2] == READ_CMD && frame.data[3] == rid {
        let v = [frame.data[4], frame.data[5], frame.data[6], frame.data[7]];
        assert(v@ =~= frame.data@.subrange(4, 8));
        Some(v)
    } else {
        None
    }
}

/// The error a write of `value` to register `rid` is refused with, if any:
/// unknown register, then read-only register, then type mismatch.
pub open spec fn spec_write_refusal(rid: u8, value: RegisterValue) -> Option<Error> {
    match spec_register(rid) {
        None => Some(Error::UnknownRegister(rid)),
        Some(info) => if info.access != Access::ReadWrite {
            Some(Error::ReadOnlyRegister(rid))
        } else if value.spec_data_type() != info.data_type {
            Some(Error::TypeMismatch { rid, expected: info.data_type, got: value.spec_data_type() })
        } else {
            None
        },
    }
}

/// The frame that writes `value` to register `rid` of motor `motor_id`.
/// Refused, with nothing to send, for a register that is not in the table,
/// is read-only, or holds another type than `value`.
pub fn write_register_request(motor_id: u16, rid: u8, value: RegisterValue) -> (r: Result<CanFrame, Error>)
    ensures
        r is Ok <==> spec_write_refusal(rid, value) is None,
        r matches Ok(f) ==> is_classic_frame(
            f,
            REGISTER_BROADCAST_ID,
            spec_register_payload(motor_id, WRITE_CMD, rid, le_u32(value.spec_bits())),
        ),
        r matches Err(e) ==> Some(e) == spec_write_refusal(rid, value),
{
    let info = match lookup(rid) {
        None => return Err(Error::UnknownRegister(rid)),
        Some(info) => info,
    };
    match info.access {
        Access::ReadWrite => {},
        Access::ReadOnly => return Err(Error::ReadOnlyRegister(rid)),
    }
    let got = value.data_type();
    let same = match (got, info.data_type) {
        (DataType::Float, DataType::Float) => true,
        (DataType::Uint32, DataType::Uint32) => true,
        _ => false,
    };
    if !same {
        return Err(Error::TypeMismatch { rid, expected: info.data_type, got });
    }
    Ok(register_frame(write_request_payload(motor_id, rid, value.to_le_bytes())))
}

/// Timeout-alarm register units for `timeout_ms` milliseconds (20 units per
/// millisecond), saturating at `u32::MAX`.
pub open spec fn spec_timeout_units(timeout_ms: u32) -> u32 {
    if timeout_ms * 20 > u32::MAX { u32::MAX } else { (timeout_ms * 20) as u32 }
}

/// Timeout-alarm register units for `timeout_ms` milliseconds.
pub fn timeout_units(timeout_ms: u32) -> (r: u32)
    ensures
        r == spec_timeout_units(timeout_ms),
{
    let units: u64 = timeout_ms as u64 * TIMEOUT_UNITS_PER_MS;
    if units > u32::MAX as u64 {
        u32::MAX
    } else {
        units as u32
    }
}

/// The frame that sets motor `motor_id`'s CAN timeout alarm (register 9)
/// to `timeout_ms` milliseconds.
pub fn set_can_timeout_request(motor_id: u16, timeout_ms: u32) -> (f: CanFrame)
    ensures
        is_classic_frame(
            f,
            REGISTER_BROADCAST_ID,
            spec_register_payload(motor_id, WRITE_CMD, CAN_TIMEOUT_RID, le_u32(spec_timeout_units(timeout_ms))),
        ),
{
    let units = timeout_units(timeout_ms);
    register_frame(write_request_payload(motor_id, CAN_TIMEOUT_RID, u32_to_le(units)))
}

/// The two frames that set motor `motor_id`'s CAN bitrate: the write of the
/// rate's code to register 35, then the save to flash. The new rate takes
/// effect after the motor reboots.
pub fn set_can_baud_rate_requests(motor_id: u16, baud: BaudRate) -> (r: (CanFrame, CanFrame))
    ensures
        is_classic_frame(
            r.0,
            REGISTER_BROADCAST_ID,
            spec_register_payload(motor_id, WRITE_CMD, CAN_BAUD_RID, le_u32(baud.spec_code() as u32)),
        ),
        is_classic_frame(
            r.1,
            REGISTER_BROADCAST_ID,
            spec_register_payload(motor_id, STORE_CMD, 0x01, zero4()),
        ),
{
    let code = baud.code() as u32;
    let w = register_frame(write_request_payload(motor_id, CAN_BAUD_RID, u32_to_le(code)));
    (w, store_parameters_request(motor_id))
}

/// Where the control-mode sequence stands: it has read the current mode,
/// or it has written the desired one and read back to verify.
#[derive(Debug, Clone, Copy, PartialEq, Eq, Structural)]
pub enum ModeSync {
    ReadCurrent,
    Verify,
}

/// What the control-mode sequence does next.
#[derive(Debug)]
pub enum ModeSyncAction {
    /// The motor is in the desired mode.
    Done,
    /// Write this value to register 10, wait, read register 10 again and
    /// continue from [`ModeSync::Verify`].
    Write(RegisterValue),
    /// Stop with this error.
    Fail(Error),
}

/// One step of putting a motor in `mode`, given the register-10 value just
/// read:
/// * a float readback fails with `TypeMismatch` (register 10 holds a uint32);
/// * after the first read, a motor already in `mode` is left alone, and any
///   other motor gets the mode's register value written;
/// * after the verifying read, a motor still not in `mode` fails with
///   `ControlModeVerifyFailed`, both values truncated to 8 bits.
pub fn control_mode_step(stage: ModeSync, mode: ControlMode, readback: RegisterValue) -> (a: ModeSyncAction)
    ensures
        readback is Float ==> (a matches ModeSyncAction::Fail(Error::TypeMismatch { rid, expected, got })
            && rid == CTRL_MODE_RID && expected == DataType::Uint32 && got == DataType::Float),
        readback == RegisterValue::Uint32(mode.spec_register_value()) ==> a is Done,
        (stage == ModeSync::ReadCurrent && readback is Uint32 && readback->Uint32_0
            != mode.spec_register_value()) ==> (a matches ModeSyncAction::Write(v)
            && v == RegisterValue::Uint32(mode.spec_register_value())),
        (stage == ModeSync::Verify && readback is Uint32 && readback->Uint32_0
            != mode.spec_register_value()) ==> (a matches ModeSyncAction::Fail(
            Error::ControlModeVerifyFailed { wrote, got },
        ) && wrote == mode.spec_register_value() as u8 && got == readback->Uint32_0 as u8),
{
    let desired = mode.register_value();
    match readback {
        RegisterValue::Float(_) => ModeSyncAction::Fail(
            Error::TypeMismatch { rid: CTRL_MODE_RID, expected: DataType::Uint32, got: DataType::Float },
        ),
        RegisterValue::Uint32(v) => {
            if v == desired {
                ModeSyncAction::Done
            } else {
                match stage {
                    ModeSync::ReadCurrent => ModeSyncAction::Write(RegisterValue::Uint32(desired)),
                    ModeSync::Verify => ModeSyncAction::Fail(
                        Error::ControlModeVerifyFailed { wrote: desired as u8, got: v as u8 },
                    ),
                }
            }
        },
    }
}


/// Every frame the Damiao protocol builds can go on the wire: a classic
/// frame of 8 bytes with an 11-bit standard id passes the transport's check.
pub proof fn lemma_protocol_frames_sendable(f: CanFrame, id: u16, data: Seq<u8>)
    requires
        is_classic_frame(f, id, data),
        id <= 0x7FF,
        data.len() == 8,
    ensures
        spec_send_check(f) is None,
{
}

/// A motor's answer to a read request — the request's first four bytes
/// echoed, then the 4-byte value — is recognized as the reply to that
/// register, carries the value, and is not taken for another register's.
pub proof fn lemma_read_reply_echo(motor_id: u16, rid: u8, other: u8, value: u32)
    requires
        other != rid,
    ensures
        ({
            let reply = spec_register_payload(motor_id, READ_CMD, rid, le_u32(value));
            &&& is_register_reply(reply, rid)
            &&& !is_register_reply(reply, other)
            &&& le_u32_value(reply.subrange(4, 8)) == value
            &&& reply.subrange(0, 4) == spec_register_payload(motor_id, READ_CMD, rid, zero4()).subrange(0, 4)
        }),
{
    let reply = spec_register_payload(motor_id, READ_CMD, rid, le_u32(value));
    assert(reply.subrange(4, 8) =~= le_u32(value));
    assert(reply.subrange(0, 4) =~= spec_register_payload(motor_id, READ_CMD, rid, zero4()).subrange(0, 4));
    crate::wire::lemma_le_u32_roundtrip(value);
}


/// A frame answers a read of register `rid` exactly when it has 8 bytes, the
/// read command `0x33` in byte 2 and `rid` in byte 3. So the echo of a write
/// (`0x55`), a save (`0xAA`) or a feedback request (`0xCC`) is never taken for
/// a read reply, whatever register it names.
pub proof fn lemma_register_reply_shape(d: Seq<u8>, rid: u8)
    ensures
        is_register_reply(d, rid) <==> (d.len() == 8 && d[2] == 0x33 && d[3] == rid),
        d.len() > 2 && d[2] != 0x33 ==> !is_register_reply(d, rid),
{
}

/// The frames of the other register commands are never read replies.
pub proof fn lemma_other_commands_not_replies(motor_id: u16, arg: u8, value: Seq<u8>, rid: u8)
    requires
        value.len() == 4,
    ensures
        !is_register_reply(spec_register_payload(motor_id, WRITE_CMD, arg, value), rid),
        !is_register_reply(spec_register_payload(motor_id, STORE_CMD, arg, value), rid),
        !is_register_reply(spec_register_payload(motor_id, FEEDBACK_REQ_CMD, arg, value), rid),
{
    assert(spec_register_payload(motor_id, WRITE_CMD, arg, value)[2] == 0x55);
    assert(spec_register_payload(motor_id, STORE_CMD, arg, value)[2] == 0xAA);
    assert(spec_register_payload(motor_id, FEEDBACK_REQ_CMD, arg, value)[2] == 0xCC);
}

} // verus!
