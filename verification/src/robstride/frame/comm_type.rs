//! `communication_type` values (5-bit field, top of the extended id).
//!
//! Names mirror the Robstride user manual.
use vstd::prelude::*;

verus! {

pub const GET_DEVICE_ID: u8 = 0;
pub const OPERATION_CONTROL: u8 = 1;
pub const OPERATION_STATUS: u8 = 2;
pub const ENABLE: u8 = 3;
pub const DISABLE: u8 = 4;
pub const SET_ZERO_POSITION: u8 = 6;
pub const SET_DEVICE_ID: u8 = 7;
pub const READ_PARAMETER: u8 = 17;
pub const WRITE_PARAMETER: u8 = 18;
pub const FAULT_REPORT: u8 = 21;
pub const SAVE_PARAMETERS: u8 = 22;
pub const SET_BAUDRATE: u8 = 23;
pub const ACTIVE_REPORT: u8 = 24;
pub const SET_PROTOCOL: u8 = 25;

} // verus!
