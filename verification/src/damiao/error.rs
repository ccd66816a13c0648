//! Damiao protocol errors. Wraps transport errors and adds protocol-level
//! cases (unknown register, read-only register, type mismatch, ...).
use vstd::prelude::*;
use crate::transport::CanError;
use super::registers::DataType;

verus! {

#[derive(Debug)]
pub enum Error {
    /// The transport failed.
    Transport(CanError),
    /// The register is not in the Damiao register table.
    UnknownRegister(u8),
    /// The register is read-only.
    ReadOnlyRegister(u8),
    /// The value's type is not the register's.
    TypeMismatch { rid: u8, expected: DataType, got: DataType },
    /// The reply's data did not match the register-reply pattern.
    UnexpectedReply(Vec<u8>),
    /// After writing the control mode, the motor reported another one.
    ControlModeVerifyFailed { wrote: u8, got: u8 },
}

} // verus!
