//! Robstride protocol errors.
use vstd::prelude::*;
use crate::transport::CanError;
use super::parameters::DataType;
use super::status::FaultReport;

verus! {

#[derive(Debug)]
pub enum Error {
    /// The transport failed.
    Transport(CanError),
    /// The motor answered with a fault report.
    FaultReport(FaultReport),
    /// A reply of another communication type came.
    UnexpectedCommType { got: u8, expected: u8 },
    /// The value's type is not the parameter's.
    TypeMismatch { rid: u16, expected: DataType, got: DataType },
    /// The reply could not be read.
    MalformedReply(&'static str),
}

} // verus!
