//! Robstride RS-series motor protocol.
//!
//! Robstride motors use **29-bit extended ids**. The id is split into three
//! packed fields — see [`frame`] — and `OPERATION_CONTROL` carries its
//! torque setpoint in the id's `extra_data` field rather than the data
//! payload.
pub mod frame;
pub mod parameters;
pub mod driver;
pub mod error;
pub mod mit;
pub mod status;

pub use driver::DeviceInfo;
pub use error::Error;
