//! Damiao DM-series motor protocol.
//!
//! Damiao motors run on **classic CAN** at 1 Mbit. Each motor listens on its
//! own 11-bit standard id and replies on the configured master id with an
//! 8-byte status frame. This module holds the wire layouts (MIT payload,
//! control-mode payloads, register frames), the register table, the status
//! codes, and the decisions of the register protocol.
pub mod driver;
pub mod error;
pub mod mit;
pub mod modes;
pub mod registers;
pub mod status;

pub use error::Error;
pub use modes::ControlMode;
pub use registers::{Access, BaudRate, DataType, RegisterInfo, RegisterValue};
pub use status::MotorStatus;
