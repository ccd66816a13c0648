//! Protocol library for CAN-bus actuator motors (Damiao, Robstride).
//!
//! * [`transport`] — CAN identifiers and frames, and the checks a frame must
//!   pass before a backend may put it on the wire.
//! * [`damiao`] — Damiao DM-series protocol: MIT payload bit layout, control
//!   modes, register table and register frames, status codes.
//! * [`robstride`] — Robstride RS-series protocol: 29-bit id layout,
//!   operation-control payload layout, parameter table, status words.
pub mod damiao;
pub mod robstride;
pub mod transport;
pub mod wire;
