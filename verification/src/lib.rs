//! Driver logic for an MPR-series digital pressure sensor on a shared
//! two-wire serial bus: the measurement trigger command, status-byte
//! validation, and conversion of 24-bit raw counts to calibrated pressure
//! values in a caller-selected unit.
//!
//! Pressure values are exact rationals over integers; an unverified front
//! end performs the bus transfers and the final floating-point division.

pub mod device;
pub mod pressure;
pub mod types;
