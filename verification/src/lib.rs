//! Register map of the L3GD20 MEMS gyroscope.
//!
//! Every hardware register of the device is a fixed-width byte subdivided
//! into named bit-fields. This crate provides:
//!
//! * the closed field enumerations (output data rate, bandwidth, high-pass
//!   mode, full-scale sensitivity, FIFO mode) with total, proven-exact
//!   encode/decode pairs ([`types`]);
//! * a typed view of each register with a proven round-tripping
//!   `into_bits` / `from_bits` pair, plus the register catalog mapping each
//!   register to its bus address and whole-register access mode ([`gyro`]);
//! * a data-driven bit-field codec: a register layout is a plain value
//!   (field offsets, widths, access tags) and one generic engine packs and
//!   unpacks any well-formed layout, with round-trip proofs ([`layout`]);
//! * the byte-pair combiner that rebuilds a signed 16-bit axis reading from
//!   the low and high output bytes, order-independent and sign-correct
//!   ([`conversions`]).
//!
//! All operations are pure computations over in-memory values; the bus
//! transaction itself (reading or writing a byte at an address) is left to
//! the caller.

pub mod conversions;
pub mod gyro;
pub mod layout;
pub mod types;

use vstd::prelude::*;

verus! {

/// The default I²C bus address of the device (SDO pin tied to ground).
///
/// The slave address is `110101xb`; the SDO pin selects the least
/// significant bit, so tying it to the voltage supply yields `0b0110_1011`
/// instead.
pub const DEFAULT_DEVICE_ADDRESS: u8 = 0b0110_1010;

} // verus!
