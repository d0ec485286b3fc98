//! Byte-pair combination of axis readings.
//!
//! Each angular-rate axis is read as two independently addressable 8-bit
//! registers: a low byte and a high byte of one logical 16-bit
//! two's-complement reading. [`combine`] reconstructs the signed reading;
//! the per-axis register types in [`crate::gyro`] expose it from either
//! operand, and both directions are proven to give the identical result.

use crate::gyro::{OutXHigh, OutXLow, OutYHigh, OutYLow, OutZHigh, OutZLow};
use vstd::arithmetic::div_mod::{lemma_mod_sub_multiples_vanish, lemma_small_mod};
use vstd::prelude::*;

verus! {

/// The signed 16-bit reading whose low byte is `low` and whose high byte
/// is `high`, interpreted as two's complement: the value congruent to
/// `high * 256 + low` modulo 65536 that lies in `[-32768, 32768)`.
pub open spec fn spec_combine(low: u8, high: u8) -> int {
    if high >= 128 {
        high * 256 + low - 65536
    } else {
        high * 256 + low
    }
}

/// Reconstructs the signed 16-bit two's-complement reading from its low
/// and high bytes.
pub fn combine(low: u8, high: u8) -> (reading: i16)
    ensures
        reading == spec_combine(low, high),
{
    let wide: i32 = (high as i32) * 256 + (low as i32);
    if wide >= 32768 {
        (wide - 65536) as i16
    } else {
        wide as i16
    }
}

/// Law: the combined reading is the two's-complement interpretation of the
/// 16-bit pattern `high * 256 + low`: it lies in the signed 16-bit range
/// and is congruent to that pattern modulo 65536.
pub proof fn lemma_combine_twos_complement(low: u8, high: u8)
    ensures
        -32768 <= spec_combine(low, high) < 32768,
        spec_combine(low, high) % 65536 == high * 256 + low,
{
    let pattern = high * 256 + low;
    if high >= 128 {
        lemma_mod_sub_multiples_vanish(pattern, 65536);
    }
    lemma_small_mod(pattern as nat, 65536);
}

impl OutXLow {
    /// The signed X-axis reading formed with the matching high byte.
    /// Combining from either half gives the identical reading:
    /// [`OutXHigh::combine`] has the very same contract.
    pub fn combine(self, high: OutXHigh) -> (reading: i16)
        ensures
            reading == spec_combine(self.bits, high.bits),
    {
        combine(self.bits, high.bits)
    }
}

impl OutXHigh {
    /// The signed X-axis reading formed with the matching low byte.
    /// Combining from either half gives the identical reading:
    /// [`OutXLow::combine`] has the very same contract.
    pub fn combine(self, low: OutXLow) -> (reading: i16)
        ensures
            reading == spec_combine(low.bits, self.bits),
    {
        combine(low.bits, self.bits)
    }
}

impl OutYLow {
    /// The signed Y-axis reading formed with the matching high byte.
    /// Combining from either half gives the identical reading:
    /// [`OutYHigh::combine`] has the very same contract.
    pub fn combine(self, high: OutYHigh) -> (reading: i16)
        ensures
            reading == spec_combine(self.bits, high.bits),
    {
        combine(self.bits, high.bits)
    }
}

impl OutYHigh {
    /// The signed Y-axis reading formed with the matching low byte.
    /// Combining from either half gives the identical reading:
    /// [`OutYLow::combine`] has the very same contract.
    pub fn combine(self, low: OutYLow) -> (reading: i16)
        ensures
            reading == spec_combine(low.bits, self.bits),
    {
        combine(low.bits, self.bits)
    }
}

impl OutZLow {
    /// The signed Z-axis reading formed with the matching high byte.
    /// Combining from either half gives the identical reading:
    /// [`OutZHigh::combine`] has the very same contract.
    pub fn combine(self, high: OutZHigh) -> (reading: i16)
        ensures
            reading == spec_combine(self.bits, high.bits),
    {
        combine(self.bits, high.bits)
    }
}

impl OutZHigh {
    /// The signed Z-axis reading formed with the matching low byte.
    /// Combining from either half gives the identical reading:
    /// [`OutZLow::combine`] has the very same contract.
    pub fn combine(self, low: OutZLow) -> (reading: i16)
        ensures
            reading == spec_combine(low.bits, self.bits),
    {
        combine(low.bits, self.bits)
    }
}

} // verus!
