//! Types used in the gyroscope registers.
//!
//! Each multi-bit register field takes its values from a closed enumeration
//! bounded by the field's bit width. Every enumeration has a total encode
//! (`into_bits`) and decode (`from_bits`) pair, proven to round-trip
//! exactly: decoding an encoded variant restores the variant, and encoding
//! a decoded pattern restores the pattern.

use vstd::prelude::*;

verus! {

/// Gyroscope output data rate: the sampling frequency at which new
/// readings become available. A two-bit field.
#[derive(Debug, Clone, Copy, PartialEq, Eq, Structural)]
pub enum OutputDataRate {
    /// 95 Hz (`0b00`)
    Hz95,
    /// 190 Hz (`0b01`)
    Hz190,
    /// 380 Hz (`0b10`)
    Hz380,
    /// 760 Hz (`0b11`)
    Hz760,
}

impl OutputDataRate {
    /// The raw bit pattern of this variant.
    pub open spec fn spec_into_bits(self) -> u8 {
        match self {
            OutputDataRate::Hz95 => 0b00,
            OutputDataRate::Hz190 => 0b01,
            OutputDataRate::Hz380 => 0b10,
            OutputDataRate::Hz760 => 0b11,
        }
    }

    /// The variant denoted by a raw two-bit pattern.
    pub open spec fn spec_from_bits(value: u8) -> Self {
        if value == 0b00 {
            OutputDataRate::Hz95
        } else if value == 0b01 {
            OutputDataRate::Hz190
        } else if value == 0b10 {
            OutputDataRate::Hz380
        } else {
            OutputDataRate::Hz760
        }
    }

    /// Converts the value into an `u8`.
    pub fn into_bits(self) -> (bits: u8)
        ensures
            bits == self.spec_into_bits(),
            bits < 4,
    {
        match self {
            OutputDataRate::Hz95 => 0b00,
            OutputDataRate::Hz190 => 0b01,
            OutputDataRate::Hz380 => 0b10,
            OutputDataRate::Hz760 => 0b11,
        }
    }

    /// Decodes a raw pattern of the field's width. Total: every two-bit
    /// pattern denotes a variant.
    pub fn from_bits(value: u8) -> (r: Self)
        requires
            value < 4,
        ensures
            r == Self::spec_from_bits(value),
    {
        match value {
            0b00 => OutputDataRate::Hz95,
            0b01 => OutputDataRate::Hz190,
            0b10 => OutputDataRate::Hz380,
            _ => OutputDataRate::Hz760,
        }
    }

    /// Law: decoding the encoding of any variant yields the variant back.
    pub proof fn lemma_encode_decode(self)
        ensures
            Self::spec_from_bits(self.spec_into_bits()) == self,
    {
    }

    /// Law: every two-bit pattern decodes, and encoding the decoded variant
    /// restores the exact pattern.
    pub proof fn lemma_decode_encode(value: u8)
        requires
            value < 4,
        ensures
            Self::spec_from_bits(value).spec_into_bits() == value,
    {
    }
}

/// Low-pass filter bandwidth selection. A two-bit field; the bandwidth in
/// Hertz that each variant selects depends on the output data rate.
#[derive(Debug, Clone, Copy, PartialEq, Eq, Structural)]
pub enum Bandwidth {
    /// Selects the narrowest filter bandwidth (`0b00`):
    /// 12.5 Hz at 95 Hz, 12.5 Hz at 190 Hz, 20 Hz at 380 Hz, 30 Hz at 760 Hz.
    Narrowest,
    /// Selects a narrow filter bandwidth (`0b01`):
    /// 25 Hz at 95 Hz, 25 Hz at 190 Hz, 25 Hz at 380 Hz, 35 Hz at 760 Hz.
    Narrow,
    /// Selects a medium filter bandwidth (`0b10`):
    /// 25 Hz at 95 Hz, 50 Hz at 190 Hz, 50 Hz at 380 Hz, 50 Hz at 760 Hz.
    Medium,
    /// Selects a wide filter bandwidth (`0b11`):
    /// 25 Hz at 95 Hz, 70 Hz at 190 Hz, 100 Hz at 380 Hz, 100 Hz at 760 Hz.
    Wide,
}

impl Bandwidth {
    /// The raw bit pattern of this variant.
    pub open spec fn spec_into_bits(self) -> u8 {
        match self {
            Bandwidth::Narrowest => 0b00,
            Bandwidth::Narrow => 0b01,
            Bandwidth::Medium => 0b10,
            Bandwidth::Wide => 0b11,
        }
    }

    /// The variant denoted by a raw two-bit pattern.
    pub open spec fn spec_from_bits(value: u8) -> Self {
        if value == 0b00 {
            Bandwidth::Narrowest
        } else if value == 0b01 {
            Bandwidth::Narrow
        } else if value == 0b10 {
            Bandwidth::Medium
        } else {
            Bandwidth::Wide
        }
    }

    /// The filter bandwidth selected at the given output data rate,
    /// in tenths of a Hertz (so 12.5 Hz is 125).
    pub open spec fn spec_hz_tenths_at(self, odr: OutputDataRate) -> u16 {
        match self {
            Bandwidth::Narrowest => match odr {
                OutputDataRate::Hz95 => 125,
                OutputDataRate::Hz190 => 125,
                OutputDataRate::Hz380 => 200,
                OutputDataRate::Hz760 => 300,
            },
            Bandwidth::Narrow => match odr {
                OutputDataRate::Hz95 => 250,
                OutputDataRate::Hz190 => 250,
                OutputDataRate::Hz380 => 250,
                OutputDataRate::Hz760 => 350,
            },
            Bandwidth::Medium => match odr {
                OutputDataRate::Hz95 => 250,
                OutputDataRate::Hz190 => 500,
                OutputDataRate::Hz380 => 500,
                OutputDataRate::Hz760 => 500,
            },
            Bandwidth::Wide => match odr {
                OutputDataRate::Hz95 => 250,
                OutputDataRate::Hz190 => 700,
                OutputDataRate::Hz380 => 1000,
                OutputDataRate::Hz760 => 1000,
            },
        }
    }

    /// Determines the bandwidth at the given output data rate, in tenths of
    /// a Hertz (so 12.5 Hz is returned as 125).
    #[must_use]
    pub fn hz_tenths_at(&self, odr: OutputDataRate) -> (tenths: u16)
        ensures
            tenths == self.spec_hz_tenths_at(odr),
    {
        match self {
            Bandwidth::Narrowest => match odr {
                OutputDataRate::Hz95 => 125,
                OutputDataRate::Hz190 => 125,
                OutputDataRate::Hz380 => 200,
                OutputDataRate::Hz760 => 300,
            },
            Bandwidth::Narrow => match odr {
                OutputDataRate::Hz95 => 250,
                OutputDataRate::Hz190 => 250,
                OutputDataRate::Hz380 => 250,
                OutputDataRate::Hz760 => 350,
            },
            Bandwidth::Medium => match odr {
                OutputDataRate::Hz95 => 250,
                OutputDataRate::Hz190 => 500,
                OutputDataRate::Hz380 => 500,
                OutputDataRate::Hz760 => 500,
            },
            Bandwidth::Wide => match odr {
                OutputDataRate::Hz95 => 250,
                OutputDataRate::Hz190 => 700,
                OutputDataRate::Hz380 => 1000,
                OutputDataRate::Hz760 => 1000,
            },
        }
    }

    /// Converts the value into an `u8`.
    pub fn into_bits(self) -> (bits: u8)
        ensures
            bits == self.spec_into_bits(),
            bits < 4,
    {
        match self {
            Bandwidth::Narrowest => 0b00,
            Bandwidth::Narrow => 0b01,
            Bandwidth::Medium => 0b10,
            Bandwidth::Wide => 0b11,
        }
    }

    /// Decodes a raw pattern of the field's width. Total: every two-bit
    /// pattern denotes a variant.
    pub fn from_bits(value: u8) -> (r: Self)
        requires
            value < 4,
        ensures
            r == Self::spec_from_bits(value),
    {
        match value {
            0b00 => Bandwidth::Narrowest,
            0b01 => Bandwidth::Narrow,
            0b10 => Bandwidth::Medium,
            _ => Bandwidth::Wide,
        }
    }

    /// Law: decoding the encoding of any variant yields the variant back.
    pub proof fn lemma_encode_decode(self)
        ensures
            Self::spec_from_bits(self.spec_into_bits()) == self,
    {
    }

    /// Law: every two-bit pattern decodes, and encoding the decoded variant
    /// restores the exact pattern.
    pub proof fn lemma_decode_encode(value: u8)
        requires
            value < 4,
        ensures
            Self::spec_from_bits(value).spec_into_bits() == value,
    {
    }
}

/// High-pass filter mode. A two-bit field.
#[derive(Debug, Clone, Copy, PartialEq, Eq, Structural)]
pub enum HighpassFilterMode {
    /// Normal mode, resetting the filter on a reading of the reference (`0b00`)
    NormalModeResetFilter,
    /// Reference signal for filtering (`0b01`)
    ReferenceSignal,
    /// Normal mode (`0b10`)
    NormalMode,
    /// Autoreset on interrupt event (`0b11`)
    AutoresetOnInterrupt,
}

impl HighpassFilterMode {
    /// The raw bit pattern of this variant.
    pub open spec fn spec_into_bits(self) -> u8 {
        match self {
            HighpassFilterMode::NormalModeResetFilter => 0b00,
            HighpassFilterMode::ReferenceSignal => 0b01,
            HighpassFilterMode::NormalMode => 0b10,
            HighpassFilterMode::AutoresetOnInterrupt => 0b11,
        }
    }

    /// The variant denoted by a raw two-bit pattern.
    pub open spec fn spec_from_bits(value: u8) -> Self {
        if value == 0b00 {
            HighpassFilterMode::NormalModeResetFilter
        } else if value == 0b01 {
            HighpassFilterMode::ReferenceSignal
        } else if value == 0b10 {
            HighpassFilterMode::NormalMode
        } else {
            HighpassFilterMode::AutoresetOnInterrupt
        }
    }

    /// Converts the value into an `u8`.
    pub fn into_bits(self) -> (bits: u8)
        ensures
            bits == self.spec_into_bits(),
            bits < 4,
    {
        match self {
            HighpassFilterMode::NormalModeResetFilter => 0b00,
            HighpassFilterMode::ReferenceSignal => 0b01,
            HighpassFilterMode::NormalMode => 0b10,
            HighpassFilterMode::AutoresetOnInterrupt => 0b11,
        }
    }

    /// Decodes a raw pattern of the field's width. Total: every two-bit
    /// pattern denotes a variant.
    pub fn from_bits(value: u8) -> (r: Self)
        requires
            value < 4,
        ensures
            r == Self::spec_from_bits(value),
    {
        match value {
            0b00 => HighpassFilterMode::NormalModeResetFilter,
            0b01 => HighpassFilterMode::ReferenceSignal,
            0b10 => HighpassFilterMode::NormalMode,
            _ => HighpassFilterMode::AutoresetOnInterrupt,
        }
    }

    /// Law: decoding the encoding of any variant yields the variant back.
    pub proof fn lemma_encode_decode(self)
        ensures
            Self::spec_from_bits(self.spec_into_bits()) == self,
    {
    }

    /// Law: every two-bit pattern decodes, and encoding the decoded variant
    /// restores the exact pattern.
    pub proof fn lemma_decode_encode(value: u8)
        requires
            value < 4,
        ensures
            Self::spec_from_bits(value).spec_into_bits() == value,
    {
    }
}

/// Gyroscope sensitivity (full-scale selection): the maximum measurable
/// angular rate magnitude, trading range for resolution. A two-bit field.
///
/// The hardware defines two raw codes (`0b10` and `0b11`) that select the
/// same physical 2000 dps full scale. The two codes stay distinct variants
/// here so that decoding never collapses them and every code round-trips
/// through the exact raw pattern it came from.
#[derive(Debug, Clone, Copy, PartialEq, Eq, Structural)]
#[allow(non_camel_case_types)]
pub enum Sensitivity {
    /// 250 dps (`0b00`): 8.75 mdps/digit; ±10 dps at zero-rate level.
    D250,
    /// 500 dps (`0b01`): 17.50 mdps/digit; ±15 dps at zero-rate level.
    D500,
    /// 2000 dps (`0b10`): 70 mdps/digit; ±75 dps at zero-rate level.
    D2000,
    /// Same physical full scale as [`Sensitivity::D2000`], selected by the
    /// second raw code (`0b11`).
    D2000_11,
}

impl Sensitivity {
    /// The raw bit pattern of this variant.
    pub open spec fn spec_into_bits(self) -> u8 {
        match self {
            Sensitivity::D250 => 0b00,
            Sensitivity::D500 => 0b01,
            Sensitivity::D2000 => 0b10,
            Sensitivity::D2000_11 => 0b11,
        }
    }

    /// The variant denoted by a raw two-bit pattern.
    pub open spec fn spec_from_bits(value: u8) -> Self {
        if value == 0b00 {
            Sensitivity::D250
        } else if value == 0b01 {
            Sensitivity::D500
        } else if value == 0b10 {
            Sensitivity::D2000
        } else {
            Sensitivity::D2000_11
        }
    }

    /// Converts the value into an `u8`.
    pub fn into_bits(self) -> (bits: u8)
        ensures
            bits == self.spec_into_bits(),
            bits < 4,
    {
        match self {
            Sensitivity::D250 => 0b00,
            Sensitivity::D500 => 0b01,
            Sensitivity::D2000 => 0b10,
            Sensitivity::D2000_11 => 0b11,
        }
    }

    /// Decodes a raw pattern of the field's width. Total: every two-bit
    /// pattern denotes a variant, and the two synonymous full-scale codes
    /// decode to distinct variants.
    pub fn from_bits(value: u8) -> (r: Self)
        requires
            value < 4,
        ensures
            r == Self::spec_from_bits(value),
    {
        match value {
            0b00 => Sensitivity::D250,
            0b01 => Sensitivity::D500,
            0b10 => Sensitivity::D2000,
            _ => Sensitivity::D2000_11,
        }
    }

    /// Law: decoding the encoding of any variant yields the variant back.
    pub proof fn lemma_encode_decode(self)
        ensures
            Self::spec_from_bits(self.spec_into_bits()) == self,
    {
    }

    /// Law: every two-bit pattern decodes, and encoding the decoded variant
    /// restores the exact pattern.
    pub proof fn lemma_decode_encode(value: u8)
        requires
            value < 4,
        ensures
            Self::spec_from_bits(value).spec_into_bits() == value,
    {
    }
}

/// FIFO mode configuration. A three-bit field; the hardware defines five
/// of the eight raw patterns, and the remaining three are never produced
/// by the device.
#[derive(Debug, Clone, Copy, PartialEq, Eq, Structural)]
pub enum FifoMode {
    /// Bypass mode (`0b000`): bypass the FIFO and store data directly in
    /// the output registers.
    Bypass,
    /// FIFO mode (`0b001`)
    #[allow(clippy::upper_case_acronyms)]
    FIFO,
    /// Stream mode (`0b010`)
    Stream,
    /// Stream-to-FIFO mode (`0b011`)
    StreamToFifo,
    /// Bypass-to-Stream mode (`0b100`)
    BypassToStream,
}

impl FifoMode {
    /// The raw bit pattern of this variant.
    pub open spec fn spec_into_bits(self) -> u8 {
        match self {
            FifoMode::Bypass => 0b000,
            FifoMode::FIFO => 0b001,
            FifoMode::Stream => 0b010,
            FifoMode::StreamToFifo => 0b011,
            FifoMode::BypassToStream => 0b100,
        }
    }

    /// The variant denoted by a defined raw pattern.
    pub open spec fn spec_from_bits(value: u8) -> Self {
        if value == 0b000 {
            FifoMode::Bypass
        } else if value == 0b001 {
            FifoMode::FIFO
        } else if value == 0b010 {
            FifoMode::Stream
        } else if value == 0b011 {
            FifoMode::StreamToFifo
        } else {
            FifoMode::BypassToStream
        }
    }

    /// Converts the value into an `u8`.
    pub fn into_bits(self) -> (bits: u8)
        ensures
            bits == self.spec_into_bits(),
            bits < 5,
    {
        match self {
            FifoMode::Bypass => 0b000,
            FifoMode::FIFO => 0b001,
            FifoMode::Stream => 0b010,
            FifoMode::StreamToFifo => 0b011,
            FifoMode::BypassToStream => 0b100,
        }
    }

    /// Decodes a raw pattern. The hardware defines only the five patterns
    /// below `0b101`; the three remaining three-bit patterns denote no mode.
    pub fn from_bits(value: u8) -> (r: Self)
        requires
            value < 5,
        ensures
            r == Self::spec_from_bits(value),
    {
        match value {
            0b000 => FifoMode::Bypass,
            0b001 => FifoMode::FIFO,
            0b010 => FifoMode::Stream,
            0b011 => FifoMode::StreamToFifo,
            _ => FifoMode::BypassToStream,
        }
    }

    /// Law: decoding the encoding of any variant yields the variant back.
    pub proof fn lemma_encode_decode(self)
        ensures
            Self::spec_from_bits(self.spec_into_bits()) == self,
    {
    }

    /// Law: every defined pattern decodes, and encoding the decoded variant
    /// restores the exact pattern.
    pub proof fn lemma_decode_encode(value: u8)
        requires
            value < 5,
        ensures
            Self::spec_from_bits(value).spec_into_bits() == value,
    {
    }
}

} // verus!
