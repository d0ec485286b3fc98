//! Gyroscope registers.
//!
//! Each register is an eight-bit addressable location. This module is the
//! register catalog: the address, whole-register access mode and bit
//! layout of every register, together with one typed view per register —
//! a struct holding one value per bit-field — whose `into_bits` /
//! `from_bits` pair is proven to round-trip exactly.

use crate::layout::{
    lemma_extract_sum, lemma_split_bits, lemma_tiles_from_indexed, spec_encode_fields,
    CapabilityError, FieldAccess, FieldDescriptor, RegisterLayout,
};
use vstd::arithmetic::power2::lemma2_to64;
use crate::types::{Bandwidth, FifoMode, HighpassFilterMode, OutputDataRate, Sensitivity};
use vstd::prelude::*;

verus! {

/// The value of one bit, `1` for a set flag and `0` for a cleared one.
pub open spec fn spec_bit_val(b: bool) -> int {
    if b {
        1
    } else {
        0
    }
}

/// The raw sub-value of `value` whose least significant bit has place
/// value `place` and which spans `span` raw codes (so a two-bit field at
/// bit 4 has `place == 16` and `span == 4`).
pub open spec fn spec_sub_bits(value: u8, place: int, span: int) -> u8 {
    (((value as int) / place) % span) as u8
}

/// Whether the bit of `value` with place value `place` is set.
pub open spec fn spec_bit(value: u8, place: int) -> bool {
    ((value as int) / place) % 2 == 1
}

/// The contribution of the flag `flag` to a register byte, at place value
/// `place`.
fn flag_bits(flag: bool, place: u8) -> (r: u8)
    ensures
        r == spec_bit_val(flag) * place,
{
    if flag {
        place
    } else {
        0
    }
}

/// Whole-register access mode: whether the register may be written over
/// the bus or only read.
#[derive(Debug, Clone, Copy, PartialEq, Eq, Structural)]
pub enum AccessMode {
    /// The register reflects device state and must never be written.
    ReadOnly,
    /// The register may be both read and written.
    ReadWrite,
}

/// Register addresses specific to the gyroscope sensor.
///
/// See also [`crate::DEFAULT_DEVICE_ADDRESS`].
#[allow(non_camel_case_types)]
#[derive(Debug, Clone, Copy, PartialEq, Eq, Structural)]
pub enum RegisterAddress {
    /// See [`WhoAmI`]. Read-only.
    WHO_AM_I,
    /// See [`ControlRegister1`]. Read-write.
    CTRL_REG1,
    /// See [`ControlRegister2`]. Read-write.
    CTRL_REG2,
    /// See [`ControlRegister3`]. Read-write.
    CTRL_REG3,
    /// See [`ControlRegister4`]. Read-write.
    CTRL_REG4,
    /// See [`ControlRegister5`]. Read-write.
    CTRL_REG5,
    /// See [`ReferenceRegister`]. Read-write.
    REFERENCE,
    /// See [`TemperatureRegister`]. Read-only.
    OUT_TEMP,
    /// See [`StatusRegister`]. Read-only.
    STATUS_REG,
    /// See [`OutXLow`]. Read-only.
    OUT_X_L,
    /// See [`OutXHigh`]. Read-only.
    OUT_X_H,
    /// See [`OutYLow`]. Read-only.
    OUT_Y_L,
    /// See [`OutYHigh`]. Read-only.
    OUT_Y_H,
    /// See [`OutZLow`]. Read-only.
    OUT_Z_L,
    /// See [`OutZHigh`]. Read-only.
    OUT_Z_H,
    /// See [`FifoControlRegister`]. Read-write.
    FIFO_CTRL_REG,
    /// See [`FifoSourceRegister`]. Read-only.
    FIFO_SRC_REG,
    /// See [`Int1ConfigurationRegister`]. Read-write.
    INT1_CFG,
    /// See [`Int1SourceRegisterA`]. Read-only.
    INT1_SRC,
    /// See [`Int1ThresholdRegisterXH`]. Read-write.
    INT1_TSH_XH,
    /// See [`Int1ThresholdRegisterXL`]. Read-write.
    INT1_TSH_XL,
    /// See [`Int1ThresholdRegisterYH`]. Read-write.
    INT1_TSH_YH,
    /// See [`Int1ThresholdRegisterYL`]. Read-write.
    INT1_TSH_YL,
    /// See [`Int1ThresholdRegisterZH`]. Read-write.
    INT1_TSH_ZH,
    /// See [`Int1ThresholdRegisterZL`]. Read-write.
    INT1_TSH_ZL,
    /// See [`Int1DurationRegister`]. Read-write.
    INT1_DURATION,
}

impl RegisterAddress {
    /// The bus address of this register.
    pub open spec fn spec_addr(self) -> u8 {
        match self {
            RegisterAddress::WHO_AM_I => 0x0F,
            RegisterAddress::CTRL_REG1 => 0x20,
            RegisterAddress::CTRL_REG2 => 0x21,
            RegisterAddress::CTRL_REG3 => 0x22,
            RegisterAddress::CTRL_REG4 => 0x23,
            RegisterAddress::CTRL_REG5 => 0x24,
            RegisterAddress::REFERENCE => 0x25,
            RegisterAddress::OUT_TEMP => 0x26,
            RegisterAddress::STATUS_REG => 0x27,
            RegisterAddress::OUT_X_L => 0x28,
            RegisterAddress::OUT_X_H => 0x29,
            RegisterAddress::OUT_Y_L => 0x2A,
            RegisterAddress::OUT_Y_H => 0x2B,
            RegisterAddress::OUT_Z_L => 0x2C,
            RegisterAddress::OUT_Z_H => 0x2D,
            RegisterAddress::FIFO_CTRL_REG => 0x2E,
            RegisterAddress::FIFO_SRC_REG => 0x2F,
            RegisterAddress::INT1_CFG => 0x30,
            RegisterAddress::INT1_SRC => 0x31,
            RegisterAddress::INT1_TSH_XH => 0x32,
            RegisterAddress::INT1_TSH_XL => 0x33,
            RegisterAddress::INT1_TSH_YH => 0x34,
            RegisterAddress::INT1_TSH_YL => 0x35,
            RegisterAddress::INT1_TSH_ZH => 0x36,
            RegisterAddress::INT1_TSH_ZL => 0x37,
            RegisterAddress::INT1_DURATION => 0x38,
        }
    }

    /// Returns the address of a register.
    pub fn addr(&self) -> (address: u8)
        ensures
            address == self.spec_addr(),
    {
        match self {
            RegisterAddress::WHO_AM_I => 0x0F,
            RegisterAddress::CTRL_REG1 => 0x20,
            RegisterAddress::CTRL_REG2 => 0x21,
            RegisterAddress::CTRL_REG3 => 0x22,
            RegisterAddress::CTRL_REG4 => 0x23,
            RegisterAddress::CTRL_REG5 => 0x24,
            RegisterAddress::REFERENCE => 0x25,
            RegisterAddress::OUT_TEMP => 0x26,
            RegisterAddress::STATUS_REG => 0x27,
            RegisterAddress::OUT_X_L => 0x28,
            RegisterAddress::OUT_X_H => 0x29,
            RegisterAddress::OUT_Y_L => 0x2A,
            RegisterAddress::OUT_Y_H => 0x2B,
            RegisterAddress::OUT_Z_L => 0x2C,
            RegisterAddress::OUT_Z_H => 0x2D,
            RegisterAddress::FIFO_CTRL_REG => 0x2E,
            RegisterAddress::FIFO_SRC_REG => 0x2F,
            RegisterAddress::INT1_CFG => 0x30,
            RegisterAddress::INT1_SRC => 0x31,
            RegisterAddress::INT1_TSH_XH => 0x32,
            RegisterAddress::INT1_TSH_XL => 0x33,
            RegisterAddress::INT1_TSH_YH => 0x34,
            RegisterAddress::INT1_TSH_YL => 0x35,
            RegisterAddress::INT1_TSH_ZH => 0x36,
            RegisterAddress::INT1_TSH_ZL => 0x37,
            RegisterAddress::INT1_DURATION => 0x38,
        }
    }

    /// The whole-register access mode of this register.
    pub open spec fn spec_access_mode(self) -> AccessMode {
        match self {
            RegisterAddress::WHO_AM_I => AccessMode::ReadOnly,
            RegisterAddress::OUT_TEMP => AccessMode::ReadOnly,
            RegisterAddress::STATUS_REG => AccessMode::ReadOnly,
            RegisterAddress::OUT_X_L => AccessMode::ReadOnly,
            RegisterAddress::OUT_X_H => AccessMode::ReadOnly,
            RegisterAddress::OUT_Y_L => AccessMode::ReadOnly,
            RegisterAddress::OUT_Y_H => AccessMode::ReadOnly,
            RegisterAddress::OUT_Z_L => AccessMode::ReadOnly,
            RegisterAddress::OUT_Z_H => AccessMode::ReadOnly,
            RegisterAddress::FIFO_SRC_REG => AccessMode::ReadOnly,
            RegisterAddress::INT1_SRC => AccessMode::ReadOnly,
            _ => AccessMode::ReadWrite,
        }
    }

    /// The whole-register access mode of this register.
    pub fn access_mode(&self) -> (mode: AccessMode)
        ensures
            mode == self.spec_access_mode(),
    {
        match self {
            RegisterAddress::WHO_AM_I => AccessMode::ReadOnly,
            RegisterAddress::OUT_TEMP => AccessMode::ReadOnly,
            RegisterAddress::STATUS_REG => AccessMode::ReadOnly,
            RegisterAddress::OUT_X_L => AccessMode::ReadOnly,
            RegisterAddress::OUT_X_H => AccessMode::ReadOnly,
            RegisterAddress::OUT_Y_L => AccessMode::ReadOnly,
            RegisterAddress::OUT_Y_H => AccessMode::ReadOnly,
            RegisterAddress::OUT_Z_L => AccessMode::ReadOnly,
            RegisterAddress::OUT_Z_H => AccessMode::ReadOnly,
            RegisterAddress::FIFO_SRC_REG => AccessMode::ReadOnly,
            RegisterAddress::INT1_SRC => AccessMode::ReadOnly,
            _ => AccessMode::ReadWrite,
        }
    }

    /// Law: two register kinds never share a bus address.
    pub proof fn lemma_addresses_unique(a: Self, b: Self)
        ensures
            a.spec_addr() == b.spec_addr() ==> a == b,
    {
    }

    /// Builds a validated write request for this register, or rejects it
    /// with a capability error — before any bus write could be attempted —
    /// if and only if the register's access mode is read-only.
    pub fn write_operation(self, value: u8) -> (out: Result<WriteOperation, CapabilityError>)
        ensures
            match out {
                Ok(op) => self.spec_access_mode() is ReadWrite && op.address == self.spec_addr()
                    && op.value == value,
                Err(e) => self.spec_access_mode() is ReadOnly && e
                    == CapabilityError::WriteToReadOnly,
            },
    {
        match self.access_mode() {
            AccessMode::ReadWrite => Ok(WriteOperation { address: self.addr(), value }),
            AccessMode::ReadOnly => Err(CapabilityError::WriteToReadOnly),
        }
    }
}

impl From<RegisterAddress> for u8 {
    /// The bus address of the register.
    fn from(value: RegisterAddress) -> (r: u8)
        ensures
            r == value.spec_addr(),
    {
        value.addr()
    }
}

impl vstd::std_specs::convert::FromSpecImpl<RegisterAddress> for u8 {
    open spec fn obeys_from_spec() -> bool {
        true
    }

    open spec fn from_spec(value: RegisterAddress) -> Self {
        value.spec_addr()
    }
}

/// A validated write request: the bus address of a writable register and
/// the raw byte to store there. Constructed only through
/// [`RegisterAddress::write_operation`], which rejects read-only
/// registers.
#[derive(Debug, Clone, Copy, PartialEq, Eq, Structural)]
pub struct WriteOperation {
    /// The bus address to write to.
    pub address: u8,
    /// The raw register byte to store.
    pub value: u8,
}

/// [`CTRL_REG1`](RegisterAddress::CTRL_REG1) (20h)
#[derive(Debug, Clone, Copy, PartialEq, Eq, Structural)]
pub struct ControlRegister1 {
    /// Data rate selection (bits 7..6).
    pub output_data_rate: OutputDataRate,
    /// Bandwidth selection (bits 5..4).
    pub bandwidth: Bandwidth,
    /// Power mode (bit 3): `false` for power-down mode, `true` for normal
    /// or sleep mode. To enter sleep mode, disable the three axis enable
    /// flags.
    pub power_up: bool,
    /// Z-axis enable (bit 2).
    pub z_enable: bool,
    /// X-axis enable (bit 1).
    pub x_enable: bool,
    /// Y-axis enable (bit 0).
    pub y_enable: bool,
}

impl ControlRegister1 {
    /// The raw register byte this view encodes to.
    pub open spec fn spec_into_bits(self) -> int {
        self.output_data_rate.spec_into_bits() * 64 + self.bandwidth.spec_into_bits() * 16
            + spec_bit_val(self.power_up) * 8 + spec_bit_val(self.z_enable) * 4 + spec_bit_val(
            self.x_enable,
        ) * 2 + spec_bit_val(self.y_enable)
    }

    /// The typed view of a raw register byte.
    pub open spec fn spec_from_bits(value: u8) -> Self {
        ControlRegister1 {
            output_data_rate: OutputDataRate::spec_from_bits(spec_sub_bits(value, 64, 4)),
            bandwidth: Bandwidth::spec_from_bits(spec_sub_bits(value, 16, 4)),
            power_up: spec_bit(value, 8),
            z_enable: spec_bit(value, 4),
            x_enable: spec_bit(value, 2),
            y_enable: spec_bit(value, 1),
        }
    }

    /// The reset state of the register: all three axes enabled, lowest
    /// data rate, narrowest bandwidth, power-down mode.
    pub open spec fn spec_default() -> Self {
        ControlRegister1 {
            output_data_rate: OutputDataRate::Hz95,
            bandwidth: Bandwidth::Narrowest,
            power_up: false,
            z_enable: true,
            x_enable: true,
            y_enable: true,
        }
    }

    /// The catalog identity of this register: its entry in
    /// [`RegisterAddress`], carrying its bus address and access mode.
    pub fn register_address() -> (address: RegisterAddress)
        ensures
            address == RegisterAddress::CTRL_REG1,
    {
        RegisterAddress::CTRL_REG1
    }

    /// Creates the register view in its reset state.
    pub fn new() -> (r: Self)
        ensures
            r == Self::spec_default(),
    {
        ControlRegister1 {
            output_data_rate: OutputDataRate::Hz95,
            bandwidth: Bandwidth::Narrowest,
            power_up: false,
            z_enable: true,
            x_enable: true,
            y_enable: true,
        }
    }

    /// Packs the typed view into the raw register byte. Decoding the
    /// result restores this exact view.
    #[verifier::rlimit(50)]
    pub fn into_bits(self) -> (bits: u8)
        ensures
            bits == self.spec_into_bits(),
            Self::spec_from_bits(bits) == self,
    {
        let odr = self.output_data_rate.into_bits();
        let bw = self.bandwidth.into_bits();
        let bits: u8 = odr * 64 + bw * 16 + flag_bits(self.power_up, 8) + flag_bits(
            self.z_enable,
            4,
        ) + flag_bits(self.x_enable, 2) + flag_bits(self.y_enable, 1);
        proof {
            let v = bits as int;
            let o = odr as int;
            let b = bw as int;
            let p = spec_bit_val(self.power_up);
            let z = spec_bit_val(self.z_enable);
            let x = spec_bit_val(self.x_enable);
            let y = spec_bit_val(self.y_enable);
            lemma_extract_sum(v, 0, o, b * 16 + p * 8 + z * 4 + x * 2 + y, 64, 4);
            lemma_extract_sum(v, o, b, p * 8 + z * 4 + x * 2 + y, 16, 4);
            lemma_extract_sum(v, o * 4 + b, p, z * 4 + x * 2 + y, 8, 2);
            lemma_extract_sum(v, o * 8 + b * 2 + p, z, x * 2 + y, 4, 2);
            lemma_extract_sum(v, o * 16 + b * 4 + p * 2 + z, x, y, 2, 2);
            lemma_extract_sum(v, o * 32 + b * 8 + p * 4 + z * 2 + x, y, 0, 1, 2);
        }
        bits
    }

    /// Unpacks a raw register byte into the typed view. Defined for every
    /// byte; re-encoding the view restores the byte.
    pub fn from_bits(value: u8) -> (r: Self)
        ensures
            r == Self::spec_from_bits(value),
            r.spec_into_bits() == value,
    {
        proof {
            broadcast use crate::layout::lemma_div_mod_split;

            let v = value as int;
            lemma_split_bits(v, 64, 4);
            lemma_split_bits(v, 16, 4);
            lemma_split_bits(v, 8, 2);
            lemma_split_bits(v, 4, 2);
            lemma_split_bits(v, 2, 2);
        }
        ControlRegister1 {
            output_data_rate: OutputDataRate::from_bits(value / 64),
            bandwidth: Bandwidth::from_bits((value / 16) % 4),
            power_up: (value / 8) % 2 == 1,
            z_enable: (value / 4) % 2 == 1,
            x_enable: (value / 2) % 2 == 1,
            y_enable: value % 2 == 1,
        }
    }
}

/// [`WHO_AM_I`](RegisterAddress::WHO_AM_I) (0Fh)
#[derive(Debug, Clone, Copy, PartialEq, Eq, Structural)]
pub struct WhoAmI {
    /// The identification value (bits 7..0). The device always reports
    /// `0b11010100`. Read-only.
    pub ident: u8,
}

impl WhoAmI {
    /// The raw register byte this view encodes to.
    pub open spec fn spec_into_bits(self) -> int {
        self.ident as int
    }

    /// The typed view of a raw register byte.
    pub open spec fn spec_from_bits(value: u8) -> Self {
        WhoAmI { ident: value }
    }

    /// The catalog identity of this register: its entry in
    /// [`RegisterAddress`], carrying its bus address and access mode.
    pub fn register_address() -> (address: RegisterAddress)
        ensures
            address == RegisterAddress::WHO_AM_I,
    {
        RegisterAddress::WHO_AM_I
    }

    /// Creates the register view in its reset state.
    pub fn new() -> (r: Self)
        ensures
            r == (WhoAmI { ident: 0 }),
    {
        WhoAmI { ident: 0 }
    }

    /// Packs the typed view into the raw register byte. Decoding the
    /// result restores this exact view.
    pub fn into_bits(self) -> (bits: u8)
        ensures
            bits == self.spec_into_bits(),
            Self::spec_from_bits(bits) == self,
    {
        self.ident
    }

    /// Unpacks a raw register byte into the typed view. Defined for every
    /// byte; re-encoding the view restores the byte.
    pub fn from_bits(value: u8) -> (r: Self)
        ensures
            r == Self::spec_from_bits(value),
            r.spec_into_bits() == value,
    {
        WhoAmI { ident: value }
    }
}

/// [`CTRL_REG2`](RegisterAddress::CTRL_REG2) (21h)
///
/// Bits 7..6 are reserved and held at zero by the hardware.
#[derive(Debug, Clone, Copy, PartialEq, Eq, Structural)]
pub struct ControlRegister2 {
    /// High-pass filter mode selection (bits 5..4).
    pub hpm: HighpassFilterMode,
    /// High-pass filter cutoff frequency selection (bits 3..0).
    pub hpcf: u8,
}

impl ControlRegister2 {
    /// The view is representable: the four-bit cutoff selection fits its
    /// field.
    pub open spec fn wf(self) -> bool {
        self.hpcf < 16
    }

    /// The raw register byte this view encodes to; the reserved bits are
    /// forced to zero.
    pub open spec fn spec_into_bits(self) -> int {
        self.hpm.spec_into_bits() * 16 + self.hpcf
    }

    /// The typed view of a raw register byte; the reserved bits are
    /// discarded.
    pub open spec fn spec_from_bits(value: u8) -> Self {
        ControlRegister2 {
            hpm: HighpassFilterMode::spec_from_bits(spec_sub_bits(value, 16, 4)),
            hpcf: spec_sub_bits(value, 1, 16),
        }
    }

    /// The reserved bits of the raw byte sit at their fixed constant,
    /// zero.
    pub open spec fn spec_reserved_clear(value: u8) -> bool {
        value < 64
    }

    /// The catalog identity of this register: its entry in
    /// [`RegisterAddress`], carrying its bus address and access mode.
    pub fn register_address() -> (address: RegisterAddress)
        ensures
            address == RegisterAddress::CTRL_REG2,
    {
        RegisterAddress::CTRL_REG2
    }

    /// Creates the register view in its reset state.
    pub fn new() -> (r: Self)
        ensures
            r == (ControlRegister2 { hpm: HighpassFilterMode::NormalModeResetFilter, hpcf: 0 }),
    {
        ControlRegister2 { hpm: HighpassFilterMode::NormalModeResetFilter, hpcf: 0 }
    }

    /// Packs the typed view into the raw register byte, forcing the
    /// reserved bits to zero. Decoding the result restores this exact
    /// view.
    pub fn into_bits(self) -> (bits: u8)
        requires
            self.wf(),
        ensures
            bits == self.spec_into_bits(),
            Self::spec_from_bits(bits) == self,
            Self::spec_reserved_clear(bits),
    {
        let m = self.hpm.into_bits();
        let bits: u8 = m * 16 + self.hpcf;
        proof {
            let v = bits as int;
            lemma_extract_sum(v, 0, m as int, self.hpcf as int, 16, 4);
            lemma_extract_sum(v, m as int, self.hpcf as int, 0, 1, 16);
        }
        bits
    }

    /// Unpacks a raw register byte into the typed view, discarding the
    /// reserved bits. Defined for every byte; re-encoding the view
    /// restores the byte whenever its reserved bits were at their fixed
    /// constant.
    pub fn from_bits(value: u8) -> (r: Self)
        ensures
            r == Self::spec_from_bits(value),
            r.wf(),
            Self::spec_reserved_clear(value) ==> r.spec_into_bits() == value,
    {
        proof {
            broadcast use crate::layout::lemma_div_mod_split;

            let v = value as int;
            lemma_split_bits(v, 16, 4);
        }
        ControlRegister2 {
            hpm: HighpassFilterMode::from_bits((value / 16) % 4),
            hpcf: value % 16,
        }
    }
}

/// [`CTRL_REG3`](RegisterAddress::CTRL_REG3) (22h)
#[derive(Debug, Clone, Copy, PartialEq, Eq, Structural)]
pub struct ControlRegister3 {
    /// Interrupt enable on INT1 pin (bit 7).
    pub i1int1: bool,
    /// Boot status available on INT1 (bit 6).
    pub i1boot: bool,
    /// Interrupt active configuration on INT1 (bit 5): `false` for active
    /// high (default), `true` for active low.
    pub int1_low: bool,
    /// Push-pull / open drain selector (bit 4): `false` for push-pull
    /// (default), `true` for open drain.
    pub open_drain: bool,
    /// Data-ready on DRDY/INT2 (bit 3).
    pub i2drdy: bool,
    /// FIFO watermark interrupt on DRDY/INT2 (bit 2).
    pub i2wtm: bool,
    /// FIFO overrun interrupt on DRDY/INT2 (bit 1).
    pub i2orun: bool,
    /// FIFO empty interrupt on DRDY/INT2 (bit 0).
    pub i2empty: bool,
}

impl ControlRegister3 {
    /// The raw register byte this view encodes to.
    pub open spec fn spec_into_bits(self) -> int {
        spec_bit_val(self.i1int1) * 128 + spec_bit_val(self.i1boot) * 64 + spec_bit_val(
            self.int1_low,
        ) * 32 + spec_bit_val(self.open_drain) * 16 + spec_bit_val(self.i2drdy) * 8 + spec_bit_val(
            self.i2wtm,
        ) * 4 + spec_bit_val(self.i2orun) * 2 + spec_bit_val(self.i2empty)
    }

    /// The typed view of a raw register byte.
    pub open spec fn spec_from_bits(value: u8) -> Self {
        ControlRegister3 {
            i1int1: spec_bit(value, 128),
            i1boot: spec_bit(value, 64),
            int1_low: spec_bit(value, 32),
            open_drain: spec_bit(value, 16),
            i2drdy: spec_bit(value, 8),
            i2wtm: spec_bit(value, 4),
            i2orun: spec_bit(value, 2),
            i2empty: spec_bit(value, 1),
        }
    }

    /// The catalog identity of this register: its entry in
    /// [`RegisterAddress`], carrying its bus address and access mode.
    pub fn register_address() -> (address: RegisterAddress)
        ensures
            address == RegisterAddress::CTRL_REG3,
    {
        RegisterAddress::CTRL_REG3
    }

    /// Creates the register view in its reset state, all flags cleared.
    pub fn new() -> (r: Self)
        ensures
            r == Self::spec_from_bits(0),
    {
        ControlRegister3 {
            i1int1: false,
            i1boot: false,
            int1_low: false,
            open_drain: false,
            i2drdy: false,
            i2wtm: false,
            i2orun: false,
            i2empty: false,
        }
    }

    /// Packs the typed view into the raw register byte. Decoding the
    /// result restores this exact view.
    #[verifier::rlimit(100)]
    pub fn into_bits(self) -> (bits: u8)
        ensures
            bits == self.spec_into_bits(),
            Self::spec_from_bits(bits) == self,
    {
        let bits: u8 = flag_bits(self.i1int1, 128) + flag_bits(self.i1boot, 64) + flag_bits(
            self.int1_low,
            32,
        ) + flag_bits(self.open_drain, 16) + flag_bits(self.i2drdy, 8) + flag_bits(self.i2wtm, 4)
            + flag_bits(self.i2orun, 2) + flag_bits(self.i2empty, 1);
        proof {
            let v = bits as int;
            let a = spec_bit_val(self.i1int1);
            let b = spec_bit_val(self.i1boot);
            let c = spec_bit_val(self.int1_low);
            let d = spec_bit_val(self.open_drain);
            let e = spec_bit_val(self.i2drdy);
            let f = spec_bit_val(self.i2wtm);
            let g = spec_bit_val(self.i2orun);
            let h = spec_bit_val(self.i2empty);
            lemma_extract_sum(v, 0, a, b * 64 + c * 32 + d * 16 + e * 8 + f * 4 + g * 2 + h, 128, 2);
            lemma_extract_sum(v, a, b, c * 32 + d * 16 + e * 8 + f * 4 + g * 2 + h, 64, 2);
            lemma_extract_sum(v, a * 2 + b, c, d * 16 + e * 8 + f * 4 + g * 2 + h, 32, 2);
            lemma_extract_sum(v, a * 4 + b * 2 + c, d, e * 8 + f * 4 + g * 2 + h, 16, 2);
            lemma_extract_sum(v, a * 8 + b * 4 + c * 2 + d, e, f * 4 + g * 2 + h, 8, 2);
            lemma_extract_sum(v, a * 16 + b * 8 + c * 4 + d * 2 + e, f, g * 2 + h, 4, 2);
            lemma_extract_sum(v, a * 32 + b * 16 + c * 8 + d * 4 + e * 2 + f, g, h, 2, 2);
            lemma_extract_sum(v, a * 64 + b * 32 + c * 16 + d * 8 + e * 4 + f * 2 + g, h, 0, 1, 2);
        }
        bits
    }

    /// Unpacks a raw register byte into the typed view. Defined for every
    /// byte; re-encoding the view restores the byte.
    #[verifier::rlimit(50)]
    pub fn from_bits(value: u8) -> (r: Self)
        ensures
            r == Self::spec_from_bits(value),
            r.spec_into_bits() == value,
    {
        proof {
            broadcast use crate::layout::lemma_div_mod_split;

            let v = value as int;
            lemma_split_bits(v, 128, 2);
            lemma_split_bits(v, 64, 2);
            lemma_split_bits(v, 32, 2);
            lemma_split_bits(v, 16, 2);
            lemma_split_bits(v, 8, 2);
            lemma_split_bits(v, 4, 2);
            lemma_split_bits(v, 2, 2);
        }
        ControlRegister3 {
            i1int1: (value / 128) % 2 == 1,
            i1boot: (value / 64) % 2 == 1,
            int1_low: (value / 32) % 2 == 1,
            open_drain: (value / 16) % 2 == 1,
            i2drdy: (value / 8) % 2 == 1,
            i2wtm: (value / 4) % 2 == 1,
            i2orun: (value / 2) % 2 == 1,
            i2empty: value % 2 == 1,
        }
    }
}

/// [`CTRL_REG4`](RegisterAddress::CTRL_REG4) (23h)
///
/// Bits 3..1 are reserved and held at zero by the hardware.
#[derive(Debug, Clone, Copy, PartialEq, Eq, Structural)]
pub struct ControlRegister4 {
    /// Block data update (bit 7): `false` for continuous update, `true`
    /// to hold the output registers until both bytes are read.
    pub block_data_update: bool,
    /// Big/little endian data selection (bit 6): `false` for data LSB at
    /// the lower address, `true` for data MSB at the lower address.
    pub big_endian: bool,
    /// Full-scale selection (bits 5..4).
    pub full_scale: Sensitivity,
    /// SPI serial interface mode (bit 0): `false` for the 4-wire
    /// interface (default), `true` for the 3-wire interface.
    pub spi_serial_3wire: bool,
}

impl ControlRegister4 {
    /// The raw register byte this view encodes to; the reserved bits are
    /// forced to zero.
    pub open spec fn spec_into_bits(self) -> int {
        spec_bit_val(self.block_data_update) * 128 + spec_bit_val(self.big_endian) * 64
            + self.full_scale.spec_into_bits() * 16 + spec_bit_val(self.spi_serial_3wire)
    }

    /// The typed view of a raw register byte; the reserved bits are
    /// discarded.
    pub open spec fn spec_from_bits(value: u8) -> Self {
        ControlRegister4 {
            block_data_update: spec_bit(value, 128),
            big_endian: spec_bit(value, 64),
            full_scale: Sensitivity::spec_from_bits(spec_sub_bits(value, 16, 4)),
            spi_serial_3wire: spec_bit(value, 1),
        }
    }

    /// The reserved bits of the raw byte sit at their fixed constant,
    /// zero.
    pub open spec fn spec_reserved_clear(value: u8) -> bool {
        spec_sub_bits(value, 2, 8) == 0
    }

    /// The catalog identity of this register: its entry in
    /// [`RegisterAddress`], carrying its bus address and access mode.
    pub fn register_address() -> (address: RegisterAddress)
        ensures
            address == RegisterAddress::CTRL_REG4,
    {
        RegisterAddress::CTRL_REG4
    }

    /// Creates the register view in its reset state.
    pub fn new() -> (r: Self)
        ensures
            r == Self::spec_from_bits(0),
    {
        ControlRegister4 {
            block_data_update: false,
            big_endian: false,
            full_scale: Sensitivity::D250,
            spi_serial_3wire: false,
        }
    }

    /// Packs the typed view into the raw register byte, forcing the
    /// reserved bits to zero. Decoding the result restores this exact
    /// view.
    #[verifier::rlimit(50)]
    pub fn into_bits(self) -> (bits: u8)
        ensures
            bits == self.spec_into_bits(),
            Self::spec_from_bits(bits) == self,
            Self::spec_reserved_clear(bits),
    {
        let fs = self.full_scale.into_bits();
        let bits: u8 = flag_bits(self.block_data_update, 128) + flag_bits(self.big_endian, 64) + fs
            * 16 + flag_bits(self.spi_serial_3wire, 1);
        proof {
            let v = bits as int;
            let bd = spec_bit_val(self.block_data_update);
            let be = spec_bit_val(self.big_endian);
            let f = fs as int;
            let s = spec_bit_val(self.spi_serial_3wire);
            lemma_extract_sum(v, 0, bd, be * 64 + f * 16 + s, 128, 2);
            lemma_extract_sum(v, bd, be, f * 16 + s, 64, 2);
            lemma_extract_sum(v, bd * 2 + be, f, s, 16, 4);
            lemma_extract_sum(v, bd * 8 + be * 4 + f, 0, s, 2, 8);
            lemma_extract_sum(v, bd * 64 + be * 32 + f * 8, s, 0, 1, 2);
        }
        bits
    }

    /// Unpacks a raw register byte into the typed view, discarding the
    /// reserved bits. Defined for every byte; re-encoding the view
    /// restores the byte whenever its reserved bits were at their fixed
    /// constant.
    #[verifier::rlimit(50)]
    pub fn from_bits(value: u8) -> (r: Self)
        ensures
            r == Self::spec_from_bits(value),
            Self::spec_reserved_clear(value) ==> r.spec_into_bits() == value,
    {
        proof {
            broadcast use crate::layout::lemma_div_mod_split;

            let v = value as int;
            lemma_split_bits(v, 128, 2);
            lemma_split_bits(v, 64, 2);
            lemma_split_bits(v, 16, 4);
            lemma_split_bits(v, 2, 8);
        }
        ControlRegister4 {
            block_data_update: (value / 128) % 2 == 1,
            big_endian: (value / 64) % 2 == 1,
            full_scale: Sensitivity::from_bits((value / 16) % 4),
            spi_serial_3wire: value % 2 == 1,
        }
    }
}

/// [`CTRL_REG5`](RegisterAddress::CTRL_REG5) (24h)
///
/// Bit 5 is reserved and held at zero by the hardware.
#[derive(Debug, Clone, Copy, PartialEq, Eq, Structural)]
pub struct ControlRegister5 {
    /// Reboot memory content (bit 7).
    pub boot: bool,
    /// Enable FIFO (bit 6).
    pub fifo_enable: bool,
    /// High-pass filter enable (bit 4).
    pub hpen: bool,
    /// INT1 selection configuration (bits 3..2). See the datasheet.
    pub int1_sel: u8,
    /// Out selection configuration (bits 1..0). See the datasheet.
    pub out_sel: u8,
}

impl ControlRegister5 {
    /// The view is representable: both two-bit selections fit their
    /// fields.
    pub open spec fn wf(self) -> bool {
        self.int1_sel < 4 && self.out_sel < 4
    }

    /// The raw register byte this view encodes to; the reserved bit is
    /// forced to zero.
    pub open spec fn spec_into_bits(self) -> int {
        spec_bit_val(self.boot) * 128 + spec_bit_val(self.fifo_enable) * 64 + spec_bit_val(
            self.hpen,
        ) * 16 + self.int1_sel * 4 + self.out_sel
    }

    /// The typed view of a raw register byte; the reserved bit is
    /// discarded.
    pub open spec fn spec_from_bits(value: u8) -> Self {
        ControlRegister5 {
            boot: spec_bit(value, 128),
            fifo_enable: spec_bit(value, 64),
            hpen: spec_bit(value, 16),
            int1_sel: spec_sub_bits(value, 4, 4),
            out_sel: spec_sub_bits(value, 1, 4),
        }
    }

    /// The reserved bit of the raw byte sits at its fixed constant, zero.
    pub open spec fn spec_reserved_clear(value: u8) -> bool {
        spec_sub_bits(value, 32, 2) == 0
    }

    /// The catalog identity of this register: its entry in
    /// [`RegisterAddress`], carrying its bus address and access mode.
    pub fn register_address() -> (address: RegisterAddress)
        ensures
            address == RegisterAddress::CTRL_REG5,
    {
        RegisterAddress::CTRL_REG5
    }

    /// Creates the register view in its reset state.
    pub fn new() -> (r: Self)
        ensures
            r == Self::spec_from_bits(0),
    {
        ControlRegister5 { boot: false, fifo_enable: false, hpen: false, int1_sel: 0, out_sel: 0 }
    }

    /// Packs the typed view into the raw register byte, forcing the
    /// reserved bit to zero. Decoding the result restores this exact
    /// view.
    #[verifier::rlimit(50)]
    pub fn into_bits(self) -> (bits: u8)
        requires
            self.wf(),
        ensures
            bits == self.spec_into_bits(),
            Self::spec_from_bits(bits) == self,
            Self::spec_reserved_clear(bits),
    {
        let bits: u8 = flag_bits(self.boot, 128) + flag_bits(self.fifo_enable, 64) + flag_bits(
            self.hpen,
            16,
        ) + self.int1_sel * 4 + self.out_sel;
        proof {
            let v = bits as int;
            let b = spec_bit_val(self.boot);
            let f = spec_bit_val(self.fifo_enable);
            let h = spec_bit_val(self.hpen);
            let i = self.int1_sel as int;
            let o = self.out_sel as int;
            lemma_extract_sum(v, 0, b, f * 64 + h * 16 + i * 4 + o, 128, 2);
            lemma_extract_sum(v, b, f, h * 16 + i * 4 + o, 64, 2);
            lemma_extract_sum(v, b * 4 + f * 2, h, i * 4 + o, 16, 2);
            lemma_extract_sum(v, b * 2 + f, 0, h * 16 + i * 4 + o, 32, 2);
            lemma_extract_sum(v, b * 8 + f * 4 + h, i, o, 4, 4);
            lemma_extract_sum(v, b * 32 + f * 16 + h * 4 + i, o, 0, 1, 4);
        }
        bits
    }

    /// Unpacks a raw register byte into the typed view, discarding the
    /// reserved bit. Defined for every byte; re-encoding the view
    /// restores the byte whenever its reserved bit was at its fixed
    /// constant.
    #[verifier::rlimit(50)]
    pub fn from_bits(value: u8) -> (r: Self)
        ensures
            r == Self::spec_from_bits(value),
            r.wf(),
            Self::spec_reserved_clear(value) ==> r.spec_into_bits() == value,
    {
        proof {
            broadcast use crate::layout::lemma_div_mod_split;

            let v = value as int;
            lemma_split_bits(v, 128, 2);
            lemma_split_bits(v, 64, 2);
            lemma_split_bits(v, 32, 2);
            lemma_split_bits(v, 16, 2);
            lemma_split_bits(v, 4, 4);
        }
        ControlRegister5 {
            boot: (value / 128) % 2 == 1,
            fifo_enable: (value / 64) % 2 == 1,
            hpen: (value / 16) % 2 == 1,
            int1_sel: (value / 4) % 4,
            out_sel: value % 4,
        }
    }
}

/// Reference / data capture register: the reference value for interrupt
/// generation.
///
/// [`REFERENCE`](RegisterAddress::REFERENCE) (25h)
#[derive(Debug, Clone, Copy, PartialEq, Eq, Structural)]
pub struct ReferenceRegister {
    /// Reference value for interrupt generation (bits 7..0).
    pub reference: u8,
}

impl ReferenceRegister {
    /// The raw register byte this view encodes to.
    pub open spec fn spec_into_bits(self) -> int {
        self.reference as int
    }

    /// The typed view of a raw register byte.
    pub open spec fn spec_from_bits(value: u8) -> Self {
        ReferenceRegister { reference: value }
    }

    /// The catalog identity of this register: its entry in
    /// [`RegisterAddress`], carrying its bus address and access mode.
    pub fn register_address() -> (address: RegisterAddress)
        ensures
            address == RegisterAddress::REFERENCE,
    {
        RegisterAddress::REFERENCE
    }

    /// Creates the register view in its reset state.
    pub fn new() -> (r: Self)
        ensures
            r == (ReferenceRegister { reference: 0 }),
    {
        ReferenceRegister { reference: 0 }
    }

    /// Packs the typed view into the raw register byte. Decoding the
    /// result restores this exact view.
    pub fn into_bits(self) -> (bits: u8)
        ensures
            bits == self.spec_into_bits(),
            Self::spec_from_bits(bits) == self,
    {
        self.reference
    }

    /// Unpacks a raw register byte into the typed view. Defined for every
    /// byte; re-encoding the view restores the byte.
    pub fn from_bits(value: u8) -> (r: Self)
        ensures
            r == Self::spec_from_bits(value),
            r.spec_into_bits() == value,
    {
        ReferenceRegister { reference: value }
    }
}

/// [`OUT_TEMP`](RegisterAddress::OUT_TEMP) (26h)
#[derive(Debug, Clone, Copy, PartialEq, Eq, Structural)]
pub struct TemperatureRegister {
    /// Temperature data (bits 7..0), 1 LSB per degree at 8-bit
    /// resolution, expressed as two's complement and updated at 1 Hz.
    /// Read-only.
    pub temp: u8,
}

impl TemperatureRegister {
    /// The raw register byte this view encodes to.
    pub open spec fn spec_into_bits(self) -> int {
        self.temp as int
    }

    /// The typed view of a raw register byte.
    pub open spec fn spec_from_bits(value: u8) -> Self {
        TemperatureRegister { temp: value }
    }

    /// The catalog identity of this register: its entry in
    /// [`RegisterAddress`], carrying its bus address and access mode.
    pub fn register_address() -> (address: RegisterAddress)
        ensures
            address == RegisterAddress::OUT_TEMP,
    {
        RegisterAddress::OUT_TEMP
    }

    /// Creates the register view in its reset state.
    pub fn new() -> (r: Self)
        ensures
            r == (TemperatureRegister { temp: 0 }),
    {
        TemperatureRegister { temp: 0 }
    }

    /// Packs the typed view into the raw register byte. Decoding the
    /// result restores this exact view.
    pub fn into_bits(self) -> (bits: u8)
        ensures
            bits == self.spec_into_bits(),
            Self::spec_from_bits(bits) == self,
    {
        self.temp
    }

    /// Unpacks a raw register byte into the typed view. Defined for every
    /// byte; re-encoding the view restores the byte.
    pub fn from_bits(value: u8) -> (r: Self)
        ensures
            r == Self::spec_from_bits(value),
            r.spec_into_bits() == value,
    {
        TemperatureRegister { temp: value }
    }
}

/// [`STATUS_REG`](RegisterAddress::STATUS_REG) (27h)
#[derive(Debug, Clone, Copy, PartialEq, Eq, Structural)]
pub struct StatusRegister {
    /// X, Y, Z-axis data overrun (bit 7).
    pub zyx_overrun: bool,
    /// Z-axis data overrun (bit 6).
    pub z_overrun: bool,
    /// Y-axis data overrun (bit 5).
    pub y_overrun: bool,
    /// X-axis data overrun (bit 4).
    pub x_overrun: bool,
    /// X, Y, Z-axis data available (bit 3).
    pub zyx_da: bool,
    /// Z-axis data available (bit 2).
    pub z_da: bool,
    /// Y-axis data available (bit 1).
    pub y_da: bool,
    /// X-axis data available (bit 0).
    pub x_da: bool,
}

impl StatusRegister {
    /// The raw register byte this view encodes to.
    pub open spec fn spec_into_bits(self) -> int {
        spec_bit_val(self.zyx_overrun) * 128 + spec_bit_val(self.z_overrun) * 64 + spec_bit_val(
            self.y_overrun,
        ) * 32 + spec_bit_val(self.x_overrun) * 16 + spec_bit_val(self.zyx_da) * 8 + spec_bit_val(
            self.z_da,
        ) * 4 + spec_bit_val(self.y_da) * 2 + spec_bit_val(self.x_da)
    }

    /// The typed view of a raw register byte.
    pub open spec fn spec_from_bits(value: u8) -> Self {
        StatusRegister {
            zyx_overrun: spec_bit(value, 128),
            z_overrun: spec_bit(value, 64),
            y_overrun: spec_bit(value, 32),
            x_overrun: spec_bit(value, 16),
            zyx_da: spec_bit(value, 8),
            z_da: spec_bit(value, 4),
            y_da: spec_bit(value, 2),
            x_da: spec_bit(value, 1),
        }
    }

    /// The catalog identity of this register: its entry in
    /// [`RegisterAddress`], carrying its bus address and access mode.
    pub fn register_address() -> (address: RegisterAddress)
        ensures
            address == RegisterAddress::STATUS_REG,
    {
        RegisterAddress::STATUS_REG
    }

    /// Creates the register view in its reset state, all flags cleared.
    pub fn new() -> (r: Self)
        ensures
            r == Self::spec_from_bits(0),
    {
        StatusRegister {
            zyx_overrun: false,
            z_overrun: false,
            y_overrun: false,
            x_overrun: false,
            zyx_da: false,
            z_da: false,
            y_da: false,
            x_da: false,
        }
    }

    /// Packs the typed view into the raw register byte. Decoding the
    /// result restores this exact view.
    #[verifier::rlimit(100)]
    pub fn into_bits(self) -> (bits: u8)
        ensures
            bits == self.spec_into_bits(),
            Self::spec_from_bits(bits) == self,
    {
        let bits: u8 = flag_bits(self.zyx_overrun, 128) + flag_bits(self.z_overrun, 64)
            + flag_bits(self.y_overrun, 32) + flag_bits(self.x_overrun, 16) + flag_bits(
            self.zyx_da,
            8,
        ) + flag_bits(self.z_da, 4) + flag_bits(self.y_da, 2) + flag_bits(self.x_da, 1);
        proof {
            let v = bits as int;
            let a = spec_bit_val(self.zyx_overrun);
            let b = spec_bit_val(self.z_overrun);
            let c = spec_bit_val(self.y_overrun);
            let d = spec_bit_val(self.x_overrun);
            let e = spec_bit_val(self.zyx_da);
            let f = spec_bit_val(self.z_da);
            let g = spec_bit_val(self.y_da);
            let h = spec_bit_val(self.x_da);
            lemma_extract_sum(v, 0, a, b * 64 + c * 32 + d * 16 + e * 8 + f * 4 + g * 2 + h, 128, 2);
            lemma_extract_sum(v, a, b, c * 32 + d * 16 + e * 8 + f * 4 + g * 2 + h, 64, 2);
            lemma_extract_sum(v, a * 2 + b, c, d * 16 + e * 8 + f * 4 + g * 2 + h, 32, 2);
            lemma_extract_sum(v, a * 4 + b * 2 + c, d, e * 8 + f * 4 + g * 2 + h, 16, 2);
            lemma_extract_sum(v, a * 8 + b * 4 + c * 2 + d, e, f * 4 + g * 2 + h, 8, 2);
            lemma_extract_sum(v, a * 16 + b * 8 + c * 4 + d * 2 + e, f, g * 2 + h, 4, 2);
            lemma_extract_sum(v, a * 32 + b * 16 + c * 8 + d * 4 + e * 2 + f, g, h, 2, 2);
            lemma_extract_sum(v, a * 64 + b * 32 + c * 16 + d * 8 + e * 4 + f * 2 + g, h, 0, 1, 2);
        }
        bits
    }

    /// Unpacks a raw register byte into the typed view. Defined for every
    /// byte; re-encoding the view restores the byte.
    #[verifier::rlimit(50)]
    pub fn from_bits(value: u8) -> (r: Self)
        ensures
            r == Self::spec_from_bits(value),
            r.spec_into_bits() == value,
    {
        proof {
            broadcast use crate::layout::lemma_div_mod_split;

            let v = value as int;
            lemma_split_bits(v, 128, 2);
            lemma_split_bits(v, 64, 2);
            lemma_split_bits(v, 32, 2);
            lemma_split_bits(v, 16, 2);
            lemma_split_bits(v, 8, 2);
            lemma_split_bits(v, 4, 2);
            lemma_split_bits(v, 2, 2);
        }
        StatusRegister {
            zyx_overrun: (value / 128) % 2 == 1,
            z_overrun: (value / 64) % 2 == 1,
            y_overrun: (value / 32) % 2 == 1,
            x_overrun: (value / 16) % 2 == 1,
            zyx_da: (value / 8) % 2 == 1,
            z_da: (value / 4) % 2 == 1,
            y_da: (value / 2) % 2 == 1,
            x_da: value % 2 == 1,
        }
    }
}

/// [`OUT_X_L`](RegisterAddress::OUT_X_L) (28h)
///
/// Low byte of the 16-bit X-axis angular rate value. See [`OutXHigh`] for
/// the high byte. The registers are provided in little endian order: the
/// low byte has the lower register address and is read first.
#[derive(Debug, Clone, Copy, PartialEq, Eq, Structural)]
pub struct OutXLow {
    /// Low byte of the X-axis value (bits 7..0). Together with
    /// [`OutXHigh`] this forms a reading expressed in two's complement.
    pub bits: u8,
}

impl OutXLow {
    /// The raw register byte this view encodes to.
    pub open spec fn spec_into_bits(self) -> int {
        self.bits as int
    }

    /// The typed view of a raw register byte.
    pub open spec fn spec_from_bits(value: u8) -> Self {
        OutXLow { bits: value }
    }

    /// The catalog identity of this register: its entry in
    /// [`RegisterAddress`], carrying its bus address and access mode.
    pub fn register_address() -> (address: RegisterAddress)
        ensures
            address == RegisterAddress::OUT_X_L,
    {
        RegisterAddress::OUT_X_L
    }

    /// Creates the register view in its reset state.
    pub fn new() -> (r: Self)
        ensures
            r == (OutXLow { bits: 0 }),
    {
        OutXLow { bits: 0 }
    }

    /// Packs the typed view into the raw register byte. Decoding the
    /// result restores this exact view.
    pub fn into_bits(self) -> (bits: u8)
        ensures
            bits == self.spec_into_bits(),
            Self::spec_from_bits(bits) == self,
    {
        self.bits
    }

    /// Unpacks a raw register byte into the typed view. Defined for every
    /// byte; re-encoding the view restores the byte.
    pub fn from_bits(value: u8) -> (r: Self)
        ensures
            r == Self::spec_from_bits(value),
            r.spec_into_bits() == value,
    {
        OutXLow { bits: value }
    }
}

/// [`OUT_X_H`](RegisterAddress::OUT_X_H) (29h)
///
/// High byte of the 16-bit X-axis angular rate value. See [`OutXLow`] for
/// the low byte.
#[derive(Debug, Clone, Copy, PartialEq, Eq, Structural)]
pub struct OutXHigh {
    /// High byte of the X-axis value (bits 7..0). Together with
    /// [`OutXLow`] this forms a reading expressed in two's complement.
    pub bits: u8,
}

impl OutXHigh {
    /// The raw register byte this view encodes to.
    pub open spec fn spec_into_bits(self) -> int {
        self.bits as int
    }

    /// The typed view of a raw register byte.
    pub open spec fn spec_from_bits(value: u8) -> Self {
        OutXHigh { bits: value }
    }

    /// The catalog identity of this register: its entry in
    /// [`RegisterAddress`], carrying its bus address and access mode.
    pub fn register_address() -> (address: RegisterAddress)
        ensures
            address == RegisterAddress::OUT_X_H,
    {
        RegisterAddress::OUT_X_H
    }

    /// Creates the register view in its reset state.
    pub fn new() -> (r: Self)
        ensures
            r == (OutXHigh { bits: 0 }),
    {
        OutXHigh { bits: 0 }
    }

    /// Packs the typed view into the raw register byte. Decoding the
    /// result restores this exact view.
    pub fn into_bits(self) -> (bits: u8)
        ensures
            bits == self.spec_into_bits(),
            Self::spec_from_bits(bits) == self,
    {
        self.bits
    }

    /// Unpacks a raw register byte into the typed view. Defined for every
    /// byte; re-encoding the view restores the byte.
    pub fn from_bits(value: u8) -> (r: Self)
        ensures
            r == Self::spec_from_bits(value),
            r.spec_into_bits() == value,
    {
        OutXHigh { bits: value }
    }
}

/// [`OUT_Y_L`](RegisterAddress::OUT_Y_L) (2Ah)
///
/// Low byte of the 16-bit Y-axis angular rate value. See [`OutYHigh`] for
/// the high byte.
#[derive(Debug, Clone, Copy, PartialEq, Eq, Structural)]
pub struct OutYLow {
    /// Low byte of the Y-axis value (bits 7..0). Together with
    /// [`OutYHigh`] this forms a reading expressed in two's complement.
    pub bits: u8,
}

impl OutYLow {
    /// The raw register byte this view encodes to.
    pub open spec fn spec_into_bits(self) -> int {
        self.bits as int
    }

    /// The typed view of a raw register byte.
    pub open spec fn spec_from_bits(value: u8) -> Self {
        OutYLow { bits: value }
    }

    /// The catalog identity of this register: its entry in
    /// [`RegisterAddress`], carrying its bus address and access mode.
    pub fn register_address() -> (address: RegisterAddress)
        ensures
            address == RegisterAddress::OUT_Y_L,
    {
        RegisterAddress::OUT_Y_L
    }

    /// Creates the register view in its reset state.
    pub fn new() -> (r: Self)
        ensures
            r == (OutYLow { bits: 0 }),
    {
        OutYLow { bits: 0 }
    }

    /// Packs the typed view into the raw register byte. Decoding the
    /// result restores this exact view.
    pub fn into_bits(self) -> (bits: u8)
        ensures
            bits == self.spec_into_bits(),
            Self::spec_from_bits(bits) == self,
    {
        self.bits
    }

    /// Unpacks a raw register byte into the typed view. Defined for every
    /// byte; re-encoding the view restores the byte.
    pub fn from_bits(value: u8) -> (r: Self)
        ensures
            r == Self::spec_from_bits(value),
            r.spec_into_bits() == value,
    {
        OutYLow { bits: value }
    }
}

/// [`OUT_Y_H`](RegisterAddress::OUT_Y_H) (2Bh)
///
/// High byte of the 16-bit Y-axis angular rate value. See [`OutYLow`] for
/// the low byte.
#[derive(Debug, Clone, Copy, PartialEq, Eq, Structural)]
pub struct OutYHigh {
    /// High byte of the Y-axis value (bits 7..0). Together with
    /// [`OutYLow`] this forms a reading expressed in two's complement.
    pub bits: u8,
}

impl OutYHigh {
    /// The raw register byte this view encodes to.
    pub open spec fn spec_into_bits(self) -> int {
        self.bits as int
    }

    /// The typed view of a raw register byte.
    pub open spec fn spec_from_bits(value: u8) -> Self {
        OutYHigh { bits: value }
    }

    /// The catalog identity of this register: its entry in
    /// [`RegisterAddress`], carrying its bus address and access mode.
    pub fn register_address() -> (address: RegisterAddress)
        ensures
            address == RegisterAddress::OUT_Y_H,
    {
        RegisterAddress::OUT_Y_H
    }

    /// Creates the register view in its reset state.
    pub fn new() -> (r: Self)
        ensures
            r == (OutYHigh { bits: 0 }),
    {
        OutYHigh { bits: 0 }
    }

    /// Packs the typed view into the raw register byte. Decoding the
    /// result restores this exact view.
    pub fn into_bits(self) -> (bits: u8)
        ensures
            bits == self.spec_into_bits(),
            Self::spec_from_bits(bits) == self,
    {
        self.bits
    }

    /// Unpacks a raw register byte into the typed view. Defined for every
    /// byte; re-encoding the view restores the byte.
    pub fn from_bits(value: u8) -> (r: Self)
        ensures
            r == Self::spec_from_bits(value),
            r.spec_into_bits() == value,
    {
        OutYHigh { bits: value }
    }
}

/// [`OUT_Z_L`](RegisterAddress::OUT_Z_L) (2Ch)
///
/// Low byte of the 16-bit Z-axis angular rate value. See [`OutZHigh`] for
/// the high byte.
#[derive(Debug, Clone, Copy, PartialEq, Eq, Structural)]
pub struct OutZLow {
    /// Low byte of the Z-axis value (bits 7..0). Together with
    /// [`OutZHigh`] this forms a reading expressed in two's complement.
    pub bits: u8,
}

impl OutZLow {
    /// The raw register byte this view encodes to.
    pub open spec fn spec_into_bits(self) -> int {
        self.bits as int
    }

    /// The typed view of a raw register byte.
    pub open spec fn spec_from_bits(value: u8) -> Self {
        OutZLow { bits: value }
    }

    /// The catalog identity of this register: its entry in
    /// [`RegisterAddress`], carrying its bus address and access mode.
    pub fn register_address() -> (address: RegisterAddress)
        ensures
            address == RegisterAddress::OUT_Z_L,
    {
        RegisterAddress::OUT_Z_L
    }

    /// Creates the register view in its reset state.
    pub fn new() -> (r: Self)
        ensures
            r == (OutZLow { bits: 0 }),
    {
        OutZLow { bits: 0 }
    }

    /// Packs the typed view into the raw register byte. Decoding the
    /// result restores this exact view.
    pub fn into_bits(self) -> (bits: u8)
        ensures
            bits == self.spec_into_bits(),
            Self::spec_from_bits(bits) == self,
    {
        self.bits
    }

    /// Unpacks a raw register byte into the typed view. Defined for every
    /// byte; re-encoding the view restores the byte.
    pub fn from_bits(value: u8) -> (r: Self)
        ensures
            r == Self::spec_from_bits(value),
            r.spec_into_bits() == value,
    {
        OutZLow { bits: value }
    }
}

/// [`OUT_Z_H`](RegisterAddress::OUT_Z_H) (2Dh)
///
/// High byte of the 16-bit Z-axis angular rate value. See [`OutZLow`] for
/// the low byte.
#[derive(Debug, Clone, Copy, PartialEq, Eq, Structural)]
pub struct OutZHigh {
    /// High byte of the Z-axis value (bits 7..0). Together with
    /// [`OutZLow`] this forms a reading expressed in two's complement.
    pub bits: u8,
}

impl OutZHigh {
    /// The raw register byte this view encodes to.
    pub open spec fn spec_into_bits(self) -> int {
        self.bits as int
    }

    /// The typed view of a raw register byte.
    pub open spec fn spec_from_bits(value: u8) -> Self {
        OutZHigh { bits: value }
    }

    /// The catalog identity of this register: its entry in
    /// [`RegisterAddress`], carrying its bus address and access mode.
    pub fn register_address() -> (address: RegisterAddress)
        ensures
            address == RegisterAddress::OUT_Z_H,
    {
        RegisterAddress::OUT_Z_H
    }

    /// Creates the register view in its reset state.
    pub fn new() -> (r: Self)
        ensures
            r == (OutZHigh { bits: 0 }),
    {
        OutZHigh { bits: 0 }
    }

    /// Packs the typed view into the raw register byte. Decoding the
    /// result restores this exact view.
    pub fn into_bits(self) -> (bits: u8)
        ensures
            bits == self.spec_into_bits(),
            Self::spec_from_bits(bits) == self,
    {
        self.bits
    }

    /// Unpacks a raw register byte into the typed view. Defined for every
    /// byte; re-encoding the view restores the byte.
    pub fn from_bits(value: u8) -> (r: Self)
        ensures
            r == Self::spec_from_bits(value),
            r.spec_into_bits() == value,
    {
        OutZHigh { bits: value }
    }
}

/// [`FIFO_CTRL_REG`](RegisterAddress::FIFO_CTRL_REG) (2Eh)
#[derive(Debug, Clone, Copy, PartialEq, Eq, Structural)]
pub struct FifoControlRegister {
    /// FIFO mode selection (bits 7..5).
    pub fifo_mode: FifoMode,
    /// FIFO threshold: the watermark level setting (bits 4..0).
    pub watermark: u8,
}

impl FifoControlRegister {
    /// The view is representable: the five-bit watermark fits its field.
    pub open spec fn wf(self) -> bool {
        self.watermark < 32
    }

    /// The raw register byte this view encodes to.
    pub open spec fn spec_into_bits(self) -> int {
        self.fifo_mode.spec_into_bits() * 32 + self.watermark
    }

    /// The typed view of a raw register byte.
    pub open spec fn spec_from_bits(value: u8) -> Self {
        FifoControlRegister {
            fifo_mode: FifoMode::spec_from_bits(spec_sub_bits(value, 32, 8)),
            watermark: spec_sub_bits(value, 1, 32),
        }
    }

    /// The three-bit mode field of the raw byte holds one of the five
    /// defined FIFO modes.
    pub open spec fn spec_mode_defined(value: u8) -> bool {
        (value as int) / 32 < 5
    }

    /// The catalog identity of this register: its entry in
    /// [`RegisterAddress`], carrying its bus address and access mode.
    pub fn register_address() -> (address: RegisterAddress)
        ensures
            address == RegisterAddress::FIFO_CTRL_REG,
    {
        RegisterAddress::FIFO_CTRL_REG
    }

    /// Creates the register view in its reset state: bypass mode,
    /// watermark zero.
    pub fn new() -> (r: Self)
        ensures
            r == (FifoControlRegister { fifo_mode: FifoMode::Bypass, watermark: 0 }),
    {
        FifoControlRegister { fifo_mode: FifoMode::Bypass, watermark: 0 }
    }

    /// Packs the typed view into the raw register byte. Decoding the
    /// result restores this exact view.
    pub fn into_bits(self) -> (bits: u8)
        requires
            self.wf(),
        ensures
            bits == self.spec_into_bits(),
            Self::spec_from_bits(bits) == self,
            Self::spec_mode_defined(bits),
    {
        let m = self.fifo_mode.into_bits();
        let bits: u8 = m * 32 + self.watermark;
        proof {
            let v = bits as int;
            lemma_extract_sum(v, 0, m as int, self.watermark as int, 32, 8);
            lemma_extract_sum(v, m as int, self.watermark as int, 0, 1, 32);
        }
        bits
    }

    /// Unpacks a raw register byte into the typed view; defined for every
    /// byte whose mode field holds one of the five defined FIFO modes.
    /// Re-encoding the view restores the byte.
    pub fn from_bits(value: u8) -> (r: Self)
        requires
            Self::spec_mode_defined(value),
        ensures
            r == Self::spec_from_bits(value),
            r.wf(),
            r.spec_into_bits() == value,
    {
        proof {
            broadcast use crate::layout::lemma_div_mod_split;

            let v = value as int;
            lemma_split_bits(v, 32, 8);
        }
        FifoControlRegister { fifo_mode: FifoMode::from_bits(value / 32), watermark: value % 32 }
    }
}

/// [`FIFO_SRC_REG`](RegisterAddress::FIFO_SRC_REG) (2Fh)
#[derive(Debug, Clone, Copy, PartialEq, Eq, Structural)]
pub struct FifoSourceRegister {
    /// Watermark status (bit 7): `true` when the FIFO filling is at or
    /// above the watermark level.
    pub wtm: bool,
    /// Overrun status (bit 6): `true` when the FIFO is completely
    /// filled.
    pub ovrn_fifo: bool,
    /// FIFO empty bit (bit 5).
    pub empty: bool,
    /// FIFO-stored data level (bits 4..0).
    pub fss: u8,
}

impl FifoSourceRegister {
    /// The view is representable: the five-bit data level fits its field.
    pub open spec fn wf(self) -> bool {
        self.fss < 32
    }

    /// The raw register byte this view encodes to.
    pub open spec fn spec_into_bits(self) -> int {
        spec_bit_val(self.wtm) * 128 + spec_bit_val(self.ovrn_fifo) * 64 + spec_bit_val(self.empty)
            * 32 + self.fss
    }

    /// The typed view of a raw register byte.
    pub open spec fn spec_from_bits(value: u8) -> Self {
        FifoSourceRegister {
            wtm: spec_bit(value, 128),
            ovrn_fifo: spec_bit(value, 64),
            empty: spec_bit(value, 32),
            fss: spec_sub_bits(value, 1, 32),
        }
    }

    /// The catalog identity of this register: its entry in
    /// [`RegisterAddress`], carrying its bus address and access mode.
    pub fn register_address() -> (address: RegisterAddress)
        ensures
            address == RegisterAddress::FIFO_SRC_REG,
    {
        RegisterAddress::FIFO_SRC_REG
    }

    /// Creates the register view in its reset state.
    pub fn new() -> (r: Self)
        ensures
            r == Self::spec_from_bits(0),
    {
        FifoSourceRegister { wtm: false, ovrn_fifo: false, empty: false, fss: 0 }
    }

    /// Packs the typed view into the raw register byte. Decoding the
    /// result restores this exact view.
    #[verifier::rlimit(50)]
    pub fn into_bits(self) -> (bits: u8)
        requires
            self.wf(),
        ensures
            bits == self.spec_into_bits(),
            Self::spec_from_bits(bits) == self,
    {
        let bits: u8 = flag_bits(self.wtm, 128) + flag_bits(self.ovrn_fifo, 64) + flag_bits(
            self.empty,
            32,
        ) + self.fss;
        proof {
            let v = bits as int;
            let w = spec_bit_val(self.wtm);
            let o = spec_bit_val(self.ovrn_fifo);
            let e = spec_bit_val(self.empty);
            let f = self.fss as int;
            lemma_extract_sum(v, 0, w, o * 64 + e * 32 + f, 128, 2);
            lemma_extract_sum(v, w, o, e * 32 + f, 64, 2);
            lemma_extract_sum(v, w * 2 + o, e, f, 32, 2);
            lemma_extract_sum(v, w * 4 + o * 2 + e, f, 0, 1, 32);
        }
        bits
    }

    /// Unpacks a raw register byte into the typed view. Defined for every
    /// byte; re-encoding the view restores the byte.
    #[verifier::rlimit(50)]
    pub fn from_bits(value: u8) -> (r: Self)
        ensures
            r == Self::spec_from_bits(value),
            r.wf(),
            r.spec_into_bits() == value,
    {
        proof {
            broadcast use crate::layout::lemma_div_mod_split;

            let v = value as int;
            lemma_split_bits(v, 128, 2);
            lemma_split_bits(v, 64, 2);
            lemma_split_bits(v, 32, 2);
        }
        FifoSourceRegister {
            wtm: (value / 128) % 2 == 1,
            ovrn_fifo: (value / 64) % 2 == 1,
            empty: (value / 32) % 2 == 1,
            fss: value % 32,
        }
    }
}

/// [`INT1_CFG`](RegisterAddress::INT1_CFG) (30h)
#[derive(Debug, Clone, Copy, PartialEq, Eq, Structural)]
pub struct Int1ConfigurationRegister {
    /// AND/OR combination of interrupt events (bit 7).
    pub aoi: bool,
    /// Latch interrupt request (bit 6).
    pub lir: bool,
    /// Enable interrupt generation on Z high event (bit 5).
    pub zhie: bool,
    /// Enable interrupt generation on Z low event (bit 4).
    pub zlie: bool,
    /// Enable interrupt generation on Y high event (bit 3).
    pub yhie: bool,
    /// Enable interrupt generation on Y low event (bit 2).
    pub ylie: bool,
    /// Enable interrupt generation on X high event (bit 1).
    pub xhie: bool,
    /// Enable interrupt generation on X low event (bit 0).
    pub xlie: bool,
}

impl Int1ConfigurationRegister {
    /// The raw register byte this view encodes to.
    pub open spec fn spec_into_bits(self) -> int {
        spec_bit_val(self.aoi) * 128 + spec_bit_val(self.lir) * 64 + spec_bit_val(self.zhie) * 32
            + spec_bit_val(self.zlie) * 16 + spec_bit_val(self.yhie) * 8 + spec_bit_val(self.ylie)
            * 4 + spec_bit_val(self.xhie) * 2 + spec_bit_val(self.xlie)
    }

    /// The typed view of a raw register byte.
    pub open spec fn spec_from_bits(value: u8) -> Self {
        Int1ConfigurationRegister {
            aoi: spec_bit(value, 128),
            lir: spec_bit(value, 64),
            zhie: spec_bit(value, 32),
            zlie: spec_bit(value, 16),
            yhie: spec_bit(value, 8),
            ylie: spec_bit(value, 4),
            xhie: spec_bit(value, 2),
            xlie: spec_bit(value, 1),
        }
    }

    /// The catalog identity of this register: its entry in
    /// [`RegisterAddress`], carrying its bus address and access mode.
    pub fn register_address() -> (address: RegisterAddress)
        ensures
            address == RegisterAddress::INT1_CFG,
    {
        RegisterAddress::INT1_CFG
    }

    /// Creates the register view in its reset state, all events
    /// disabled.
    pub fn new() -> (r: Self)
        ensures
            r == Self::spec_from_bits(0),
    {
        Int1ConfigurationRegister {
            aoi: false,
            lir: false,
            zhie: false,
            zlie: false,
            yhie: false,
            ylie: false,
            xhie: false,
            xlie: false,
        }
    }

    /// Packs the typed view into the raw register byte. Decoding the
    /// result restores this exact view.
    #[verifier::rlimit(100)]
    pub fn into_bits(self) -> (bits: u8)
        ensures
            bits == self.spec_into_bits(),
            Self::spec_from_bits(bits) == self,
    {
        let bits: u8 = flag_bits(self.aoi, 128) + flag_bits(self.lir, 64) + flag_bits(
            self.zhie,
            32,
        ) + flag_bits(self.zlie, 16) + flag_bits(self.yhie, 8) + flag_bits(self.ylie, 4)
            + flag_bits(self.xhie, 2) + flag_bits(self.xlie, 1);
        proof {
            let v = bits as int;
            let a = spec_bit_val(self.aoi);
            let b = spec_bit_val(self.lir);
            let c = spec_bit_val(self.zhie);
            let d = spec_bit_val(self.zlie);
            let e = spec_bit_val(self.yhie);
            let f = spec_bit_val(self.ylie);
            let g = spec_bit_val(self.xhie);
            let h = spec_bit_val(self.xlie);
            lemma_extract_sum(v, 0, a, b * 64 + c * 32 + d * 16 + e * 8 + f * 4 + g * 2 + h, 128, 2);
            lemma_extract_sum(v, a, b, c * 32 + d * 16 + e * 8 + f * 4 + g * 2 + h, 64, 2);
            lemma_extract_sum(v, a * 2 + b, c, d * 16 + e * 8 + f * 4 + g * 2 + h, 32, 2);
            lemma_extract_sum(v, a * 4 + b * 2 + c, d, e * 8 + f * 4 + g * 2 + h, 16, 2);
            lemma_extract_sum(v, a * 8 + b * 4 + c * 2 + d, e, f * 4 + g * 2 + h, 8, 2);
            lemma_extract_sum(v, a * 16 + b * 8 + c * 4 + d * 2 + e, f, g * 2 + h, 4, 2);
            lemma_extract_sum(v, a * 32 + b * 16 + c * 8 + d * 4 + e * 2 + f, g, h, 2, 2);
            lemma_extract_sum(v, a * 64 + b * 32 + c * 16 + d * 8 + e * 4 + f * 2 + g, h, 0, 1, 2);
        }
        bits
    }

    /// Unpacks a raw register byte into the typed view. Defined for every
    /// byte; re-encoding the view restores the byte.
    #[verifier::rlimit(50)]
    pub fn from_bits(value: u8) -> (r: Self)
        ensures
            r == Self::spec_from_bits(value),
            r.spec_into_bits() == value,
    {
        proof {
            broadcast use crate::layout::lemma_div_mod_split;

            let v = value as int;
            lemma_split_bits(v, 128, 2);
            lemma_split_bits(v, 64, 2);
            lemma_split_bits(v, 32, 2);
            lemma_split_bits(v, 16, 2);
            lemma_split_bits(v, 8, 2);
            lemma_split_bits(v, 4, 2);
            lemma_split_bits(v, 2, 2);
        }
        Int1ConfigurationRegister {
            aoi: (value / 128) % 2 == 1,
            lir: (value / 64) % 2 == 1,
            zhie: (value / 32) % 2 == 1,
            zlie: (value / 16) % 2 == 1,
            yhie: (value / 8) % 2 == 1,
            ylie: (value / 4) % 2 == 1,
            xhie: (value / 2) % 2 == 1,
            xlie: value % 2 == 1,
        }
    }
}

/// [`INT1_SRC`](RegisterAddress::INT1_SRC) (31h)
///
/// Bit 7 is held at zero by the hardware.
#[derive(Debug, Clone, Copy, PartialEq, Eq, Structural)]
pub struct Int1SourceRegisterA {
    /// Interrupt active (bit 6).
    pub ia: bool,
    /// Z high (bit 5).
    pub z_high: bool,
    /// Z low (bit 4).
    pub z_low: bool,
    /// Y high (bit 3).
    pub y_high: bool,
    /// Y low (bit 2).
    pub y_low: bool,
    /// X high (bit 1).
    pub x_high: bool,
    /// X low (bit 0).
    pub x_low: bool,
}

impl Int1SourceRegisterA {
    /// The raw register byte this view encodes to; the fixed top bit is
    /// forced to zero.
    pub open spec fn spec_into_bits(self) -> int {
        spec_bit_val(self.ia) * 64 + spec_bit_val(self.z_high) * 32 + spec_bit_val(self.z_low) * 16
            + spec_bit_val(self.y_high) * 8 + spec_bit_val(self.y_low) * 4 + spec_bit_val(
            self.x_high,
        ) * 2 + spec_bit_val(self.x_low)
    }

    /// The typed view of a raw register byte; the fixed top bit is
    /// discarded.
    pub open spec fn spec_from_bits(value: u8) -> Self {
        Int1SourceRegisterA {
            ia: spec_bit(value, 64),
            z_high: spec_bit(value, 32),
            z_low: spec_bit(value, 16),
            y_high: spec_bit(value, 8),
            y_low: spec_bit(value, 4),
            x_high: spec_bit(value, 2),
            x_low: spec_bit(value, 1),
        }
    }

    /// The fixed top bit of the raw byte sits at its constant, zero.
    pub open spec fn spec_reserved_clear(value: u8) -> bool {
        value < 128
    }

    /// The catalog identity of this register: its entry in
    /// [`RegisterAddress`], carrying its bus address and access mode.
    pub fn register_address() -> (address: RegisterAddress)
        ensures
            address == RegisterAddress::INT1_SRC,
    {
        RegisterAddress::INT1_SRC
    }

    /// Creates the register view in its reset state, no event active.
    pub fn new() -> (r: Self)
        ensures
            r == Self::spec_from_bits(0),
    {
        Int1SourceRegisterA {
            ia: false,
            z_high: false,
            z_low: false,
            y_high: false,
            y_low: false,
            x_high: false,
            x_low: false,
        }
    }

    /// Packs the typed view into the raw register byte, forcing the fixed
    /// top bit to zero. Decoding the result restores this exact view.
    #[verifier::rlimit(50)]
    pub fn into_bits(self) -> (bits: u8)
        ensures
            bits == self.spec_into_bits(),
            Self::spec_from_bits(bits) == self,
            Self::spec_reserved_clear(bits),
    {
        let bits: u8 = flag_bits(self.ia, 64) + flag_bits(self.z_high, 32) + flag_bits(
            self.z_low,
            16,
        ) + flag_bits(self.y_high, 8) + flag_bits(self.y_low, 4) + flag_bits(self.x_high, 2)
            + flag_bits(self.x_low, 1);
        proof {
            let v = bits as int;
            let b = spec_bit_val(self.ia);
            let c = spec_bit_val(self.z_high);
            let d = spec_bit_val(self.z_low);
            let e = spec_bit_val(self.y_high);
            let f = spec_bit_val(self.y_low);
            let g = spec_bit_val(self.x_high);
            let h = spec_bit_val(self.x_low);
            lemma_extract_sum(v, 0, b, c * 32 + d * 16 + e * 8 + f * 4 + g * 2 + h, 64, 2);
            lemma_extract_sum(v, b, c, d * 16 + e * 8 + f * 4 + g * 2 + h, 32, 2);
            lemma_extract_sum(v, b * 2 + c, d, e * 8 + f * 4 + g * 2 + h, 16, 2);
            lemma_extract_sum(v, b * 4 + c * 2 + d, e, f * 4 + g * 2 + h, 8, 2);
            lemma_extract_sum(v, b * 8 + c * 4 + d * 2 + e, f, g * 2 + h, 4, 2);
            lemma_extract_sum(v, b * 16 + c * 8 + d * 4 + e * 2 + f, g, h, 2, 2);
            lemma_extract_sum(v, b * 32 + c * 16 + d * 8 + e * 4 + f * 2 + g, h, 0, 1, 2);
        }
        bits
    }

    /// Unpacks a raw register byte into the typed view, discarding the
    /// fixed top bit. Defined for every byte; re-encoding the view
    /// restores the byte whenever its top bit was clear.
    #[verifier::rlimit(50)]
    pub fn from_bits(value: u8) -> (r: Self)
        ensures
            r == Self::spec_from_bits(value),
            Self::spec_reserved_clear(value) ==> r.spec_into_bits() == value,
    {
        proof {
            broadcast use crate::layout::lemma_div_mod_split;

            let v = value as int;
            lemma_split_bits(v, 64, 2);
            lemma_split_bits(v, 32, 2);
            lemma_split_bits(v, 16, 2);
            lemma_split_bits(v, 8, 2);
            lemma_split_bits(v, 4, 2);
            lemma_split_bits(v, 2, 2);
        }
        Int1SourceRegisterA {
            ia: (value / 64) % 2 == 1,
            z_high: (value / 32) % 2 == 1,
            z_low: (value / 16) % 2 == 1,
            y_high: (value / 8) % 2 == 1,
            y_low: (value / 4) % 2 == 1,
            x_high: (value / 2) % 2 == 1,
            x_low: value % 2 == 1,
        }
    }
}

/// [`INT1_TSH_XH`](RegisterAddress::INT1_TSH_XH) (32h)
///
/// Bit 7 is held at zero by the hardware.
#[derive(Debug, Clone, Copy, PartialEq, Eq, Structural)]
pub struct Int1ThresholdRegisterXH {
    /// Interrupt 1 threshold, high part (bits 6..0).
    pub threshold: u8,
}

impl Int1ThresholdRegisterXH {
    /// The view is representable: the seven-bit threshold fits its field.
    pub open spec fn wf(self) -> bool {
        self.threshold < 128
    }

    /// The raw register byte this view encodes to; the fixed top bit is
    /// forced to zero.
    pub open spec fn spec_into_bits(self) -> int {
        self.threshold as int
    }

    /// The typed view of a raw register byte; the fixed top bit is
    /// discarded.
    pub open spec fn spec_from_bits(value: u8) -> Self {
        Int1ThresholdRegisterXH { threshold: spec_sub_bits(value, 1, 128) }
    }

    /// The fixed top bit of the raw byte sits at its constant, zero.
    pub open spec fn spec_reserved_clear(value: u8) -> bool {
        value < 128
    }

    /// The catalog identity of this register: its entry in
    /// [`RegisterAddress`], carrying its bus address and access mode.
    pub fn register_address() -> (address: RegisterAddress)
        ensures
            address == RegisterAddress::INT1_TSH_XH,
    {
        RegisterAddress::INT1_TSH_XH
    }

    /// Creates the register view in its reset state.
    pub fn new() -> (r: Self)
        ensures
            r == (Int1ThresholdRegisterXH { threshold: 0 }),
    {
        Int1ThresholdRegisterXH { threshold: 0 }
    }

    /// Packs the typed view into the raw register byte, forcing the fixed
    /// top bit to zero. Decoding the result restores this exact view.
    pub fn into_bits(self) -> (bits: u8)
        requires
            self.wf(),
        ensures
            bits == self.spec_into_bits(),
            Self::spec_from_bits(bits) == self,
            Self::spec_reserved_clear(bits),
    {
        proof {
            broadcast use crate::layout::lemma_div_mod_split;

        }
        self.threshold
    }

    /// Unpacks a raw register byte into the typed view, discarding the
    /// fixed top bit. Defined for every byte; re-encoding the view
    /// restores the byte whenever its top bit was clear.
    pub fn from_bits(value: u8) -> (r: Self)
        ensures
            r == Self::spec_from_bits(value),
            r.wf(),
            Self::spec_reserved_clear(value) ==> r.spec_into_bits() == value,
    {
        proof {
            broadcast use crate::layout::lemma_div_mod_split;

        }
        Int1ThresholdRegisterXH { threshold: value % 128 }
    }
}

/// [`INT1_TSH_XL`](RegisterAddress::INT1_TSH_XL) (33h)
#[derive(Debug, Clone, Copy, PartialEq, Eq, Structural)]
pub struct Int1ThresholdRegisterXL {
    /// Interrupt 1 threshold, low byte (bits 7..0).
    pub threshold: u8,
}

impl Int1ThresholdRegisterXL {
    /// The raw register byte this view encodes to.
    pub open spec fn spec_into_bits(self) -> int {
        self.threshold as int
    }

    /// The typed view of a raw register byte.
    pub open spec fn spec_from_bits(value: u8) -> Self {
        Int1ThresholdRegisterXL { threshold: value }
    }

    /// The catalog identity of this register: its entry in
    /// [`RegisterAddress`], carrying its bus address and access mode.
    pub fn register_address() -> (address: RegisterAddress)
        ensures
            address == RegisterAddress::INT1_TSH_XL,
    {
        RegisterAddress::INT1_TSH_XL
    }

    /// Creates the register view in its reset state.
    pub fn new() -> (r: Self)
        ensures
            r == (Int1ThresholdRegisterXL { threshold: 0 }),
    {
        Int1ThresholdRegisterXL { threshold: 0 }
    }

    /// Packs the typed view into the raw register byte. Decoding the
    /// result restores this exact view.
    pub fn into_bits(self) -> (bits: u8)
        ensures
            bits == self.spec_into_bits(),
            Self::spec_from_bits(bits) == self,
    {
        self.threshold
    }

    /// Unpacks a raw register byte into the typed view. Defined for every
    /// byte; re-encoding the view restores the byte.
    pub fn from_bits(value: u8) -> (r: Self)
        ensures
            r == Self::spec_from_bits(value),
            r.spec_into_bits() == value,
    {
        Int1ThresholdRegisterXL { threshold: value }
    }
}

/// [`INT1_TSH_YH`](RegisterAddress::INT1_TSH_YH) (34h)
///
/// Bit 7 is held at zero by the hardware.
#[derive(Debug, Clone, Copy, PartialEq, Eq, Structural)]
pub struct Int1ThresholdRegisterYH {
    /// Interrupt 1 threshold, high part (bits 6..0).
    pub threshold: u8,
}

impl Int1ThresholdRegisterYH {
    /// The view is representable: the seven-bit threshold fits its field.
    pub open spec fn wf(self) -> bool {
        self.threshold < 128
    }

    /// The raw register byte this view encodes to; the fixed top bit is
    /// forced to zero.
    pub open spec fn spec_into_bits(self) -> int {
        self.threshold as int
    }

    /// The typed view of a raw register byte; the fixed top bit is
    /// discarded.
    pub open spec fn spec_from_bits(value: u8) -> Self {
        Int1ThresholdRegisterYH { threshold: spec_sub_bits(value, 1, 128) }
    }

    /// The fixed top bit of the raw byte sits at its constant, zero.
    pub open spec fn spec_reserved_clear(value: u8) -> bool {
        value < 128
    }

    /// The catalog identity of this register: its entry in
    /// [`RegisterAddress`], carrying its bus address and access mode.
    pub fn register_address() -> (address: RegisterAddress)
        ensures
            address == RegisterAddress::INT1_TSH_YH,
    {
        RegisterAddress::INT1_TSH_YH
    }

    /// Creates the register view in its reset state.
    pub fn new() -> (r: Self)
        ensures
            r == (Int1ThresholdRegisterYH { threshold: 0 }),
    {
        Int1ThresholdRegisterYH { threshold: 0 }
    }

    /// Packs the typed view into the raw register byte, forcing the fixed
    /// top bit to zero. Decoding the result restores this exact view.
    pub fn into_bits(self) -> (bits: u8)
        requires
            self.wf(),
        ensures
            bits == self.spec_into_bits(),
            Self::spec_from_bits(bits) == self,
            Self::spec_reserved_clear(bits),
    {
        proof {
            broadcast use crate::layout::lemma_div_mod_split;

        }
        self.threshold
    }

    /// Unpacks a raw register byte into the typed view, discarding the
    /// fixed top bit. Defined for every byte; re-encoding the view
    /// restores the byte whenever its top bit was clear.
    pub fn from_bits(value: u8) -> (r: Self)
        ensures
            r == Self::spec_from_bits(value),
            r.wf(),
            Self::spec_reserved_clear(value) ==> r.spec_into_bits() == value,
    {
        proof {
            broadcast use crate::layout::lemma_div_mod_split;

        }
        Int1ThresholdRegisterYH { threshold: value % 128 }
    }
}

/// [`INT1_TSH_YL`](RegisterAddress::INT1_TSH_YL) (35h)
#[derive(Debug, Clone, Copy, PartialEq, Eq, Structural)]
pub struct Int1ThresholdRegisterYL {
    /// Interrupt 1 threshold, low byte (bits 7..0).
    pub threshold: u8,
}

impl Int1ThresholdRegisterYL {
    /// The raw register byte this view encodes to.
    pub open spec fn spec_into_bits(self) -> int {
        self.threshold as int
    }

    /// The typed view of a raw register byte.
    pub open spec fn spec_from_bits(value: u8) -> Self {
        Int1ThresholdRegisterYL { threshold: value }
    }

    /// The catalog identity of this register: its entry in
    /// [`RegisterAddress`], carrying its bus address and access mode.
    pub fn register_address() -> (address: RegisterAddress)
        ensures
            address == RegisterAddress::INT1_TSH_YL,
    {
        RegisterAddress::INT1_TSH_YL
    }

    /// Creates the register view in its reset state.
    pub fn new() -> (r: Self)
        ensures
            r == (Int1ThresholdRegisterYL { threshold: 0 }),
    {
        Int1ThresholdRegisterYL { threshold: 0 }
    }

    /// Packs the typed view into the raw register byte. Decoding the
    /// result restores this exact view.
    pub fn into_bits(self) -> (bits: u8)
        ensures
            bits == self.spec_into_bits(),
            Self::spec_from_bits(bits) == self,
    {
        self.threshold
    }

    /// Unpacks a raw register byte into the typed view. Defined for every
    /// byte; re-encoding the view restores the byte.
    pub fn from_bits(value: u8) -> (r: Self)
        ensures
            r == Self::spec_from_bits(value),
            r.spec_into_bits() == value,
    {
        Int1ThresholdRegisterYL { threshold: value }
    }
}

/// [`INT1_TSH_ZH`](RegisterAddress::INT1_TSH_ZH) (36h)
///
/// Bit 7 is held at zero by the hardware.
#[derive(Debug, Clone, Copy, PartialEq, Eq, Structural)]
pub struct Int1ThresholdRegisterZH {
    /// Interrupt 1 threshold, high part (bits 6..0).
    pub threshold: u8,
}

impl Int1ThresholdRegisterZH {
    /// The view is representable: the seven-bit threshold fits its field.
    pub open spec fn wf(self) -> bool {
        self.threshold < 128
    }

    /// The raw register byte this view encodes to; the fixed top bit is
    /// forced to zero.
    pub open spec fn spec_into_bits(self) -> int {
        self.threshold as int
    }

    /// The typed view of a raw register byte; the fixed top bit is
    /// discarded.
    pub open spec fn spec_from_bits(value: u8) -> Self {
        Int1ThresholdRegisterZH { threshold: spec_sub_bits(value, 1, 128) }
    }

    /// The fixed top bit of the raw byte sits at its constant, zero.
    pub open spec fn spec_reserved_clear(value: u8) -> bool {
        value < 128
    }

    /// The catalog identity of this register: its entry in
    /// [`RegisterAddress`], carrying its bus address and access mode.
    pub fn register_address() -> (address: RegisterAddress)
        ensures
            address == RegisterAddress::INT1_TSH_ZH,
    {
        RegisterAddress::INT1_TSH_ZH
    }

    /// Creates the register view in its reset state.
    pub fn new() -> (r: Self)
        ensures
            r == (Int1ThresholdRegisterZH { threshold: 0 }),
    {
        Int1ThresholdRegisterZH { threshold: 0 }
    }

    /// Packs the typed view into the raw register byte, forcing the fixed
    /// top bit to zero. Decoding the result restores this exact view.
    pub fn into_bits(self) -> (bits: u8)
        requires
            self.wf(),
        ensures
            bits == self.spec_into_bits(),
            Self::spec_from_bits(bits) == self,
            Self::spec_reserved_clear(bits),
    {
        proof {
            broadcast use crate::layout::lemma_div_mod_split;

        }
        self.threshold
    }

    /// Unpacks a raw register byte into the typed view, discarding the
    /// fixed top bit. Defined for every byte; re-encoding the view
    /// restores the byte whenever its top bit was clear.
    pub fn from_bits(value: u8) -> (r: Self)
        ensures
            r == Self::spec_from_bits(value),
            r.wf(),
            Self::spec_reserved_clear(value) ==> r.spec_into_bits() == value,
    {
        proof {
            broadcast use crate::layout::lemma_div_mod_split;

        }
        Int1ThresholdRegisterZH { threshold: value % 128 }
    }
}

/// [`INT1_TSH_ZL`](RegisterAddress::INT1_TSH_ZL) (37h)
#[derive(Debug, Clone, Copy, PartialEq, Eq, Structural)]
pub struct Int1ThresholdRegisterZL {
    /// Interrupt 1 threshold, low byte (bits 7..0).
    pub threshold: u8,
}

impl Int1ThresholdRegisterZL {
    /// The raw register byte this view encodes to.
    pub open spec fn spec_into_bits(self) -> int {
        self.threshold as int
    }

    /// The typed view of a raw register byte.
    pub open spec fn spec_from_bits(value: u8) -> Self {
        Int1ThresholdRegisterZL { threshold: value }
    }

    /// The catalog identity of this register: its entry in
    /// [`RegisterAddress`], carrying its bus address and access mode.
    pub fn register_address() -> (address: RegisterAddress)
        ensures
            address == RegisterAddress::INT1_TSH_ZL,
    {
        RegisterAddress::INT1_TSH_ZL
    }

    /// Creates the register view in its reset state.
    pub fn new() -> (r: Self)
        ensures
            r == (Int1ThresholdRegisterZL { threshold: 0 }),
    {
        Int1ThresholdRegisterZL { threshold: 0 }
    }

    /// Packs the typed view into the raw register byte. Decoding the
    /// result restores this exact view.
    pub fn into_bits(self) -> (bits: u8)
        ensures
            bits == self.spec_into_bits(),
            Self::spec_from_bits(bits) == self,
    {
        self.threshold
    }

    /// Unpacks a raw register byte into the typed view. Defined for every
    /// byte; re-encoding the view restores the byte.
    pub fn from_bits(value: u8) -> (r: Self)
        ensures
            r == Self::spec_from_bits(value),
            r.spec_into_bits() == value,
    {
        Int1ThresholdRegisterZL { threshold: value }
    }
}

/// [`INT1_DURATION`](RegisterAddress::INT1_DURATION) (38h)
#[derive(Debug, Clone, Copy, PartialEq, Eq, Structural)]
pub struct Int1DurationRegister {
    /// Wait bit (bit 7): `false` lets the interrupt fall immediately
    /// when the signal crosses the threshold; `true` makes it fall only
    /// after the duration counter has elapsed at the selected data rate.
    pub wait: bool,
    /// The minimum duration of the interrupt event to be recognized
    /// (bits 6..0). Duration steps and maximum values depend on the
    /// chosen output data rate.
    pub duration: u8,
}

impl Int1DurationRegister {
    /// The view is representable: the seven-bit duration fits its field.
    pub open spec fn wf(self) -> bool {
        self.duration < 128
    }

    /// The raw register byte this view encodes to.
    pub open spec fn spec_into_bits(self) -> int {
        spec_bit_val(self.wait) * 128 + self.duration
    }

    /// The typed view of a raw register byte.
    pub open spec fn spec_from_bits(value: u8) -> Self {
        Int1DurationRegister {
            wait: spec_bit(value, 128),
            duration: spec_sub_bits(value, 1, 128),
        }
    }

    /// The catalog identity of this register: its entry in
    /// [`RegisterAddress`], carrying its bus address and access mode.
    pub fn register_address() -> (address: RegisterAddress)
        ensures
            address == RegisterAddress::INT1_DURATION,
    {
        RegisterAddress::INT1_DURATION
    }

    /// Creates the register view in its reset state.
    pub fn new() -> (r: Self)
        ensures
            r == (Int1DurationRegister { wait: false, duration: 0 }),
    {
        Int1DurationRegister { wait: false, duration: 0 }
    }

    /// Packs the typed view into the raw register byte. Decoding the
    /// result restores this exact view.
    pub fn into_bits(self) -> (bits: u8)
        requires
            self.wf(),
        ensures
            bits == self.spec_into_bits(),
            Self::spec_from_bits(bits) == self,
    {
        let bits: u8 = flag_bits(self.wait, 128) + self.duration;
        proof {
            let v = bits as int;
            let w = spec_bit_val(self.wait);
            let d = self.duration as int;
            lemma_extract_sum(v, 0, w, d, 128, 2);
            lemma_extract_sum(v, w, d, 0, 1, 128);
        }
        bits
    }

    /// Unpacks a raw register byte into the typed view. Defined for every
    /// byte; re-encoding the view restores the byte.
    pub fn from_bits(value: u8) -> (r: Self)
        ensures
            r == Self::spec_from_bits(value),
            r.wf(),
            r.spec_into_bits() == value,
    {
        proof {
            broadcast use crate::layout::lemma_div_mod_split;

            let v = value as int;
            lemma_split_bits(v, 128, 2);
        }
        Int1DurationRegister { wait: (value / 128) % 2 == 1, duration: value % 128 }
    }
}

impl RegisterAddress {
    /// The bit layout of this register: the ordered field descriptors,
    /// most significant field first, that the generic codec in
    /// [`crate::layout`] runs on.
    pub open spec fn spec_layout(self) -> Seq<FieldDescriptor> {
        match self {
            RegisterAddress::WHO_AM_I => seq![
                FieldDescriptor { bit_offset: 0, bit_width: 8, access: FieldAccess::ReadOnly, reset: 0 },
            ],
            RegisterAddress::CTRL_REG1 => seq![
                FieldDescriptor { bit_offset: 6, bit_width: 2, access: FieldAccess::ReadWrite, reset: 0 },
                FieldDescriptor { bit_offset: 4, bit_width: 2, access: FieldAccess::ReadWrite, reset: 0 },
                FieldDescriptor { bit_offset: 3, bit_width: 1, access: FieldAccess::ReadWrite, reset: 0 },
                FieldDescriptor { bit_offset: 2, bit_width: 1, access: FieldAccess::ReadWrite, reset: 1 },
                FieldDescriptor { bit_offset: 1, bit_width: 1, access: FieldAccess::ReadWrite, reset: 1 },
                FieldDescriptor { bit_offset: 0, bit_width: 1, access: FieldAccess::ReadWrite, reset: 1 },
            ],
            RegisterAddress::CTRL_REG2 => seq![
                FieldDescriptor { bit_offset: 6, bit_width: 2, access: FieldAccess::Reserved, reset: 0 },
                FieldDescriptor { bit_offset: 4, bit_width: 2, access: FieldAccess::ReadWrite, reset: 0 },
                FieldDescriptor { bit_offset: 0, bit_width: 4, access: FieldAccess::ReadWrite, reset: 0 },
            ],
            RegisterAddress::CTRL_REG3 => seq![
                FieldDescriptor { bit_offset: 7, bit_width: 1, access: FieldAccess::ReadWrite, reset: 0 },
                FieldDescriptor { bit_offset: 6, bit_width: 1, access: FieldAccess::ReadWrite, reset: 0 },
                FieldDescriptor { bit_offset: 5, bit_width: 1, access: FieldAccess::ReadWrite, reset: 0 },
                FieldDescriptor { bit_offset: 4, bit_width: 1, access: FieldAccess::ReadWrite, reset: 0 },
                FieldDescriptor { bit_offset: 3, bit_width: 1, access: FieldAccess::ReadWrite, reset: 0 },
                FieldDescriptor { bit_offset: 2, bit_width: 1, access: FieldAccess::ReadWrite, reset: 0 },
                FieldDescriptor { bit_offset: 1, bit_width: 1, access: FieldAccess::ReadWrite, reset: 0 },
                FieldDescriptor { bit_offset: 0, bit_width: 1, access: FieldAccess::ReadWrite, reset: 0 },
            ],
            RegisterAddress::CTRL_REG4 => seq![
                FieldDescriptor { bit_offset: 7, bit_width: 1, access: FieldAccess::ReadWrite, reset: 0 },
                FieldDescriptor { bit_offset: 6, bit_width: 1, access: FieldAccess::ReadWrite, reset: 0 },
                FieldDescriptor { bit_offset: 4, bit_width: 2, access: FieldAccess::ReadWrite, reset: 0 },
                FieldDescriptor { bit_offset: 1, bit_width: 3, access: FieldAccess::Reserved, reset: 0 },
                FieldDescriptor { bit_offset: 0, bit_width: 1, access: FieldAccess::ReadWrite, reset: 0 },
            ],
            RegisterAddress::CTRL_REG5 => seq![
                FieldDescriptor { bit_offset: 7, bit_width: 1, access: FieldAccess::ReadWrite, reset: 0 },
                FieldDescriptor { bit_offset: 6, bit_width: 1, access: FieldAccess::ReadWrite, reset: 0 },
                FieldDescriptor { bit_offset: 5, bit_width: 1, access: FieldAccess::Reserved, reset: 0 },
                FieldDescriptor { bit_offset: 4, bit_width: 1, access: FieldAccess::ReadWrite, reset: 0 },
                FieldDescriptor { bit_offset: 2, bit_width: 2, access: FieldAccess::ReadWrite, reset: 0 },
                FieldDescriptor { bit_offset: 0, bit_width: 2, access: FieldAccess::ReadWrite, reset: 0 },
            ],
            RegisterAddress::REFERENCE => seq![
                FieldDescriptor { bit_offset: 0, bit_width: 8, access: FieldAccess::ReadWrite, reset: 0 },
            ],
            RegisterAddress::OUT_TEMP => seq![
                FieldDescriptor { bit_offset: 0, bit_width: 8, access: FieldAccess::ReadOnly, reset: 0 },
            ],
            RegisterAddress::STATUS_REG => seq![
                FieldDescriptor { bit_offset: 7, bit_width: 1, access: FieldAccess::ReadOnly, reset: 0 },
                FieldDescriptor { bit_offset: 6, bit_width: 1, access: FieldAccess::ReadOnly, reset: 0 },
                FieldDescriptor { bit_offset: 5, bit_width: 1, access: FieldAccess::ReadOnly, reset: 0 },
                FieldDescriptor { bit_offset: 4, bit_width: 1, access: FieldAccess::ReadOnly, reset: 0 },
                FieldDescriptor { bit_offset: 3, bit_width: 1, access: FieldAccess::ReadOnly, reset: 0 },
                FieldDescriptor { bit_offset: 2, bit_width: 1, access: FieldAccess::ReadOnly, reset: 0 },
                FieldDescriptor { bit_offset: 1, bit_width: 1, access: FieldAccess::ReadOnly, reset: 0 },
                FieldDescriptor { bit_offset: 0, bit_width: 1, access: FieldAccess::ReadOnly, reset: 0 },
            ],
            RegisterAddress::OUT_X_L => seq![
                FieldDescriptor { bit_offset: 0, bit_width: 8, access: FieldAccess::ReadOnly, reset: 0 },
            ],
            RegisterAddress::OUT_X_H => seq![
                FieldDescriptor { bit_offset: 0, bit_width: 8, access: FieldAccess::ReadOnly, reset: 0 },
            ],
            RegisterAddress::OUT_Y_L => seq![
                FieldDescriptor { bit_offset: 0, bit_width: 8, access: FieldAccess::ReadOnly, reset: 0 },
            ],
            RegisterAddress::OUT_Y_H => seq![
                FieldDescriptor { bit_offset: 0, bit_width: 8, access: FieldAccess::ReadOnly, reset: 0 },
            ],
            RegisterAddress::OUT_Z_L => seq![
                FieldDescriptor { bit_offset: 0, bit_width: 8, access: FieldAccess::ReadOnly, reset: 0 },
            ],
            RegisterAddress::OUT_Z_H => seq![
                FieldDescriptor { bit_offset: 0, bit_width: 8, access: FieldAccess::ReadOnly, reset: 0 },
            ],
            RegisterAddress::FIFO_CTRL_REG => seq![
                FieldDescriptor { bit_offset: 5, bit_width: 3, access: FieldAccess::ReadWrite, reset: 0 },
                FieldDescriptor { bit_offset: 0, bit_width: 5, access: FieldAccess::ReadWrite, reset: 0 },
            ],
            RegisterAddress::FIFO_SRC_REG => seq![
                FieldDescriptor { bit_offset: 7, bit_width: 1, access: FieldAccess::ReadOnly, reset: 0 },
                FieldDescriptor { bit_offset: 6, bit_width: 1, access: FieldAccess::ReadOnly, reset: 0 },
                FieldDescriptor { bit_offset: 5, bit_width: 1, access: FieldAccess::ReadOnly, reset: 0 },
                FieldDescriptor { bit_offset: 0, bit_width: 5, access: FieldAccess::ReadOnly, reset: 0 },
            ],
            RegisterAddress::INT1_CFG => seq![
                FieldDescriptor { bit_offset: 7, bit_width: 1, access: FieldAccess::ReadWrite, reset: 0 },
                FieldDescriptor { bit_offset: 6, bit_width: 1, access: FieldAccess::ReadWrite, reset: 0 },
                FieldDescriptor { bit_offset: 5, bit_width: 1, access: FieldAccess::ReadWrite, reset: 0 },
                FieldDescriptor { bit_offset: 4, bit_width: 1, access: FieldAccess::ReadWrite, reset: 0 },
                FieldDescriptor { bit_offset: 3, bit_width: 1, access: FieldAccess::ReadWrite, reset: 0 },
                FieldDescriptor { bit_offset: 2, bit_width: 1, access: FieldAccess::ReadWrite, reset: 0 },
                FieldDescriptor { bit_offset: 1, bit_width: 1, access: FieldAccess::ReadWrite, reset: 0 },
                FieldDescriptor { bit_offset: 0, bit_width: 1, access: FieldAccess::ReadWrite, reset: 0 },
            ],
            RegisterAddress::INT1_SRC => seq![
                FieldDescriptor { bit_offset: 7, bit_width: 1, access: FieldAccess::Reserved, reset: 0 },
                FieldDescriptor { bit_offset: 6, bit_width: 1, access: FieldAccess::ReadOnly, reset: 0 },
                FieldDescriptor { bit_offset: 5, bit_width: 1, access: FieldAccess::ReadOnly, reset: 0 },
                FieldDescriptor { bit_offset: 4, bit_width: 1, access: FieldAccess::ReadOnly, reset: 0 },
                FieldDescriptor { bit_offset: 3, bit_width: 1, access: FieldAccess::ReadOnly, reset: 0 },
                FieldDescriptor { bit_offset: 2, bit_width: 1, access: FieldAccess::ReadOnly, reset: 0 },
                FieldDescriptor { bit_offset: 1, bit_width: 1, access: FieldAccess::ReadOnly, reset: 0 },
                FieldDescriptor { bit_offset: 0, bit_width: 1, access: FieldAccess::ReadOnly, reset: 0 },
            ],
            RegisterAddress::INT1_TSH_XH => seq![
                FieldDescriptor { bit_offset: 7, bit_width: 1, access: FieldAccess::Reserved, reset: 0 },
                FieldDescriptor { bit_offset: 0, bit_width: 7, access: FieldAccess::ReadWrite, reset: 0 },
            ],
            RegisterAddress::INT1_TSH_XL => seq![
                FieldDescriptor { bit_offset: 0, bit_width: 8, access: FieldAccess::ReadWrite, reset: 0 },
            ],
            RegisterAddress::INT1_TSH_YH => seq![
                FieldDescriptor { bit_offset: 7, bit_width: 1, access: FieldAccess::Reserved, reset: 0 },
                FieldDescriptor { bit_offset: 0, bit_width: 7, access: FieldAccess::ReadWrite, reset: 0 },
            ],
            RegisterAddress::INT1_TSH_YL => seq![
                FieldDescriptor { bit_offset: 0, bit_width: 8, access: FieldAccess::ReadWrite, reset: 0 },
            ],
            RegisterAddress::INT1_TSH_ZH => seq![
                FieldDescriptor { bit_offset: 7, bit_width: 1, access: FieldAccess::Reserved, reset: 0 },
                FieldDescriptor { bit_offset: 0, bit_width: 7, access: FieldAccess::ReadWrite, reset: 0 },
            ],
            RegisterAddress::INT1_TSH_ZL => seq![
                FieldDescriptor { bit_offset: 0, bit_width: 8, access: FieldAccess::ReadWrite, reset: 0 },
            ],
            RegisterAddress::INT1_DURATION => seq![
                FieldDescriptor { bit_offset: 7, bit_width: 1, access: FieldAccess::ReadWrite, reset: 0 },
                FieldDescriptor { bit_offset: 0, bit_width: 7, access: FieldAccess::ReadWrite, reset: 0 },
            ],
        }
    }

    /// Builds the bit layout of this register, well formed and equal to
    /// [`RegisterAddress::spec_layout`].
    pub fn layout(&self) -> (l: RegisterLayout)
        ensures
            l.fields@ == self.spec_layout(),
            l.wf(),
    {
        match self {
            RegisterAddress::WHO_AM_I => layout_who_am_i(),
            RegisterAddress::CTRL_REG1 => layout_ctrl_reg1(),
            RegisterAddress::CTRL_REG2 => layout_ctrl_reg2(),
            RegisterAddress::CTRL_REG3 => layout_ctrl_reg3(),
            RegisterAddress::CTRL_REG4 => layout_ctrl_reg4(),
            RegisterAddress::CTRL_REG5 => layout_ctrl_reg5(),
            RegisterAddress::REFERENCE => layout_reference(),
            RegisterAddress::OUT_TEMP => layout_out_temp(),
            RegisterAddress::STATUS_REG => layout_status_reg(),
            RegisterAddress::OUT_X_L => layout_out_x_l(),
            RegisterAddress::OUT_X_H => layout_out_x_h(),
            RegisterAddress::OUT_Y_L => layout_out_y_l(),
            RegisterAddress::OUT_Y_H => layout_out_y_h(),
            RegisterAddress::OUT_Z_L => layout_out_z_l(),
            RegisterAddress::OUT_Z_H => layout_out_z_h(),
            RegisterAddress::FIFO_CTRL_REG => layout_fifo_ctrl_reg(),
            RegisterAddress::FIFO_SRC_REG => layout_fifo_src_reg(),
            RegisterAddress::INT1_CFG => layout_int1_cfg(),
            RegisterAddress::INT1_SRC => layout_int1_src(),
            RegisterAddress::INT1_TSH_XH => layout_int1_tsh_xh(),
            RegisterAddress::INT1_TSH_XL => layout_int1_tsh_xl(),
            RegisterAddress::INT1_TSH_YH => layout_int1_tsh_yh(),
            RegisterAddress::INT1_TSH_YL => layout_int1_tsh_yl(),
            RegisterAddress::INT1_TSH_ZH => layout_int1_tsh_zh(),
            RegisterAddress::INT1_TSH_ZL => layout_int1_tsh_zl(),
            RegisterAddress::INT1_DURATION => layout_int1_duration(),
        }
    }
}

/// Law: the cataloged `CTRL_REG1` layout agrees with the typed view's
/// codec. Encoding any view's raw sub-values, in layout order, through
/// the generic engine of [`crate::layout`] yields exactly the byte that
/// [`ControlRegister1::into_bits`] produces.
pub proof fn lemma_ctrl_reg1_catalog_agrees(view: ControlRegister1)
    ensures
        spec_encode_fields(
            RegisterAddress::CTRL_REG1.spec_layout(),
            seq![
                view.output_data_rate.spec_into_bits(),
                view.bandwidth.spec_into_bits(),
                (if view.power_up { 1u8 } else { 0u8 }),
                (if view.z_enable { 1u8 } else { 0u8 }),
                (if view.x_enable { 1u8 } else { 0u8 }),
                (if view.y_enable { 1u8 } else { 0u8 }),
            ],
        ) == view.spec_into_bits(),
{
    lemma2_to64();
    reveal_with_fuel(spec_encode_fields, 8);
    let fields = RegisterAddress::CTRL_REG1.spec_layout();
    let values = seq![
        view.output_data_rate.spec_into_bits(),
        view.bandwidth.spec_into_bits(),
        (if view.power_up { 1u8 } else { 0u8 }),
        (if view.z_enable { 1u8 } else { 0u8 }),
        (if view.x_enable { 1u8 } else { 0u8 }),
        (if view.y_enable { 1u8 } else { 0u8 }),
    ];
    let o = view.output_data_rate.spec_into_bits() as int;
    let b = view.bandwidth.spec_into_bits() as int;
    let p = spec_bit_val(view.power_up);
    let z = spec_bit_val(view.z_enable);
    let x = spec_bit_val(view.x_enable);
    let y = spec_bit_val(view.y_enable);
    assert(fields.skip(1).skip(1) =~= fields.skip(2));
    assert(fields.skip(2).skip(1) =~= fields.skip(3));
    assert(fields.skip(3).skip(1) =~= fields.skip(4));
    assert(fields.skip(4).skip(1) =~= fields.skip(5));
    assert(values.skip(1).skip(1) =~= values.skip(2));
    assert(values.skip(2).skip(1) =~= values.skip(3));
    assert(values.skip(3).skip(1) =~= values.skip(4));
    assert(values.skip(4).skip(1) =~= values.skip(5));
    assert(fields.skip(5)[0] == fields[5]);
    assert(values.skip(5)[0] == values[5]);
    assert(fields.skip(5).skip(1).len() == 0);
    assert(fields[5].spec_contribution(values[5]) == (values[5] as int) * (
    vstd::arithmetic::power2::pow2(0) as int));
    assert(spec_encode_fields(fields.skip(5).skip(1), values.skip(5).skip(1)) == 0);
    assert(spec_encode_fields(fields.skip(5), values.skip(5)) == y);
    assert(fields.skip(4)[0] == fields[4]);
    assert(values.skip(4)[0] == values[4]);
    assert(spec_encode_fields(fields.skip(4), values.skip(4)) == x * 2 + y);
    assert(fields.skip(3)[0] == fields[3]);
    assert(values.skip(3)[0] == values[3]);
    assert(spec_encode_fields(fields.skip(3), values.skip(3)) == z * 4 + x * 2 + y);
    assert(fields.skip(2)[0] == fields[2]);
    assert(values.skip(2)[0] == values[2]);
    assert(spec_encode_fields(fields.skip(2), values.skip(2)) == p * 8 + z * 4 + x * 2 + y);
    assert(fields.skip(1)[0] == fields[1]);
    assert(values.skip(1)[0] == values[1]);
    assert(spec_encode_fields(fields.skip(1), values.skip(1)) == b * 16 + p * 8 + z * 4 + x * 2
        + y);
    assert(spec_encode_fields(fields, values) == o * 64 + b * 16 + p * 8 + z * 4 + x * 2 + y);
}

/// Law: the cataloged `FIFO_CTRL_REG` layout agrees with the typed view's
/// codec. Encoding any view's raw sub-values, in layout order, through
/// the generic engine of [`crate::layout`] yields exactly the byte that
/// [`FifoControlRegister::into_bits`] produces.
pub proof fn lemma_fifo_ctrl_catalog_agrees(view: FifoControlRegister)
    requires
        view.wf(),
    ensures
        spec_encode_fields(
            RegisterAddress::FIFO_CTRL_REG.spec_layout(),
            seq![view.fifo_mode.spec_into_bits(), view.watermark],
        ) == view.spec_into_bits(),
{
    lemma2_to64();
    reveal_with_fuel(spec_encode_fields, 4);
    let fields = RegisterAddress::FIFO_CTRL_REG.spec_layout();
    let values = seq![view.fifo_mode.spec_into_bits(), view.watermark];
    assert(fields.len() == 2);
    assert(values.skip(1).len() == 1);
    assert(fields.skip(1)[0] == fields[1]);
    assert(values.skip(1)[0] == values[1]);
    assert(fields.skip(1).skip(1).len() == 0);
    assert(spec_encode_fields(fields.skip(1).skip(1), values.skip(1).skip(1)) == 0);
    assert(fields[1].spec_contribution(values[1]) == view.watermark * 1);
    assert(spec_encode_fields(fields.skip(1), values.skip(1)) == view.watermark);
    assert(fields[0].spec_contribution(values[0]) == view.fifo_mode.spec_into_bits() * 32);
    assert(spec_encode_fields(fields, values) == view.fifo_mode.spec_into_bits() * 32 + view.watermark);
}

/// Builds the `WHO_AM_I` bit layout.
fn layout_who_am_i() -> (l: RegisterLayout)
    ensures
        l.fields@ == RegisterAddress::WHO_AM_I.spec_layout(),
        l.wf(),
{
    let mut fields: Vec<FieldDescriptor> = Vec::new();
    fields.push(FieldDescriptor { bit_offset: 0, bit_width: 8, access: FieldAccess::ReadOnly, reset: 0 });
    proof {
        lemma2_to64();
        assert(fields@ =~= RegisterAddress::WHO_AM_I.spec_layout());
        lemma_tiles_from_indexed(fields@, 8, 0);
    }
    RegisterLayout { fields }
}

/// Builds the `CTRL_REG1` bit layout.
fn layout_ctrl_reg1() -> (l: RegisterLayout)
    ensures
        l.fields@ == RegisterAddress::CTRL_REG1.spec_layout(),
        l.wf(),
{
    let mut fields: Vec<FieldDescriptor> = Vec::new();
    fields.push(FieldDescriptor { bit_offset: 6, bit_width: 2, access: FieldAccess::ReadWrite, reset: 0 });
    fields.push(FieldDescriptor { bit_offset: 4, bit_width: 2, access: FieldAccess::ReadWrite, reset: 0 });
    fields.push(FieldDescriptor { bit_offset: 3, bit_width: 1, access: FieldAccess::ReadWrite, reset: 0 });
    fields.push(FieldDescriptor { bit_offset: 2, bit_width: 1, access: FieldAccess::ReadWrite, reset: 1 });
    fields.push(FieldDescriptor { bit_offset: 1, bit_width: 1, access: FieldAccess::ReadWrite, reset: 1 });
    fields.push(FieldDescriptor { bit_offset: 0, bit_width: 1, access: FieldAccess::ReadWrite, reset: 1 });
    proof {
        lemma2_to64();
        assert(fields@ =~= RegisterAddress::CTRL_REG1.spec_layout());
        lemma_tiles_from_indexed(fields@, 8, 0);
    }
    RegisterLayout { fields }
}

/// Builds the `CTRL_REG2` bit layout.
fn layout_ctrl_reg2() -> (l: RegisterLayout)
    ensures
        l.fields@ == RegisterAddress::CTRL_REG2.spec_layout(),
        l.wf(),
{
    let mut fields: Vec<FieldDescriptor> = Vec::new();
    fields.push(FieldDescriptor { bit_offset: 6, bit_width: 2, access: FieldAccess::Reserved, reset: 0 });
    fields.push(FieldDescriptor { bit_offset: 4, bit_width: 2, access: FieldAccess::ReadWrite, reset: 0 });
    fields.push(FieldDescriptor { bit_offset: 0, bit_width: 4, access: FieldAccess::ReadWrite, reset: 0 });
    proof {
        lemma2_to64();
        assert(fields@ =~= RegisterAddress::CTRL_REG2.spec_layout());
        lemma_tiles_from_indexed(fields@, 8, 0);
    }
    RegisterLayout { fields }
}

/// Builds the `CTRL_REG3` bit layout.
fn layout_ctrl_reg3() -> (l: RegisterLayout)
    ensures
        l.fields@ == RegisterAddress::CTRL_REG3.spec_layout(),
        l.wf(),
{
    let mut fields: Vec<FieldDescriptor> = Vec::new();
    fields.push(FieldDescriptor { bit_offset: 7, bit_width: 1, access: FieldAccess::ReadWrite, reset: 0 });
    fields.push(FieldDescriptor { bit_offset: 6, bit_width: 1, access: FieldAccess::ReadWrite, reset: 0 });
    fields.push(FieldDescriptor { bit_offset: 5, bit_width: 1, access: FieldAccess::ReadWrite, reset: 0 });
    fields.push(FieldDescriptor { bit_offset: 4, bit_width: 1, access: FieldAccess::ReadWrite, reset: 0 });
    fields.push(FieldDescriptor { bit_offset: 3, bit_width: 1, access: FieldAccess::ReadWrite, reset: 0 });
    fields.push(FieldDescriptor { bit_offset: 2, bit_width: 1, access: FieldAccess::ReadWrite, reset: 0 });
    fields.push(FieldDescriptor { bit_offset: 1, bit_width: 1, access: FieldAccess::ReadWrite, reset: 0 });
    fields.push(FieldDescriptor { bit_offset: 0, bit_width: 1, access: FieldAccess::ReadWrite, reset: 0 });
    proof {
        lemma2_to64();
        assert(fields@ =~= RegisterAddress::CTRL_REG3.spec_layout());
        lemma_tiles_from_indexed(fields@, 8, 0);
    }
    RegisterLayout { fields }
}

/// Builds the `CTRL_REG4` bit layout.
fn layout_ctrl_reg4() -> (l: RegisterLayout)
    ensures
        l.fields@ == RegisterAddress::CTRL_REG4.spec_layout(),
        l.wf(),
{
    let mut fields: Vec<FieldDescriptor> = Vec::new();
    fields.push(FieldDescriptor { bit_offset: 7, bit_width: 1, access: FieldAccess::ReadWrite, reset: 0 });
    fields.push(FieldDescriptor { bit_offset: 6, bit_width: 1, access: FieldAccess::ReadWrite, reset: 0 });
    fields.push(FieldDescriptor { bit_offset: 4, bit_width: 2, access: FieldAccess::ReadWrite, reset: 0 });
    fields.push(FieldDescriptor { bit_offset: 1, bit_width: 3, access: FieldAccess::Reserved, reset: 0 });
    fields.push(FieldDescriptor { bit_offset: 0, bit_width: 1, access: FieldAccess::ReadWrite, reset: 0 });
    proof {
        lemma2_to64();
        assert(fields@ =~= RegisterAddress::CTRL_REG4.spec_layout());
        lemma_tiles_from_indexed(fields@, 8, 0);
    }
    RegisterLayout { fields }
}

/// Builds the `CTRL_REG5` bit layout.
fn layout_ctrl_reg5() -> (l: RegisterLayout)
    ensures
        l.fields@ == RegisterAddress::CTRL_REG5.spec_layout(),
        l.wf(),
{
    let mut fields: Vec<FieldDescriptor> = Vec::new();
    fields.push(FieldDescriptor { bit_offset: 7, bit_width: 1, access: FieldAccess::ReadWrite, reset: 0 });
    fields.push(FieldDescriptor { bit_offset: 6, bit_width: 1, access: FieldAccess::ReadWrite, reset: 0 });
    fields.push(FieldDescriptor { bit_offset: 5, bit_width: 1, access: FieldAccess::Reserved, reset: 0 });
    fields.push(FieldDescriptor { bit_offset: 4, bit_width: 1, access: FieldAccess::ReadWrite, reset: 0 });
    fields.push(FieldDescriptor { bit_offset: 2, bit_width: 2, access: FieldAccess::ReadWrite, reset: 0 });
    fields.push(FieldDescriptor { bit_offset: 0, bit_width: 2, access: FieldAccess::ReadWrite, reset: 0 });
    proof {
        lemma2_to64();
        assert(fields@ =~= RegisterAddress::CTRL_REG5.spec_layout());
        lemma_tiles_from_indexed(fields@, 8, 0);
    }
    RegisterLayout { fields }
}

/// Builds the `REFERENCE` bit layout.
fn layout_reference() -> (l: RegisterLayout)
    ensures
        l.fields@ == RegisterAddress::REFERENCE.spec_layout(),
        l.wf(),
{
    let mut fields: Vec<FieldDescriptor> = Vec::new();
    fields.push(FieldDescriptor { bit_offset: 0, bit_width: 8, access: FieldAccess::ReadWrite, reset: 0 });
    proof {
        lemma2_to64();
        assert(fields@ =~= RegisterAddress::REFERENCE.spec_layout());
        lemma_tiles_from_indexed(fields@, 8, 0);
    }
    RegisterLayout { fields }
}

/// Builds the `OUT_TEMP` bit layout.
fn layout_out_temp() -> (l: RegisterLayout)
    ensures
        l.fields@ == RegisterAddress::OUT_TEMP.spec_layout(),
        l.wf(),
{
    let mut fields: Vec<FieldDescriptor> = Vec::new();
    fields.push(FieldDescriptor { bit_offset: 0, bit_width: 8, access: FieldAccess::ReadOnly, reset: 0 });
    proof {
        lemma2_to64();
        assert(fields@ =~= RegisterAddress::OUT_TEMP.spec_layout());
        lemma_tiles_from_indexed(fields@, 8, 0);
    }
    RegisterLayout { fields }
}

/// Builds the `STATUS_REG` bit layout.
fn layout_status_reg() -> (l: RegisterLayout)
    ensures
        l.fields@ == RegisterAddress::STATUS_REG.spec_layout(),
        l.wf(),
{
    let mut fields: Vec<FieldDescriptor> = Vec::new();
    fields.push(FieldDescriptor { bit_offset: 7, bit_width: 1, access: FieldAccess::ReadOnly, reset: 0 });
    fields.push(FieldDescriptor { bit_offset: 6, bit_width: 1, access: FieldAccess::ReadOnly, reset: 0 });
    fields.push(FieldDescriptor { bit_offset: 5, bit_width: 1, access: FieldAccess::ReadOnly, reset: 0 });
    fields.push(FieldDescriptor { bit_offset: 4, bit_width: 1, access: FieldAccess::ReadOnly, reset: 0 });
    fields.push(FieldDescriptor { bit_offset: 3, bit_width: 1, access: FieldAccess::ReadOnly, reset: 0 });
    fields.push(FieldDescriptor { bit_offset: 2, bit_width: 1, access: FieldAccess::ReadOnly, reset: 0 });
    fields.push(FieldDescriptor { bit_offset: 1, bit_width: 1, access: FieldAccess::ReadOnly, reset: 0 });
    fields.push(FieldDescriptor { bit_offset: 0, bit_width: 1, access: FieldAccess::ReadOnly, reset: 0 });
    proof {
        lemma2_to64();
        assert(fields@ =~= RegisterAddress::STATUS_REG.spec_layout());
        lemma_tiles_from_indexed(fields@, 8, 0);
    }
    RegisterLayout { fields }
}

/// Builds the `OUT_X_L` bit layout.
fn layout_out_x_l() -> (l: RegisterLayout)
    ensures
        l.fields@ == RegisterAddress::OUT_X_L.spec_layout(),
        l.wf(),
{
    let mut fields: Vec<FieldDescriptor> = Vec::new();
    fields.push(FieldDescriptor { bit_offset: 0, bit_width: 8, access: FieldAccess::ReadOnly, reset: 0 });
    proof {
        lemma2_to64();
        assert(fields@ =~= RegisterAddress::OUT_X_L.spec_layout());
        lemma_tiles_from_indexed(fields@, 8, 0);
    }
    RegisterLayout { fields }
}

/// Builds the `OUT_X_H` bit layout.
fn layout_out_x_h() -> (l: RegisterLayout)
    ensures
        l.fields@ == RegisterAddress::OUT_X_H.spec_layout(),
        l.wf(),
{
    let mut fields: Vec<FieldDescriptor> = Vec::new();
    fields.push(FieldDescriptor { bit_offset: 0, bit_width: 8, access: FieldAccess::ReadOnly, reset: 0 });
    proof {
        lemma2_to64();
        assert(fields@ =~= RegisterAddress::OUT_X_H.spec_layout());
        lemma_tiles_from_indexed(fields@, 8, 0);
    }
    RegisterLayout { fields }
}

/// Builds the `OUT_Y_L` bit layout.
fn layout_out_y_l() -> (l: RegisterLayout)
    ensures
        l.fields@ == RegisterAddress::OUT_Y_L.spec_layout(),
        l.wf(),
{
    let mut fields: Vec<FieldDescriptor> = Vec::new();
    fields.push(FieldDescriptor { bit_offset: 0, bit_width: 8, access: FieldAccess::ReadOnly, reset: 0 });
    proof {
        lemma2_to64();
        assert(fields@ =~= RegisterAddress::OUT_Y_L.spec_layout());
        lemma_tiles_from_indexed(fields@, 8, 0);
    }
    RegisterLayout { fields }
}

/// Builds the `OUT_Y_H` bit layout.
fn layout_out_y_h() -> (l: RegisterLayout)
    ensures
        l.fields@ == RegisterAddress::OUT_Y_H.spec_layout(),
        l.wf(),
{
    let mut fields: Vec<FieldDescriptor> = Vec::new();
    fields.push(FieldDescriptor { bit_offset: 0, bit_width: 8, access: FieldAccess::ReadOnly, reset: 0 });
    proof {
        lemma2_to64();
        assert(fields@ =~= RegisterAddress::OUT_Y_H.spec_layout());
        lemma_tiles_from_indexed(fields@, 8, 0);
    }
    RegisterLayout { fields }
}

/// Builds the `OUT_Z_L` bit layout.
fn layout_out_z_l() -> (l: RegisterLayout)
    ensures
        l.fields@ == RegisterAddress::OUT_Z_L.spec_layout(),
        l.wf(),
{
    let mut fields: Vec<FieldDescriptor> = Vec::new();
    fields.push(FieldDescriptor { bit_offset: 0, bit_width: 8, access: FieldAccess::ReadOnly, reset: 0 });
    proof {
        lemma2_to64();
        assert(fields@ =~= RegisterAddress::OUT_Z_L.spec_layout());
        lemma_tiles_from_indexed(fields@, 8, 0);
    }
    RegisterLayout { fields }
}

/// Builds the `OUT_Z_H` bit layout.
fn layout_out_z_h() -> (l: RegisterLayout)
    ensures
        l.fields@ == RegisterAddress::OUT_Z_H.spec_layout(),
        l.wf(),
{
    let mut fields: Vec<FieldDescriptor> = Vec::new();
    fields.push(FieldDescriptor { bit_offset: 0, bit_width: 8, access: FieldAccess::ReadOnly, reset: 0 });
    proof {
        lemma2_to64();
        assert(fields@ =~= RegisterAddress::OUT_Z_H.spec_layout());
        lemma_tiles_from_indexed(fields@, 8, 0);
    }
    RegisterLayout { fields }
}

/// Builds the `FIFO_CTRL_REG` bit layout.
fn layout_fifo_ctrl_reg() -> (l: RegisterLayout)
    ensures
        l.fields@ == RegisterAddress::FIFO_CTRL_REG.spec_layout(),
        l.wf(),
{
    let mut fields: Vec<FieldDescriptor> = Vec::new();
    fields.push(FieldDescriptor { bit_offset: 5, bit_width: 3, access: FieldAccess::ReadWrite, reset: 0 });
    fields.push(FieldDescriptor { bit_offset: 0, bit_width: 5, access: FieldAccess::ReadWrite, reset: 0 });
    proof {
        lemma2_to64();
        assert(fields@ =~= RegisterAddress::FIFO_CTRL_REG.spec_layout());
        lemma_tiles_from_indexed(fields@, 8, 0);
    }
    RegisterLayout { fields }
}

/// Builds the `FIFO_SRC_REG` bit layout.
fn layout_fifo_src_reg() -> (l: RegisterLayout)
    ensures
        l.fields@ == RegisterAddress::FIFO_SRC_REG.spec_layout(),
        l.wf(),
{
    let mut fields: Vec<FieldDescriptor> = Vec::new();
    fields.push(FieldDescriptor { bit_offset: 7, bit_width: 1, access: FieldAccess::ReadOnly, reset: 0 });
    fields.push(FieldDescriptor { bit_offset: 6, bit_width: 1, access: FieldAccess::ReadOnly, reset: 0 });
    fields.push(FieldDescriptor { bit_offset: 5, bit_width: 1, access: FieldAccess::ReadOnly, reset: 0 });
    fields.push(FieldDescriptor { bit_offset: 0, bit_width: 5, access: FieldAccess::ReadOnly, reset: 0 });
    proof {
        lemma2_to64();
        assert(fields@ =~= RegisterAddress::FIFO_SRC_REG.spec_layout());
        lemma_tiles_from_indexed(fields@, 8, 0);
    }
    RegisterLayout { fields }
}

/// Builds the `INT1_CFG` bit layout.
fn layout_int1_cfg() -> (l: RegisterLayout)
    ensures
        l.fields@ == RegisterAddress::INT1_CFG.spec_layout(),
        l.wf(),
{
    let mut fields: Vec<FieldDescriptor> = Vec::new();
    fields.push(FieldDescriptor { bit_offset: 7, bit_width: 1, access: FieldAccess::ReadWrite, reset: 0 });
    fields.push(FieldDescriptor { bit_offset: 6, bit_width: 1, access: FieldAccess::ReadWrite, reset: 0 });
    fields.push(FieldDescriptor { bit_offset: 5, bit_width: 1, access: FieldAccess::ReadWrite, reset: 0 });
    fields.push(FieldDescriptor { bit_offset: 4, bit_width: 1, access: FieldAccess::ReadWrite, reset: 0 });
    fields.push(FieldDescriptor { bit_offset: 3, bit_width: 1, access: FieldAccess::ReadWrite, reset: 0 });
    fields.push(FieldDescriptor { bit_offset: 2, bit_width: 1, access: FieldAccess::ReadWrite, reset: 0 });
    fields.push(FieldDescriptor { bit_offset: 1, bit_width: 1, access: FieldAccess::ReadWrite, reset: 0 });
    fields.push(FieldDescriptor { bit_offset: 0, bit_width: 1, access: FieldAccess::ReadWrite, reset: 0 });
    proof {
        lemma2_to64();
        assert(fields@ =~= RegisterAddress::INT1_CFG.spec_layout());
        lemma_tiles_from_indexed(fields@, 8, 0);
    }
    RegisterLayout { fields }
}

/// Builds the `INT1_SRC` bit layout.
fn layout_int1_src() -> (l: RegisterLayout)
    ensures
        l.fields@ == RegisterAddress::INT1_SRC.spec_layout(),
        l.wf(),
{
    let mut fields: Vec<FieldDescriptor> = Vec::new();
    fields.push(FieldDescriptor { bit_offset: 7, bit_width: 1, access: FieldAccess::Reserved, reset: 0 });
    fields.push(FieldDescriptor { bit_offset: 6, bit_width: 1, access: FieldAccess::ReadOnly, reset: 0 });
    fields.push(FieldDescriptor { bit_offset: 5, bit_width: 1, access: FieldAccess::ReadOnly, reset: 0 });
    fields.push(FieldDescriptor { bit_offset: 4, bit_width: 1, access: FieldAccess::ReadOnly, reset: 0 });
    fields.push(FieldDescriptor { bit_offset: 3, bit_width: 1, access: FieldAccess::ReadOnly, reset: 0 });
    fields.push(FieldDescriptor { bit_offset: 2, bit_width: 1, access: FieldAccess::ReadOnly, reset: 0 });
    fields.push(FieldDescriptor { bit_offset: 1, bit_width: 1, access: FieldAccess::ReadOnly, reset: 0 });
    fields.push(FieldDescriptor { bit_offset: 0, bit_width: 1, access: FieldAccess::ReadOnly, reset: 0 });
    proof {
        lemma2_to64();
        assert(fields@ =~= RegisterAddress::INT1_SRC.spec_layout());
        lemma_tiles_from_indexed(fields@, 8, 0);
    }
    RegisterLayout { fields }
}

/// Builds the `INT1_TSH_XH` bit layout.
fn layout_int1_tsh_xh() -> (l: RegisterLayout)
    ensures
        l.fields@ == RegisterAddress::INT1_TSH_XH.spec_layout(),
        l.wf(),
{
    let mut fields: Vec<FieldDescriptor> = Vec::new();
    fields.push(FieldDescriptor { bit_offset: 7, bit_width: 1, access: FieldAccess::Reserved, reset: 0 });
    fields.push(FieldDescriptor { bit_offset: 0, bit_width: 7, access: FieldAccess::ReadWrite, reset: 0 });
    proof {
        lemma2_to64();
        assert(fields@ =~= RegisterAddress::INT1_TSH_XH.spec_layout());
        lemma_tiles_from_indexed(fields@, 8, 0);
    }
    RegisterLayout { fields }
}

/// Builds the `INT1_TSH_XL` bit layout.
fn layout_int1_tsh_xl() -> (l: RegisterLayout)
    ensures
        l.fields@ == RegisterAddress::INT1_TSH_XL.spec_layout(),
        l.wf(),
{
    let mut fields: Vec<FieldDescriptor> = Vec::new();
    fields.push(FieldDescriptor { bit_offset: 0, bit_width: 8, access: FieldAccess::ReadWrite, reset: 0 });
    proof {
        lemma2_to64();
        assert(fields@ =~= RegisterAddress::INT1_TSH_XL.spec_layout());
        lemma_tiles_from_indexed(fields@, 8, 0);
    }
    RegisterLayout { fields }
}

/// Builds the `INT1_TSH_YH` bit layout.
fn layout_int1_tsh_yh() -> (l: RegisterLayout)
    ensures
        l.fields@ == RegisterAddress::INT1_TSH_YH.spec_layout(),
        l.wf(),
{
    let mut fields: Vec<FieldDescriptor> = Vec::new();
    fields.push(FieldDescriptor { bit_offset: 7, bit_width: 1, access: FieldAccess::Reserved, reset: 0 });
    fields.push(FieldDescriptor { bit_offset: 0, bit_width: 7, access: FieldAccess::ReadWrite, reset: 0 });
    proof {
        lemma2_to64();
        assert(fields@ =~= RegisterAddress::INT1_TSH_YH.spec_layout());
        lemma_tiles_from_indexed(fields@, 8, 0);
    }
    RegisterLayout { fields }
}

/// Builds the `INT1_TSH_YL` bit layout.
fn layout_int1_tsh_yl() -> (l: RegisterLayout)
    ensures
        l.fields@ == RegisterAddress::INT1_TSH_YL.spec_layout(),
        l.wf(),
{
    let mut fields: Vec<FieldDescriptor> = Vec::new();
    fields.push(FieldDescriptor { bit_offset: 0, bit_width: 8, access: FieldAccess::ReadWrite, reset: 0 });
    proof {
        lemma2_to64();
        assert(fields@ =~= RegisterAddress::INT1_TSH_YL.spec_layout());
        lemma_tiles_from_indexed(fields@, 8, 0);
    }
    RegisterLayout { fields }
}

/// Builds the `INT1_TSH_ZH` bit layout.
fn layout_int1_tsh_zh() -> (l: RegisterLayout)
    ensures
        l.fields@ == RegisterAddress::INT1_TSH_ZH.spec_layout(),
        l.wf(),
{
    let mut fields: Vec<FieldDescriptor> = Vec::new();
    fields.push(FieldDescriptor { bit_offset: 7, bit_width: 1, access: FieldAccess::Reserved, reset: 0 });
    fields.push(FieldDescriptor { bit_offset: 0, bit_width: 7, access: FieldAccess::ReadWrite, reset: 0 });
    proof {
        lemma2_to64();
        assert(fields@ =~= RegisterAddress::INT1_TSH_ZH.spec_layout());
        lemma_tiles_from_indexed(fields@, 8, 0);
    }
    RegisterLayout { fields }
}

/// Builds the `INT1_TSH_ZL` bit layout.
fn layout_int1_tsh_zl() -> (l: RegisterLayout)
    ensures
        l.fields@ == RegisterAddress::INT1_TSH_ZL.spec_layout(),
        l.wf(),
{
    let mut fields: Vec<FieldDescriptor> = Vec::new();
    fields.push(FieldDescriptor { bit_offset: 0, bit_width: 8, access: FieldAccess::ReadWrite, reset: 0 });
    proof {
        lemma2_to64();
        assert(fields@ =~= RegisterAddress::INT1_TSH_ZL.spec_layout());
        lemma_tiles_from_indexed(fields@, 8, 0);
    }
    RegisterLayout { fields }
}

/// Builds the `INT1_DURATION` bit layout.
fn layout_int1_duration() -> (l: RegisterLayout)
    ensures
        l.fields@ == RegisterAddress::INT1_DURATION.spec_layout(),
        l.wf(),
{
    let mut fields: Vec<FieldDescriptor> = Vec::new();
    fields.push(FieldDescriptor { bit_offset: 7, bit_width: 1, access: FieldAccess::ReadWrite, reset: 0 });
    fields.push(FieldDescriptor { bit_offset: 0, bit_width: 7, access: FieldAccess::ReadWrite, reset: 0 });
    proof {
        lemma2_to64();
        assert(fields@ =~= RegisterAddress::INT1_DURATION.spec_layout());
        lemma_tiles_from_indexed(fields@, 8, 0);
    }
    RegisterLayout { fields }
}

} // verus!
