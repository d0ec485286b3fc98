//! Typed register views: encode/decode scenarios and round trips.

use l3gd20_registers::gyro::{
    ControlRegister1, ControlRegister2, ControlRegister3, ControlRegister4, ControlRegister5,
    FifoControlRegister, FifoSourceRegister, Int1ConfigurationRegister, Int1DurationRegister,
    Int1SourceRegisterA, Int1ThresholdRegisterXH, Int1ThresholdRegisterXL,
    Int1ThresholdRegisterYH, Int1ThresholdRegisterYL, Int1ThresholdRegisterZH,
    Int1ThresholdRegisterZL, OutXHigh, OutXLow, ReferenceRegister, StatusRegister,
    TemperatureRegister, WhoAmI,
};
use l3gd20_registers::types::{
    Bandwidth, FifoMode, HighpassFilterMode, OutputDataRate, Sensitivity,
};

#[test]
fn every_register_view_knows_its_catalog_entry() {
    assert_eq!(WhoAmI::register_address().addr(), 0x0F);
    assert_eq!(ControlRegister1::register_address().addr(), 0x20);
    assert_eq!(ControlRegister5::register_address().addr(), 0x24);
    assert_eq!(TemperatureRegister::register_address().addr(), 0x26);
    assert_eq!(OutXLow::register_address().addr(), 0x28);
    assert_eq!(FifoControlRegister::register_address().addr(), 0x2E);
    assert_eq!(Int1ThresholdRegisterZL::register_address().addr(), 0x37);
    assert_eq!(Int1DurationRegister::register_address().addr(), 0x38);
}

#[test]
fn typed_views_build_write_operations_only_for_writable_registers() {
    let view = ControlRegister1 {
        output_data_rate: OutputDataRate::Hz760,
        bandwidth: Bandwidth::Wide,
        power_up: true,
        z_enable: true,
        x_enable: true,
        y_enable: true,
    };
    let op = ControlRegister1::register_address()
        .write_operation(view.into_bits())
        .unwrap();
    assert_eq!(op.address, 0x20);
    assert_eq!(op.value, 0xFF);
    // The status register is read-only: no write operation can be built.
    let refused = StatusRegister::register_address()
        .write_operation(StatusRegister::new().into_bits());
    assert!(refused.is_err());
}

#[test]
fn rate_control_register_encodes_the_full_speed_setup_to_ff() {
    let view = ControlRegister1 {
        output_data_rate: OutputDataRate::Hz760,
        bandwidth: Bandwidth::Wide,
        power_up: true,
        z_enable: true,
        x_enable: true,
        y_enable: true,
    };
    assert_eq!(view.into_bits(), 0xFF);
    let decoded = ControlRegister1::from_bits(0xFF);
    assert_eq!(decoded, view);
    assert_eq!(decoded.output_data_rate, OutputDataRate::Hz760);
    assert_eq!(decoded.bandwidth, Bandwidth::Wide);
    assert!(decoded.power_up);
    assert!(decoded.z_enable);
    assert!(decoded.x_enable);
    assert!(decoded.y_enable);
}

#[test]
fn rate_control_register_round_trips_every_byte() {
    for raw in 0..=255u8 {
        assert_eq!(ControlRegister1::from_bits(raw).into_bits(), raw);
    }
}

#[test]
fn rate_control_register_default_enables_all_axes() {
    let view = ControlRegister1::new();
    assert!(view.z_enable);
    assert!(view.x_enable);
    assert!(view.y_enable);
    assert!(!view.power_up);
    assert_eq!(view.into_bits(), 0b0000_0111);
}

#[test]
fn fifo_control_register_encodes_stream_with_watermark_to_45() {
    let view = FifoControlRegister {
        fifo_mode: FifoMode::Stream,
        watermark: 0b00101,
    };
    assert_eq!(view.into_bits(), 0x45);
    let decoded = FifoControlRegister::from_bits(0x45);
    assert_eq!(decoded.fifo_mode, FifoMode::Stream);
    assert_eq!(decoded.watermark, 0b00101);
}

#[test]
fn fifo_control_register_round_trips_every_defined_byte() {
    for raw in 0..=255u8 {
        if raw / 32 < 5 {
            assert_eq!(FifoControlRegister::from_bits(raw).into_bits(), raw);
        }
    }
}

#[test]
fn who_am_i_holds_the_identification_byte() {
    let view = WhoAmI::from_bits(0b1101_0100);
    assert_eq!(view.ident, 0b1101_0100);
    assert_eq!(view.into_bits(), 0b1101_0100);
}

#[test]
fn control_register_2_discards_reserved_bits_on_decode() {
    // The two top bits are reserved: a raw byte with them set decodes to
    // the same view as the byte with them cleared.
    let noisy = ControlRegister2::from_bits(0b11_01_0110);
    let clean = ControlRegister2::from_bits(0b00_01_0110);
    assert_eq!(noisy, clean);
    assert_eq!(noisy.hpm, HighpassFilterMode::ReferenceSignal);
    assert_eq!(noisy.hpcf, 0b0110);
    // Re-encoding forces the reserved bits back to their constant.
    assert_eq!(noisy.into_bits(), 0b00_01_0110);
}

#[test]
fn control_register_2_round_trips_bytes_with_clear_reserved_bits() {
    for raw in 0..64u8 {
        assert_eq!(ControlRegister2::from_bits(raw).into_bits(), raw);
    }
}

#[test]
fn control_register_3_round_trips_every_byte() {
    for raw in 0..=255u8 {
        assert_eq!(ControlRegister3::from_bits(raw).into_bits(), raw);
    }
}

#[test]
fn control_register_3_places_each_flag() {
    let view = ControlRegister3::from_bits(0b1000_0001);
    assert!(view.i1int1);
    assert!(view.i2empty);
    assert!(!view.i1boot);
    assert!(!view.i2orun);
}

#[test]
fn control_register_4_keeps_full_scale_and_masks_reserved_bits() {
    let view = ControlRegister4::from_bits(0b10_11_1110);
    assert!(view.block_data_update);
    assert!(!view.big_endian);
    assert_eq!(view.full_scale, Sensitivity::D2000_11);
    assert!(!view.spi_serial_3wire);
    // Bits 3..1 are reserved: encode forces them back to zero.
    assert_eq!(view.into_bits(), 0b10_11_0000);
}

#[test]
fn control_register_4_round_trips_bytes_with_clear_reserved_bits() {
    for raw in 0..=255u8 {
        if (raw / 2) % 8 == 0 {
            assert_eq!(ControlRegister4::from_bits(raw).into_bits(), raw);
        }
    }
}

#[test]
fn control_register_5_round_trips_bytes_with_clear_reserved_bit() {
    for raw in 0..=255u8 {
        if (raw / 32) % 2 == 0 {
            assert_eq!(ControlRegister5::from_bits(raw).into_bits(), raw);
        }
    }
}

#[test]
fn control_register_5_splits_the_two_selection_fields() {
    let view = ControlRegister5::from_bits(0b1101_1110);
    assert!(view.boot);
    assert!(view.fifo_enable);
    assert!(view.hpen);
    assert_eq!(view.int1_sel, 0b11);
    assert_eq!(view.out_sel, 0b10);
}

#[test]
fn reference_and_temperature_registers_carry_the_full_byte() {
    assert_eq!(ReferenceRegister::from_bits(0xA5).reference, 0xA5);
    assert_eq!(ReferenceRegister { reference: 0x3C }.into_bits(), 0x3C);
    assert_eq!(TemperatureRegister::from_bits(0xE9).temp, 0xE9);
    assert_eq!(TemperatureRegister { temp: 0x12 }.into_bits(), 0x12);
}

#[test]
fn status_register_round_trips_every_byte() {
    for raw in 0..=255u8 {
        assert_eq!(StatusRegister::from_bits(raw).into_bits(), raw);
    }
}

#[test]
fn status_register_places_each_flag() {
    let view = StatusRegister::from_bits(0b0100_1000);
    assert!(view.z_overrun);
    assert!(view.zyx_da);
    assert!(!view.zyx_overrun);
    assert!(!view.x_da);
}

#[test]
fn out_registers_carry_the_full_byte() {
    assert_eq!(OutXLow::from_bits(0x7B).bits, 0x7B);
    assert_eq!(OutXHigh { bits: 0xC4 }.into_bits(), 0xC4);
}

#[test]
fn fifo_source_register_splits_level_and_flags() {
    let view = FifoSourceRegister::from_bits(0b101_11010);
    assert!(view.wtm);
    assert!(!view.ovrn_fifo);
    assert!(view.empty);
    assert_eq!(view.fss, 0b11010);
    assert_eq!(view.into_bits(), 0b101_11010);
}

#[test]
fn int1_configuration_register_round_trips_every_byte() {
    for raw in 0..=255u8 {
        assert_eq!(Int1ConfigurationRegister::from_bits(raw).into_bits(), raw);
    }
}

#[test]
fn int1_source_register_masks_the_fixed_top_bit() {
    let view = Int1SourceRegisterA::from_bits(0b1100_0101);
    assert!(view.ia);
    assert!(!view.z_high);
    assert!(view.y_low);
    assert!(!view.x_high);
    assert!(view.x_low);
    // The top bit is fixed at zero: encode forces it back.
    assert_eq!(view.into_bits(), 0b0100_0101);
}

#[test]
fn threshold_registers_round_trip_their_fields() {
    for raw in 0..128u8 {
        assert_eq!(Int1ThresholdRegisterXH::from_bits(raw).into_bits(), raw);
        assert_eq!(Int1ThresholdRegisterYH::from_bits(raw).into_bits(), raw);
        assert_eq!(Int1ThresholdRegisterZH::from_bits(raw).into_bits(), raw);
    }
    for raw in 0..=255u8 {
        assert_eq!(Int1ThresholdRegisterXL::from_bits(raw).into_bits(), raw);
        assert_eq!(Int1ThresholdRegisterYL::from_bits(raw).into_bits(), raw);
        assert_eq!(Int1ThresholdRegisterZL::from_bits(raw).into_bits(), raw);
    }
}

#[test]
fn threshold_high_registers_mask_the_fixed_top_bit() {
    let view = Int1ThresholdRegisterXH::from_bits(0b1010_0001);
    assert_eq!(view.threshold, 0b010_0001);
    assert_eq!(view.into_bits(), 0b0010_0001);
}

#[test]
fn int1_duration_register_splits_wait_and_duration() {
    let view = Int1DurationRegister::from_bits(0b1000_1100);
    assert!(view.wait);
    assert_eq!(view.duration, 0b000_1100);
    assert_eq!(view.into_bits(), 0b1000_1100);
    for raw in 0..=255u8 {
        assert_eq!(Int1DurationRegister::from_bits(raw).into_bits(), raw);
    }
}
