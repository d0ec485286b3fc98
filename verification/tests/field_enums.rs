//! Round-trip and totality checks for the field enumerations.

use l3gd20_registers::types::{
    Bandwidth, FifoMode, HighpassFilterMode, OutputDataRate, Sensitivity,
};

#[test]
fn output_data_rate_round_trips_every_variant() {
    let variants = [
        OutputDataRate::Hz95,
        OutputDataRate::Hz190,
        OutputDataRate::Hz380,
        OutputDataRate::Hz760,
    ];
    for v in variants {
        assert_eq!(OutputDataRate::from_bits(v.into_bits()), v);
    }
}

#[test]
fn output_data_rate_decodes_every_pattern() {
    for raw in 0..4u8 {
        assert_eq!(OutputDataRate::from_bits(raw).into_bits(), raw);
    }
}

#[test]
fn output_data_rate_exact_codes() {
    assert_eq!(OutputDataRate::Hz95.into_bits(), 0b00);
    assert_eq!(OutputDataRate::Hz190.into_bits(), 0b01);
    assert_eq!(OutputDataRate::Hz380.into_bits(), 0b10);
    assert_eq!(OutputDataRate::Hz760.into_bits(), 0b11);
}

#[test]
fn bandwidth_round_trips_every_variant() {
    let variants = [
        Bandwidth::Narrowest,
        Bandwidth::Narrow,
        Bandwidth::Medium,
        Bandwidth::Wide,
    ];
    for v in variants {
        assert_eq!(Bandwidth::from_bits(v.into_bits()), v);
    }
}

#[test]
fn bandwidth_decodes_every_pattern() {
    for raw in 0..4u8 {
        assert_eq!(Bandwidth::from_bits(raw).into_bits(), raw);
    }
}

#[test]
fn bandwidth_lookup_table_in_tenths_of_hertz() {
    assert_eq!(Bandwidth::Narrowest.hz_tenths_at(OutputDataRate::Hz95), 125);
    assert_eq!(Bandwidth::Narrowest.hz_tenths_at(OutputDataRate::Hz380), 200);
    assert_eq!(Bandwidth::Narrowest.hz_tenths_at(OutputDataRate::Hz760), 300);
    assert_eq!(Bandwidth::Narrow.hz_tenths_at(OutputDataRate::Hz760), 350);
    assert_eq!(Bandwidth::Medium.hz_tenths_at(OutputDataRate::Hz95), 250);
    assert_eq!(Bandwidth::Medium.hz_tenths_at(OutputDataRate::Hz190), 500);
    assert_eq!(Bandwidth::Wide.hz_tenths_at(OutputDataRate::Hz190), 700);
    assert_eq!(Bandwidth::Wide.hz_tenths_at(OutputDataRate::Hz380), 1000);
}

#[test]
fn highpass_filter_mode_round_trips_every_variant() {
    let variants = [
        HighpassFilterMode::NormalModeResetFilter,
        HighpassFilterMode::ReferenceSignal,
        HighpassFilterMode::NormalMode,
        HighpassFilterMode::AutoresetOnInterrupt,
    ];
    for v in variants {
        assert_eq!(HighpassFilterMode::from_bits(v.into_bits()), v);
    }
}

#[test]
fn highpass_filter_mode_decodes_every_pattern() {
    for raw in 0..4u8 {
        assert_eq!(HighpassFilterMode::from_bits(raw).into_bits(), raw);
    }
}

#[test]
fn sensitivity_round_trips_every_variant() {
    let variants = [
        Sensitivity::D250,
        Sensitivity::D500,
        Sensitivity::D2000,
        Sensitivity::D2000_11,
    ];
    for v in variants {
        assert_eq!(Sensitivity::from_bits(v.into_bits()), v);
    }
}

#[test]
fn sensitivity_decodes_every_pattern() {
    for raw in 0..4u8 {
        assert_eq!(Sensitivity::from_bits(raw).into_bits(), raw);
    }
}

#[test]
fn sensitivity_keeps_the_two_synonymous_codes_distinct() {
    let from_10 = Sensitivity::from_bits(0b10);
    let from_11 = Sensitivity::from_bits(0b11);
    assert_eq!(from_10, Sensitivity::D2000);
    assert_eq!(from_11, Sensitivity::D2000_11);
    assert_ne!(from_10, from_11);
    assert_eq!(from_10.into_bits(), 0b10);
    assert_eq!(from_11.into_bits(), 0b11);
}

#[test]
fn fifo_mode_round_trips_every_variant() {
    let variants = [
        FifoMode::Bypass,
        FifoMode::FIFO,
        FifoMode::Stream,
        FifoMode::StreamToFifo,
        FifoMode::BypassToStream,
    ];
    for v in variants {
        assert_eq!(FifoMode::from_bits(v.into_bits()), v);
    }
}

#[test]
fn fifo_mode_decodes_every_defined_pattern() {
    for raw in 0..5u8 {
        assert_eq!(FifoMode::from_bits(raw).into_bits(), raw);
    }
}
