//! Byte-pair combiner: sign-correctness and order independence.

use l3gd20_registers::conversions::combine;
use l3gd20_registers::gyro::{OutXHigh, OutXLow, OutYHigh, OutYLow, OutZHigh, OutZLow};

#[test]
fn combine_builds_the_positive_reading() {
    assert_eq!(combine(0x34, 0x12), 0x1234);
    assert_eq!(combine(0x34, 0x12), 4660);
}

#[test]
fn combine_builds_minus_one_from_all_ones() {
    assert_eq!(combine(0xFF, 0xFF), -1);
}

#[test]
fn combine_builds_the_most_negative_reading() {
    assert_eq!(combine(0x00, 0x80), -32768);
}

#[test]
fn combine_edge_values() {
    assert_eq!(combine(0x00, 0x00), 0);
    assert_eq!(combine(0xFF, 0x7F), 32767);
    assert_eq!(combine(0x01, 0x80), -32767);
    assert_eq!(combine(0x00, 0xFF), -256);
}

#[test]
fn x_axis_combination_is_order_independent() {
    let low = OutXLow { bits: 0x34 };
    let high = OutXHigh { bits: 0x12 };
    assert_eq!(low.combine(high), 0x1234);
    assert_eq!(high.combine(low), 0x1234);
}

#[test]
fn y_axis_combination_is_order_independent() {
    let low = OutYLow { bits: 0xFF };
    let high = OutYHigh { bits: 0xFF };
    assert_eq!(low.combine(high), -1);
    assert_eq!(high.combine(low), -1);
}

#[test]
fn z_axis_combination_is_order_independent() {
    let low = OutZLow { bits: 0x00 };
    let high = OutZHigh { bits: 0x80 };
    assert_eq!(low.combine(high), -32768);
    assert_eq!(high.combine(low), -32768);
}

#[test]
fn every_byte_pair_combines_identically_from_either_half() {
    for high in 0..=255u8 {
        for low in [0x00u8, 0x01, 0x7F, 0x80, 0xFE, 0xFF] {
            let a = OutXLow { bits: low }.combine(OutXHigh { bits: high });
            let b = OutXHigh { bits: high }.combine(OutXLow { bits: low });
            assert_eq!(a, b);
            assert_eq!(a, combine(low, high));
            let expected = i16::from_le_bytes([low, high]);
            assert_eq!(a, expected);
        }
    }
}
