//! Register catalog: addresses, access modes, write gating and the
//! data-driven codec over the cataloged layouts.

use l3gd20_registers::gyro::{AccessMode, RegisterAddress, WriteOperation};
use l3gd20_registers::layout::{
    decode_field, decode_fields, encode_fields, CapabilityError, FieldAccess, FieldDescriptor,
    RegisterLayout,
};
use l3gd20_registers::DEFAULT_DEVICE_ADDRESS;

const ALL_REGISTERS: [RegisterAddress; 26] = [
    RegisterAddress::WHO_AM_I,
    RegisterAddress::CTRL_REG1,
    RegisterAddress::CTRL_REG2,
    RegisterAddress::CTRL_REG3,
    RegisterAddress::CTRL_REG4,
    RegisterAddress::CTRL_REG5,
    RegisterAddress::REFERENCE,
    RegisterAddress::OUT_TEMP,
    RegisterAddress::STATUS_REG,
    RegisterAddress::OUT_X_L,
    RegisterAddress::OUT_X_H,
    RegisterAddress::OUT_Y_L,
    RegisterAddress::OUT_Y_H,
    RegisterAddress::OUT_Z_L,
    RegisterAddress::OUT_Z_H,
    RegisterAddress::FIFO_CTRL_REG,
    RegisterAddress::FIFO_SRC_REG,
    RegisterAddress::INT1_CFG,
    RegisterAddress::INT1_SRC,
    RegisterAddress::INT1_TSH_XH,
    RegisterAddress::INT1_TSH_XL,
    RegisterAddress::INT1_TSH_YH,
    RegisterAddress::INT1_TSH_YL,
    RegisterAddress::INT1_TSH_ZH,
    RegisterAddress::INT1_TSH_ZL,
    RegisterAddress::INT1_DURATION,
];

#[test]
fn device_address_matches_the_grounded_sdo_wiring() {
    assert_eq!(DEFAULT_DEVICE_ADDRESS, 0b0110_1010);
}

#[test]
fn register_addresses_match_the_datasheet_map() {
    assert_eq!(RegisterAddress::WHO_AM_I.addr(), 0x0F);
    assert_eq!(RegisterAddress::CTRL_REG1.addr(), 0x20);
    assert_eq!(RegisterAddress::REFERENCE.addr(), 0x25);
    assert_eq!(RegisterAddress::OUT_X_L.addr(), 0x28);
    assert_eq!(RegisterAddress::OUT_Z_H.addr(), 0x2D);
    assert_eq!(RegisterAddress::FIFO_CTRL_REG.addr(), 0x2E);
    assert_eq!(RegisterAddress::INT1_CFG.addr(), 0x30);
    assert_eq!(RegisterAddress::INT1_DURATION.addr(), 0x38);
}

#[test]
fn register_address_converts_into_its_bus_byte() {
    assert_eq!(u8::from(RegisterAddress::WHO_AM_I), 0x0F);
    assert_eq!(u8::from(RegisterAddress::CTRL_REG3), 0x22);
    assert_eq!(u8::from(RegisterAddress::OUT_Y_H), 0x2B);
}

#[test]
fn no_two_registers_share_an_address() {
    for (i, a) in ALL_REGISTERS.iter().enumerate() {
        for (j, b) in ALL_REGISTERS.iter().enumerate() {
            if i != j {
                assert_ne!(a.addr(), b.addr());
            }
        }
    }
}

#[test]
fn writing_the_identification_register_is_rejected() {
    let out = RegisterAddress::WHO_AM_I.write_operation(0x55);
    assert_eq!(out, Err(CapabilityError::WriteToReadOnly));
}

#[test]
fn every_read_only_register_rejects_writes_and_every_other_accepts() {
    for reg in ALL_REGISTERS {
        let out = reg.write_operation(0xA7);
        match reg.access_mode() {
            AccessMode::ReadOnly => {
                assert_eq!(out, Err(CapabilityError::WriteToReadOnly));
            }
            AccessMode::ReadWrite => {
                assert_eq!(
                    out,
                    Ok(WriteOperation {
                        address: reg.addr(),
                        value: 0xA7,
                    })
                );
            }
        }
    }
}

#[test]
fn output_registers_are_read_only_and_control_registers_writable() {
    assert_eq!(RegisterAddress::OUT_TEMP.access_mode(), AccessMode::ReadOnly);
    assert_eq!(RegisterAddress::OUT_Y_L.access_mode(), AccessMode::ReadOnly);
    assert_eq!(RegisterAddress::STATUS_REG.access_mode(), AccessMode::ReadOnly);
    assert_eq!(RegisterAddress::FIFO_SRC_REG.access_mode(), AccessMode::ReadOnly);
    assert_eq!(RegisterAddress::INT1_SRC.access_mode(), AccessMode::ReadOnly);
    assert_eq!(RegisterAddress::CTRL_REG1.access_mode(), AccessMode::ReadWrite);
    assert_eq!(RegisterAddress::FIFO_CTRL_REG.access_mode(), AccessMode::ReadWrite);
    assert_eq!(RegisterAddress::INT1_TSH_ZL.access_mode(), AccessMode::ReadWrite);
}

#[test]
fn cataloged_layouts_decode_the_full_speed_rate_control_byte() {
    let layout = RegisterAddress::CTRL_REG1.layout();
    let values = decode_fields(&layout, 0xFF).unwrap();
    assert_eq!(values, [0b11, 0b11, 1, 1, 1, 1]);
}

#[test]
fn cataloged_layouts_encode_the_stream_fifo_byte() {
    let layout = RegisterAddress::FIFO_CTRL_REG.layout();
    let values = vec![0b010u8, 0b00101];
    assert_eq!(encode_fields(&layout, &values), 0x45);
}

#[test]
fn generic_codec_round_trips_every_cataloged_register() {
    for reg in ALL_REGISTERS {
        let layout = reg.layout();
        for raw in 0..=255u8 {
            let values = decode_fields(&layout, raw).unwrap();
            let encoded = encode_fields(&layout, &values);
            // Re-encoding canonicalizes reserved bits; decoding again must
            // give back the same field values.
            assert_eq!(decode_fields(&layout, encoded).unwrap(), values);
        }
    }
}

#[test]
fn generic_codec_restores_bytes_whose_reserved_bits_are_clear() {
    let layout = RegisterAddress::CTRL_REG2.layout();
    for raw in 0..64u8 {
        let values = decode_fields(&layout, raw).unwrap();
        assert_eq!(encode_fields(&layout, &values), raw);
    }
}

#[test]
fn decoding_a_write_only_field_is_a_capability_error() {
    // No register of this device carries a write-only field, but the
    // codec must support the capability: build such a layout directly.
    let layout = RegisterLayout {
        fields: vec![
            FieldDescriptor {
                bit_offset: 4,
                bit_width: 4,
                access: FieldAccess::WriteOnly,
                reset: 0,
            },
            FieldDescriptor {
                bit_offset: 0,
                bit_width: 4,
                access: FieldAccess::ReadWrite,
                reset: 0,
            },
        ],
    };
    assert_eq!(
        decode_fields(&layout, 0xAB),
        Err(CapabilityError::DecodeOfWriteOnly)
    );
    assert_eq!(
        decode_field(&layout, 0, 0xAB),
        Err(CapabilityError::DecodeOfWriteOnly)
    );
    assert_eq!(decode_field(&layout, 1, 0xAB), Ok(0xB));
    // Encoding still works over the write-only field: a full register
    // image can be assembled.
    assert_eq!(encode_fields(&layout, &vec![0xA, 0xB]), 0xAB);
}

#[test]
fn reserved_spans_decode_to_their_fixed_constant() {
    let layout = RegisterAddress::INT1_TSH_XH.layout();
    let values = decode_fields(&layout, 0xFF).unwrap();
    assert_eq!(values, [0, 0x7F]);
}
