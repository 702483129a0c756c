//! Pure streaming-decode logic: enabled field sets, buffer sizing, frame
//! decoding and encoding.

use ads1293::fields::{buffer_size, enabled_fields, field_width, new_transfer_buffer};
use ads1293::frame::{decode_frame, encode_frame};
use ads1293::registers::data::DataStatus;
use ads1293::registers::DataRegister;

#[test]
fn empty_config_yields_empty_field_set() {
    let fields = enabled_fields(0x00).unwrap();
    assert_eq!(fields.len(), 0);
    assert_eq!(buffer_size(&fields), 1);
    let payload: Vec<u8> = Vec::new();
    let frame = decode_frame(&fields, &payload);
    assert_eq!(frame.len(), 0);
}

#[test]
fn full_config_yields_all_seven_fields() {
    let fields = enabled_fields(0x7F).unwrap();
    assert_eq!(fields, vec![0, 1, 2, 3, 4, 5, 6]);
    let widths: usize = fields.iter().map(|&i| field_width(i)).sum();
    assert_eq!(widths, 16);
    assert_eq!(buffer_size(&fields), 17);
    assert_eq!(new_transfer_buffer(&fields).len(), 17);
}

#[test]
fn field_set_members_are_the_set_bits_in_order() {
    assert_eq!(enabled_fields(0x05).unwrap(), vec![0, 2]);
    assert_eq!(enabled_fields(0x55).unwrap(), vec![0, 2, 4, 6]);
    assert_eq!(enabled_fields(0x2A).unwrap(), vec![1, 3, 5]);
    assert_eq!(enabled_fields(0x40).unwrap(), vec![6]);
    for c in 0u8..128 {
        let fields = enabled_fields(c).unwrap();
        assert_eq!(fields.len() as u32, c.count_ones());
        for (pos, &i) in fields.iter().enumerate() {
            assert!(i < 7);
            assert_eq!((c >> i) & 1, 1);
            if pos > 0 {
                assert!(fields[pos - 1] < i);
            }
        }
    }
}

#[test]
fn high_bit_config_is_rejected() {
    assert!(enabled_fields(0x80).is_none());
    assert!(enabled_fields(0x85).is_none());
    assert!(enabled_fields(0xFF).is_none());
}

#[test]
fn field_widths_match_the_domain() {
    let widths: Vec<usize> = (0u8..7).map(field_width).collect();
    assert_eq!(widths, vec![1, 2, 2, 2, 3, 3, 3]);
}

#[test]
fn buffer_length_is_one_plus_total_width() {
    for c in 0u8..128 {
        let fields = enabled_fields(c).unwrap();
        let widths: usize = fields.iter().map(|&i| field_width(i)).sum();
        assert_eq!(buffer_size(&fields), 1 + widths);
    }
}

#[test]
fn status_and_pace_scenario_decodes_exactly() {
    let fields = enabled_fields(0x05).unwrap();
    assert_eq!(fields, vec![0, 2]);
    assert_eq!(buffer_size(&fields), 4);
    let payload = vec![0x02, 0x12, 0x34];
    let frame = decode_frame(&fields, &payload);
    assert_eq!(
        frame,
        vec![
            DataRegister::DATA_STATUS(DataStatus(0x02)),
            DataRegister::DATA_CH2_PACE(0x1234),
        ]
    );
}

#[test]
fn pace_and_ecg_decode_big_endian() {
    let fields = enabled_fields(0x12).unwrap();
    assert_eq!(fields, vec![1, 4]);
    let payload = vec![0xBE, 0xEF, 0x12, 0x34, 0x56];
    let frame = decode_frame(&fields, &payload);
    assert_eq!(
        frame,
        vec![
            DataRegister::DATA_CH1_PACE(0xBEEF),
            DataRegister::DATA_CH1_ECG(0x123456),
        ]
    );
}

#[test]
fn encode_produces_big_endian_bytes() {
    let frame = vec![
        DataRegister::DATA_STATUS(DataStatus(0xAB)),
        DataRegister::DATA_CH3_PACE(0x0102),
        DataRegister::DATA_CH3_ECG(0xC0FFEE),
    ];
    let payload = encode_frame(&frame);
    assert_eq!(payload, vec![0xAB, 0x01, 0x02, 0xC0, 0xFF, 0xEE]);
}

#[test]
fn round_trip_reproduces_the_frame() {
    let fields = enabled_fields(0x59).unwrap();
    assert_eq!(fields, vec![0, 3, 4, 6]);
    let frame = vec![
        DataRegister::DATA_STATUS(DataStatus(0x80)),
        DataRegister::DATA_CH3_PACE(0xFFFF),
        DataRegister::DATA_CH1_ECG(0x000001),
        DataRegister::DATA_CH3_ECG(0xFFFFFF),
    ];
    let payload = encode_frame(&frame);
    assert_eq!(payload.len(), 1 + 2 + 3 + 3);
    let decoded = decode_frame(&fields, &payload);
    assert_eq!(decoded, frame);
}
