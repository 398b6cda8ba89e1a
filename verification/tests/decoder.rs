use co2_exporter::decoder::{decode, extract};
use co2_exporter::frame::encrypt;
use co2_exporter::measurement::Measurement;

fn frame_of(op: u8, value: u16) -> [u8; 8] {
    let hi = (value >> 8) as u8;
    let lo = (value & 0xff) as u8;
    [op, hi, lo, op.wrapping_add(hi).wrapping_add(lo), 0x0d, 0, 0, 0]
}

#[test]
fn co2_code_yields_the_value_verbatim() {
    assert_eq!(extract(&frame_of(0x50, 500)), Some(Measurement::CO2(500)));
    assert_eq!(extract(&[0x50, 0x01, 0xf4, 0x45, 0x0d, 0, 0, 0]), Some(Measurement::CO2(500)));
    assert_eq!(extract(&frame_of(0x50, 415)), Some(Measurement::CO2(415)));
}

#[test]
fn temperature_code_yields_celsius() {
    // 4000 * 0.0625 - 273.15 = -23.15
    assert_eq!(extract(&frame_of(0x42, 4000)), Some(Measurement::Temperature(-231_500)));
    assert_eq!(
        extract(&[0x42, 0x0f, 0xa0, 0xf1, 0x0d, 0, 0, 0]),
        Some(Measurement::Temperature(-231_500))
    );
    // 4742 * 0.0625 - 273.15 = 23.225
    assert_eq!(extract(&frame_of(0x42, 4742)), Some(Measurement::Temperature(232_250)));
}

#[test]
fn value_field_is_big_endian() {
    assert_eq!(extract(&frame_of(0x50, 0x0100)), Some(Measurement::CO2(256)));
    assert_eq!(extract(&frame_of(0x50, 0x0001)), Some(Measurement::CO2(1)));
    assert_eq!(extract(&frame_of(0x50, 0x1234)), Some(Measurement::CO2(0x1234)));
}

#[test]
fn value_field_extremes() {
    assert_eq!(extract(&frame_of(0x50, 0)), Some(Measurement::CO2(0)));
    assert_eq!(extract(&frame_of(0x50, 0xffff)), Some(Measurement::CO2(65_535)));
    assert_eq!(extract(&frame_of(0x42, 0)), Some(Measurement::Temperature(-2_731_500)));
    assert_eq!(extract(&frame_of(0x42, 0xffff)), Some(Measurement::Temperature(38_227_875)));
}

#[test]
fn unrecognized_code_yields_nothing() {
    assert_eq!(extract(&frame_of(0x99, 500)), None);
    assert_eq!(extract(&[0x99, 0x01, 0xf4, 0x8e, 0x0d, 0, 0, 0]), None);
    assert_eq!(extract(&frame_of(0x00, 0)), None);
    assert_eq!(extract(&frame_of(0x41, 4000)), None);
    assert_eq!(extract(&frame_of(0x51, 500)), None);
}

#[test]
fn every_code_but_two_yields_nothing() {
    for op in 0..=255u8 {
        let m = extract(&frame_of(op, 500));
        match op {
            0x50 => assert_eq!(m, Some(Measurement::CO2(500))),
            0x42 => assert_eq!(m, Some(Measurement::Temperature(500 * 625 - 2_731_500))),
            _ => assert_eq!(m, None),
        }
    }
}

#[test]
fn rejected_frame_yields_nothing() {
    assert_eq!(extract(&[0x50, 0x01, 0xf4, 0x46, 0x0d, 0, 0, 0]), None);
    assert_eq!(extract(&[0x50, 0x01, 0xf4, 0x45, 0x0e, 0, 0, 0]), None);
    assert_eq!(extract(&[0x50, 0x01, 0xf4, 0x45, 0x0d, 1, 0, 0]), None);
    assert_eq!(extract(&[0x50, 0x01, 0xf4, 0x45, 0x0d, 0, 1, 0]), None);
    assert_eq!(extract(&[0x50, 0x01, 0xf4, 0x45, 0x0d, 0, 0, 1]), None);
    assert_eq!(extract(&[0x42, 0x0f, 0xa0, 0xf0, 0x0d, 0, 0, 0]), None);
    assert_eq!(extract(&[0; 8]), None);
}

#[test]
fn decode_raw_frames() {
    assert_eq!(
        decode(&[0xae, 0xa4, 0xa2, 0xb6, 0x47, 0x9a, 0x9c, 0x30]),
        Some(Measurement::CO2(415))
    );
    assert_eq!(
        decode(&[0x50, 0xa4, 0xa2, 0xb6, 0x42, 0x9a, 0x9c, 0xd8]),
        Some(Measurement::CO2(500))
    );
    assert_eq!(
        decode(&[0xb6, 0xa4, 0x32, 0xb6, 0xb7, 0x9a, 0x9c, 0x38]),
        Some(Measurement::Temperature(-231_500))
    );
    assert_eq!(decode(&[0x53, 0xa4, 0xea, 0xb0, 0x42, 0x9a, 0x9c, 0x20]), None);
}

#[test]
fn decode_descrambles_before_it_validates() {
    // A frame that is well-formed as it stands is not well-formed once
    // descrambled.
    let plain = frame_of(0x50, 500);
    assert_eq!(extract(&plain), Some(Measurement::CO2(500)));
    assert_eq!(decode(&plain), None);
    assert_eq!(decode(&encrypt(&plain)), Some(Measurement::CO2(500)));
}

#[test]
fn decode_rejects_noise() {
    assert_eq!(decode(&[0; 8]), None);
    assert_eq!(decode(&[0xff; 8]), None);
    assert_eq!(decode(&[1, 2, 3, 4, 5, 6, 7, 8]), None);
}

#[test]
fn decode_every_value_of_both_codes() {
    for value in 0..=0xffffu16 {
        if value % 7 != 0 && value < 0xfff0 {
            continue;
        }
        assert_eq!(decode(&encrypt(&frame_of(0x50, value))), Some(Measurement::CO2(value as u32)));
        assert_eq!(
            decode(&encrypt(&frame_of(0x42, value))),
            Some(Measurement::Temperature(value as i32 * 625 - 2_731_500))
        );
    }
}
