use soundio::{i24, u24, Sample};

#[test]
fn sign_conversion_lossless() {
    for v in u8::min_value()..u8::max_value() {
        assert_eq!(v, u8::from_i8(i8::from_u8(v)));
    }
    for v in u16::min_value()..u16::max_value() {
        assert_eq!(v, u16::from_i16(i16::from_u16(v)));
    }
    for v in u24::min_value()..u24::max_value() {
        assert_eq!(u24(v), u24::from_i24(i24::from_u24(u24(v))));
    }
}

#[test]
fn increased_precision_lossless() {
    for v in u8::min_value()..u8::max_value() {
        assert_eq!(v, u8::from_i16(i16::from_u8(v)));
    }
    for v in u16::min_value()..u16::max_value() {
        assert_eq!(v, u16::from_i24(i24::from_u16(v)));
    }
    for v in u24::min_value()..u24::max_value() {
        assert_eq!(u24(v), u24::from_i32(i32::from_u24(u24(v))));
    }
}

#[test]
fn raw_lossless() {
    let mut buffer = vec![0u8; 32];

    for v in u8::min_value()..u8::max_value() {
        u8::to_raw_le(v, &mut buffer, 0);
        assert_eq!(v, u8::from_raw_le(&buffer, 0));
        assert_eq!(v.swap_bytes(), u8::from_raw_be(&buffer, 0));
    }
    for v in i8::min_value()..i8::max_value() {
        i8::to_raw_le(v, &mut buffer, 0);
        assert_eq!(v, i8::from_raw_le(&buffer, 0));
        assert_eq!(v.swap_bytes(), i8::from_raw_be(&buffer, 0));
    }
    for v in u16::min_value()..u16::max_value() {
        u16::to_raw_le(v, &mut buffer, 0);
        assert_eq!(v, u16::from_raw_le(&buffer, 0));
        assert_eq!(v.swap_bytes(), u16::from_raw_be(&buffer, 0));
    }
    for v in u24::min_value()..u24::max_value() {
        u24::to_raw_le(u24(v), &mut buffer, 0);
        assert_eq!(u24(v), u24::from_raw_le(&buffer, 0));
    }
    for v in i24::min_value()..i24::max_value() {
        i24::to_raw_le(i24(v), &mut buffer, 0);
        assert_eq!(i24(v), i24::from_raw_le(&buffer, 0));
    }
}

#[test]
fn sign_flip_every_width() {
    for v in [0u32, 1, 0x7F_FFFF, 0x80_0000, 0xFF_FFFF] {
        assert_eq!(u24(v), u24::from_i24(i24::from_u24(u24(v))));
    }
    for v in [0u32, 1, 0x7FFF_FFFF, 0x8000_0000, 0xFFFF_FFFF] {
        assert_eq!(v, u32::from_i32(i32::from_u32(v)));
    }
    assert_eq!(u8::from_i8(i8::from_u8(255)), 255);
    assert_eq!(u16::from_i16(i16::from_u16(65535)), 65535);
}

#[test]
fn sign_flip_offsets_by_half_range() {
    assert_eq!(i8::from_u8(0), -128);
    assert_eq!(i8::from_u8(128), 0);
    assert_eq!(u8::from_i8(-128), 0);
    assert_eq!(u8::from_i8(127), 255);
    assert_eq!(i16::from_u16(0x8000), 0);
    assert_eq!(i24::from_u24(u24(0)), i24(-0x80_0000));
    assert_eq!(i24::from_u24(u24(0xFF_FFFF)), i24(0x7F_FFFF));
    assert_eq!(u32::from_i32(i32::min_value()), 0);
}

#[test]
fn widening_shifts_into_high_bits() {
    assert_eq!(u16::from_u8(0xAB), 0xAB00);
    assert_eq!(u32::from_u8(0xAB), 0xAB00_0000);
    assert_eq!(u24::from_u16(0xABCD), u24(0xAB_CD00));
    assert_eq!(i16::from_i8(-1), -256);
    assert_eq!(i32::from_i24(i24(-1)), -256);
    assert_eq!(i16::from_u8(255), 32512);
}

#[test]
fn narrowing_keeps_high_bits() {
    assert_eq!(u8::from_u16(0xABCD), 0xAB);
    assert_eq!(u8::from_u32(0x1234_5678), 0x12);
    assert_eq!(u24::from_u32(0x1234_5678), u24(0x12_3456));
    assert_eq!(i8::from_i16(-1), -1);
    assert_eq!(i8::from_i32(-0x8000_0000), -128);
    assert_eq!(i16::from_i24(i24(0x7F_FFFF)), 0x7FFF);
}

#[test]
fn widen_then_narrow_every_pair() {
    for v in [0u8, 1, 127, 128, 255] {
        assert_eq!(v, u8::from_u16(u16::from_u8(v)));
        assert_eq!(v, u8::from_u24(u24::from_u8(v)));
        assert_eq!(v, u8::from_u32(u32::from_u8(v)));
        assert_eq!(v, u8::from_i32(i32::from_u8(v)));
    }
    for v in [-32768i16, -1, 0, 1, 32767] {
        assert_eq!(v, i16::from_i24(i24::from_i16(v)));
        assert_eq!(v, i16::from_i32(i32::from_i16(v)));
        assert_eq!(v, i16::from_u32(u32::from_i16(v)));
    }
    for v in [-0x80_0000i32, -1, 0, 5, 0x7F_FFFF] {
        assert_eq!(i24(v), i24::from_i32(i32::from_i24(i24(v))));
        assert_eq!(i24(v), i24::from_u32(u32::from_i24(i24(v))));
    }
}

#[test]
fn u24_round_trips_through_i24() {
    assert_eq!(u24::from_i24(u24::to_i24(u24(5))), u24(5));
    assert_eq!(i24::to_u24(i24::from_u24(u24(5))), u24(5));
    assert_eq!(i24::from_u24(i24::to_u24(i24(5))), i24(5));
    for v in [0u32, 0x12_3456, 0x80_0000, 0xFF_FFFF] {
        assert_eq!(u24::from_i24(i24::from_u24(u24(v))), u24(v));
    }
}

#[test]
fn domain_limits_of_24_bit_samples() {
    assert_eq!(u24::min_value(), 0);
    assert_eq!(u24::max_value(), 0xFF_FFFF);
    assert_eq!(i24::min_value(), -0x80_0000);
    assert_eq!(i24::max_value(), 0x7F_FFFF);
}

#[test]
fn raw_byte_order() {
    let mut buffer = vec![0u8; 8];
    u32::to_raw_le(0x1234_5678, &mut buffer, 1);
    assert_eq!(buffer, vec![0, 0x78, 0x56, 0x34, 0x12, 0, 0, 0]);
    u32::to_raw_be(0x1234_5678, &mut buffer, 1);
    assert_eq!(buffer, vec![0, 0x12, 0x34, 0x56, 0x78, 0, 0, 0]);
    assert_eq!(u32::from_raw_be(&buffer, 1), 0x1234_5678);
    assert_eq!(u32::from_raw_le(&buffer, 1), 0x7856_3412);
    i16::to_raw_be(-2, &mut buffer, 0);
    assert_eq!(&buffer[0..2], &[0xFF, 0xFE]);
    assert_eq!(i16::from_raw_be(&buffer, 0), -2);
}

#[test]
fn raw_24_bit_takes_three_bytes() {
    let mut buffer = vec![0xEEu8; 5];
    i24::to_raw_le(i24(-2), &mut buffer, 1);
    assert_eq!(buffer, vec![0xEE, 0xFE, 0xFF, 0xFF, 0xEE]);
    assert_eq!(i24::from_raw_le(&buffer, 1), i24(-2));
    u24::to_raw_be(u24(0x12_3456), &mut buffer, 1);
    assert_eq!(buffer, vec![0xEE, 0x12, 0x34, 0x56, 0xEE]);
    assert_eq!(u24::from_raw_be(&buffer, 1), u24(0x12_3456));
    assert_eq!(i24::from_raw_be(&buffer, 1), i24(0x12_3456));
}
