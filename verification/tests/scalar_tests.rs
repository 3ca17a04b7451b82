use gem::scalar::Scalar;

#[test]
fn u8_to_scaled_u8() {
    let value: u8 = 128;
    assert_eq!(value.to_scaled_u8(), 128);
}

#[test]
fn u8_to_scaled_u16() {
    let value: u8 = 128;
    assert_eq!(value.to_scaled_u16(), 32896);
}

#[test]
fn u16_to_scaled_u8() {
    let value: u16 = 32896;
    assert_eq!(value.to_scaled_u8(), 128);
}

#[test]
fn u16_to_scaled_u16() {
    let value: u16 = 32896;
    assert_eq!(value.to_scaled_u16(), 32896);
}

#[test]
fn scale_round_trip_extremes() {
    assert_eq!(0u8.to_scaled_u16().to_scaled_u8(), 0);
    assert_eq!(255u8.to_scaled_u16().to_scaled_u8(), 255);
    assert_eq!(0u16.to_scaled_u8().to_scaled_u16(), 0);
    assert_eq!(65535u16.to_scaled_u8().to_scaled_u16(), 65535);
}

#[test]
fn scale_round_trip_all_u8() {
    for v in 0..=255u8 {
        assert_eq!(v.to_scaled_u16().to_scaled_u8(), v);
    }
}

#[test]
fn scale_extreme_values() {
    assert_eq!(0u8.to_scaled_u16(), 0);
    assert_eq!(255u8.to_scaled_u16(), 65535);
    assert_eq!(65535u16.to_scaled_u8(), 255);
    assert_eq!(0u16.to_scaled_u8(), 0);
}

#[test]
fn scale_rounds_to_nearest() {
    // 1 in 16 bits is 1/65535, which is closest to 0 in 8 bits.
    assert_eq!(1u16.to_scaled_u8(), 0);
    // 128 in 16 bits rounds half away from zero: 128 * 255 / 65535 is
    // 0.498..., still 0.
    assert_eq!(128u16.to_scaled_u8(), 0);
    // 129 in 16 bits is past the midpoint of the first step, so it rounds
    // up to 1.
    assert_eq!(129u16.to_scaled_u8(), 1);
    assert_eq!(1u8.to_scaled_u16(), 257);
    assert_eq!(254u8.to_scaled_u16(), 65278);
}
