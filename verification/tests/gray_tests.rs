use gem::gray::{Gray, Gray16, Gray8, GrayAlpha16, GrayAlpha8, HasGray};

#[test]
fn with_gray_grayalpha8_new_gray() {
    // The single-channel constructor is opaque: alpha comes out at the
    // domain maximum rather than the zero default.
    assert_eq!(GrayAlpha8::new_gray(128), GrayAlpha8::new(128, 255));
}

#[test]
fn with_gray_grayalpha8_get_gray() {
    assert_eq!(GrayAlpha8::new(128, 255).gray(), 128);
}

#[test]
fn with_gray_grayalpha8_set_gray() {
    let mut color = GrayAlpha8::new(128, 255);
    color.set_gray(64);
    assert_eq!(color, GrayAlpha8::new(64, 255));
}

#[test]
fn with_gray_grayalpha8_with_gray() {
    let color = GrayAlpha8::new(255, 255);
    let new_color = color.with_gray(64);
    assert_eq!(new_color, GrayAlpha8::new(64, 255));
}

#[test]
fn gray_new_and_get() {
    let gray = Gray::new(128u8);
    assert_eq!(gray.gray(), 128);
    let gray16: Gray16 = Gray::new(65535);
    assert_eq!(gray16.gray(), 65535);
}

#[test]
fn gray_set_and_with() {
    let mut gray: Gray8 = Gray::new(0);
    gray.set_gray(200);
    assert_eq!(gray, Gray::new(200));
    assert_eq!(gray.with_gray(10), Gray::new(10));
}

#[test]
fn grayalpha16_new() {
    let color = GrayAlpha16::new(32896, 65535);
    assert_eq!(color.gray(), 32896);
    assert_eq!(color.alpha(), 65535);
}

#[test]
fn grayalpha8_to_bytes() {
    let color = GrayAlpha8::new(128, 255);
    assert_eq!(color.to_bytes(), [128, 255]);
}
