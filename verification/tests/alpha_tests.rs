use gem::alpha::{Alpha, Alpha8, AlphaFirst, AlphaLast, HasAlpha};
use gem::gray::GrayAlpha8;

#[test]
fn alpha_is_repr_transparent() {
    let alpha = Alpha::new(128u8);
    assert_eq!(alpha.to_bytes(), [128]);
}

#[test]
fn alpha_new() {
    let alpha = Alpha::new(128u8);
    assert_eq!(alpha.alpha(), 128);
}

#[test]
fn alpha_alpha_trait_accessors() {
    let mut alpha = Alpha::new(128u8);
    assert_eq!(HasAlpha::alpha(&alpha), 128);

    HasAlpha::set_alpha(&mut alpha, 200);
    assert_eq!(HasAlpha::alpha(&alpha), 200);
}

#[test]
fn alpha_into_inner() {
    let alpha = Alpha::new(255u8);
    assert_eq!(alpha.into_inner(), 255);
}

#[test]
fn alpha8_is_repr_transparent_u8() {
    let alpha8 = Alpha8::new(128);
    assert_eq!(alpha8.to_bytes(), [128]);
}

#[test]
fn alpha_first_new() {
    let alpha_first = AlphaFirst::with_color(128u8, [255, 0, 0]);
    assert_eq!(alpha_first.alpha(), 128);
    assert_eq!(alpha_first.color(), [255, 0, 0]);
}

#[test]
fn alpha_first_into_inner() {
    let alpha_first = AlphaFirst::with_color(128u8, [255, 0, 0]);
    assert_eq!(alpha_first.into_inner(), (128, [255, 0, 0]));
}

#[test]
fn alpha_first_repr_c() {
    let alpha_first = AlphaFirst::with_color(128u8, [255u8, 0, 0]);
    assert_eq!(alpha_first.to_bytes(), [128, 255, 0, 0]);
}

#[test]
fn alpha_first_trait_accessors() {
    let mut alpha_first = AlphaFirst::with_color(128u8, [255, 0, 0]);
    assert_eq!(HasAlpha::alpha(&alpha_first), 128);

    HasAlpha::set_alpha(&mut alpha_first, 200);
    assert_eq!(HasAlpha::alpha(&alpha_first), 200);
}

#[test]
fn alpha_last_new() {
    let alpha_last = AlphaLast::with_color(128u8, [255, 0, 0]);
    assert_eq!(alpha_last.alpha(), 128);
    assert_eq!(alpha_last.color(), [255, 0, 0]);
}

#[test]
fn alpha_last_into_inner() {
    let alpha_last = AlphaLast::with_color(128u8, [255, 0, 0]);
    assert_eq!(alpha_last.into_inner(), ([255, 0, 0], 128));
}

#[test]
fn alpha_last_repr_c() {
    let alpha_last = AlphaLast::with_color(128u8, [255u8, 0, 0]);
    assert_eq!(alpha_last.to_bytes(), [255, 0, 0, 128]);
}

#[test]
fn alpha_last_trait_accessors() {
    let mut alpha_last = AlphaLast::with_color(128u8, [255, 0, 0]);
    assert_eq!(HasAlpha::alpha(&alpha_last), 128);

    HasAlpha::set_alpha(&mut alpha_last, 200);
    assert_eq!(HasAlpha::alpha(&alpha_last), 200);
}

#[test]
fn with_alpha_grayalpha8_new_alpha() {
    assert_eq!(GrayAlpha8::new_alpha(128), GrayAlpha8::new(0, 128));
}

#[test]
fn with_alpha_grayalpha8_get_alpha() {
    assert_eq!(GrayAlpha8::new(128, 255).alpha(), 255);
}

#[test]
fn with_alpha_grayalpha8_set_alpha() {
    let mut color = GrayAlpha8::new(128, 255);
    color.set_alpha(64);
    assert_eq!(color, GrayAlpha8::new(128, 64));
}

#[test]
fn with_alpha_grayalpha8_with_alpha() {
    let color = GrayAlpha8::new(128, 255);
    let new_color = color.with_alpha(64);
    assert_eq!(new_color, GrayAlpha8::new(128, 64));
}
