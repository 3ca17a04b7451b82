use gem::alpha::HasAlpha;
use gem::rgb::{
    Abgr8888, Argb1555, Argb4444, Argb8888, Bgr888, HasBlue, HasGreen, HasRed, Rgb565, Rgb888,
    ARGB1555_ALPHA_CLEAR, ARGB1555_ALPHA_MASK, ARGB1555_ALPHA_SHIFT, ARGB1555_BLUE_CLEAR,
    ARGB1555_BLUE_MASK, ARGB1555_BLUE_SHIFT, ARGB1555_GREEN_CLEAR, ARGB1555_GREEN_MASK,
    ARGB1555_GREEN_SHIFT, ARGB1555_RED_CLEAR, ARGB1555_RED_MASK, ARGB1555_RED_SHIFT,
    ARGB4444_ALPHA_CLEAR, ARGB4444_ALPHA_MASK, ARGB4444_ALPHA_SHIFT, ARGB4444_BLUE_CLEAR,
    ARGB4444_BLUE_MASK, ARGB4444_BLUE_SHIFT, ARGB4444_GREEN_CLEAR, ARGB4444_GREEN_MASK,
    ARGB4444_GREEN_SHIFT, ARGB4444_RED_CLEAR, ARGB4444_RED_MASK, ARGB4444_RED_SHIFT,
    RGB565_BLUE_CLEAR, RGB565_BLUE_MASK, RGB565_BLUE_SHIFT, RGB565_GREEN_CLEAR, RGB565_GREEN_MASK,
    RGB565_GREEN_SHIFT, RGB565_RED_CLEAR, RGB565_RED_MASK, RGB565_RED_SHIFT,
};

#[test]
fn test_abgr8888_new() {
    let color = Abgr8888::new(0xFF00_00FF);
    assert_eq!(color.alpha(), 255);
    assert_eq!(color.blue(), 0);
    assert_eq!(color.green(), 0);
    assert_eq!(color.red(), 255);
}

#[test]
fn test_abgr8888_from_abgr() {
    let color = Abgr8888::from_abgr(255, 0, 0, 255);
    assert_eq!(color.alpha(), 255);
    assert_eq!(color.blue(), 0);
    assert_eq!(color.green(), 0);
    assert_eq!(color.red(), 255);
}

#[test]
fn test_argb1555() {
    assert_eq!(Argb1555::new(0xFFFF), Argb1555::from_rgb(31, 31, 31));
    assert_eq!(Argb1555::new(0x0000), Argb1555::transparent());
}

#[test]
fn test_argb1555_from_rgb() {
    let color = Argb1555::from_rgb(31, 31, 31);
    assert_eq!(color.alpha(), 1);
    assert_eq!(color.red(), 31);
    assert_eq!(color.green(), 31);
    assert_eq!(color.blue(), 31);
}

#[test]
fn test_argb1555_transparent() {
    let color = Argb1555::transparent();
    assert_eq!(color.alpha(), 0);
    assert_eq!(color.red(), 0);
    assert_eq!(color.green(), 0);
    assert_eq!(color.blue(), 0);
}

#[test]
fn test_argb4444() {
    assert_eq!(Argb4444::new(0xFFFF), Argb4444::from_argb(15, 15, 15, 15));
    assert_eq!(Argb4444::new(0x0000), Argb4444::from_argb(0, 0, 0, 0));
}

#[test]
fn test_argb4444_from_argb() {
    let color = Argb4444::from_argb(15, 0, 0, 15);
    assert_eq!(color.alpha(), 15);
    assert_eq!(color.red(), 0);
    assert_eq!(color.green(), 0);
    assert_eq!(color.blue(), 15);
}

#[test]
fn test_from_argb() {
    let color = Argb8888::from_argb(255, 0, 0, 255);
    assert_eq!(color.alpha(), 255);
    assert_eq!(color.red(), 0);
    assert_eq!(color.green(), 0);
    assert_eq!(color.blue(), 255);
}

#[test]
fn argb_8888_test_new() {
    let color = Argb8888::new(0xFF00_00FF);
    assert_eq!(color.alpha(), 255);
    assert_eq!(color.red(), 0);
    assert_eq!(color.green(), 0);
    assert_eq!(color.blue(), 255);
}

#[test]
fn test_bgr888_new() {
    assert_eq!(Bgr888::new(0x0000_00FF), Bgr888::from_bgr(0, 0, 255));
    assert_eq!(Bgr888::new(0x0000_FF00), Bgr888::from_bgr(0, 255, 0));
    assert_eq!(Bgr888::new(0x00FF_0000), Bgr888::from_bgr(255, 0, 0));
}

#[test]
fn test_rgb565_new() {
    let color = Rgb565::new(0xFFFF);
    assert_eq!(color.red(), 31);
    assert_eq!(color.green(), 63);
    assert_eq!(color.blue(), 31);
}

#[test]
fn test_rgb565_from_rgb() {
    let color = Rgb565::from_rgb(31, 63, 31);
    assert_eq!(color.red(), 31);
    assert_eq!(color.green(), 63);
    assert_eq!(color.blue(), 31);
}

#[test]
fn test_rgb888_new() {
    assert_eq!(Rgb888::new(0x00FF_0000), Rgb888::from_rgb(255, 0, 0));
    assert_eq!(Rgb888::new(0x0000_FF00), Rgb888::from_rgb(0, 255, 0));
    assert_eq!(Rgb888::new(0x0000_00FF), Rgb888::from_rgb(0, 0, 255));
}

#[test]
fn set_red() {
    let mut color = Rgb565::from_rgb(0, 0, 0);
    color.set_red(15);
    assert_eq!(color.red(), 15);
}

#[test]
fn set_green() {
    let mut color = Rgb565::from_rgb(0, 0, 0);
    color.set_green(15);
    assert_eq!(color.green(), 15);
}

#[test]
fn set_blue() {
    let mut color = Rgb565::from_rgb(0, 0, 0);
    color.set_blue(15);
    assert_eq!(color.blue(), 15);
}

#[test]
fn set_alpha() {
    let mut color = Argb1555::from_rgb(0, 0, 0);
    color.set_alpha(1);
    assert_eq!(color.alpha(), 1);
}

#[test]
fn rgb565_field_isolation() {
    let mut color = Rgb565::from_rgb(31, 63, 31);
    color.set_green(0);
    assert_eq!(color.red(), 31);
    assert_eq!(color.green(), 0);
    assert_eq!(color.blue(), 31);
}

#[test]
fn rgb565_lossy_narrowing() {
    let mut color = Rgb565::from_rgb(0, 0, 0);
    color.set_red(255);
    assert_eq!(color.red(), 31);
    assert_eq!(color.green(), 0);
    assert_eq!(color.blue(), 0);
}

#[test]
fn argb4444_lossy_narrowing() {
    let color = Argb4444::from_argb(255, 255, 16, 17);
    assert_eq!(color.alpha(), 15);
    assert_eq!(color.red(), 15);
    assert_eq!(color.green(), 0);
    assert_eq!(color.blue(), 1);
}

#[test]
fn argb1555_set_alpha_keeps_color() {
    let mut color = Argb1555::from_rgb(10, 20, 30);
    color.set_alpha(0);
    assert_eq!(color.alpha(), 0);
    assert_eq!(color.red(), 10);
    assert_eq!(color.green(), 20);
    assert_eq!(color.blue(), 30);
}

#[test]
fn argb4444_field_isolation() {
    let mut color = Argb4444::from_argb(1, 2, 3, 4);
    color.set_green(9);
    assert_eq!(color.alpha(), 1);
    assert_eq!(color.red(), 2);
    assert_eq!(color.green(), 9);
    assert_eq!(color.blue(), 4);
}

#[test]
fn rgb565_clear_words_are_field_complements() {
    assert_eq!(RGB565_RED_CLEAR, !(RGB565_RED_MASK << RGB565_RED_SHIFT));
    assert_eq!(RGB565_GREEN_CLEAR, !(RGB565_GREEN_MASK << RGB565_GREEN_SHIFT));
    assert_eq!(RGB565_BLUE_CLEAR, !(RGB565_BLUE_MASK << RGB565_BLUE_SHIFT));
}

#[test]
fn argb1555_clear_words_are_field_complements() {
    assert_eq!(ARGB1555_ALPHA_CLEAR, !(ARGB1555_ALPHA_MASK << ARGB1555_ALPHA_SHIFT));
    assert_eq!(ARGB1555_RED_CLEAR, !(ARGB1555_RED_MASK << ARGB1555_RED_SHIFT));
    assert_eq!(ARGB1555_GREEN_CLEAR, !(ARGB1555_GREEN_MASK << ARGB1555_GREEN_SHIFT));
    assert_eq!(ARGB1555_BLUE_CLEAR, !(ARGB1555_BLUE_MASK << ARGB1555_BLUE_SHIFT));
}

#[test]
fn argb4444_clear_words_are_field_complements() {
    assert_eq!(ARGB4444_ALPHA_CLEAR, !(ARGB4444_ALPHA_MASK << ARGB4444_ALPHA_SHIFT));
    assert_eq!(ARGB4444_RED_CLEAR, !(ARGB4444_RED_MASK << ARGB4444_RED_SHIFT));
    assert_eq!(ARGB4444_GREEN_CLEAR, !(ARGB4444_GREEN_MASK << ARGB4444_GREEN_SHIFT));
    assert_eq!(ARGB4444_BLUE_CLEAR, !(ARGB4444_BLUE_MASK << ARGB4444_BLUE_SHIFT));
}
