use gem::alpha::{AlphaFirst, AlphaLast, HasAlpha};
use gem::rgb::{Abgr8888, HasBlue, HasGreen, HasRed, Rgb888, RgbColor, RgbaColor};

#[test]
fn with_red_rgb888_new_red() {
    assert_eq!(Rgb888::new_red(255), Rgb888::from_rgb(255, 0, 0));
}

#[test]
fn with_red_rgb888_get_red() {
    assert_eq!(Rgb888::from_rgb(255, 0, 0).red(), 255);
}

#[test]
fn with_red_with_red_rgb888_get_red() {
    assert_eq!(Rgb888::from_rgb(255, 0, 0).red(), 255);
}

#[test]
fn with_red_rgb888_set_red() {
    let mut color = Rgb888::from_rgb(255, 0, 0);
    color.set_red(128);
    assert_eq!(color, Rgb888::from_rgb(128, 0, 0));
}

#[test]
fn with_red_with_red_rgb888_set_red() {
    let mut color = Rgb888::from_rgb(255, 0, 0);
    color.set_red(128);
    assert_eq!(color, Rgb888::from_rgb(128, 0, 0));
}

#[test]
fn with_red_rgb888_with_red() {
    let color = Rgb888::from_rgb(255, 0, 0);
    let new_color = color.with_red(128);
    assert_eq!(new_color, Rgb888::from_rgb(128, 0, 0));
}

#[test]
fn with_red_with_red_rgb888_with_red() {
    let color = Rgb888::from_rgb(255, 0, 0);
    let new_color = color.with_red(128);
    assert_eq!(new_color, Rgb888::from_rgb(128, 0, 0));
}

#[test]
fn with_green_rgb888_new_green() {
    assert_eq!(Rgb888::new_green(255), Rgb888::from_rgb(0, 255, 0));
}

#[test]
fn with_green_rgb888_get_green() {
    assert_eq!(Rgb888::from_rgb(0, 255, 0).green(), 255);
}

#[test]
fn has_green_with_green_rgb888_get_green() {
    assert_eq!(Rgb888::from_rgb(0, 255, 0).green(), 255);
}

#[test]
fn with_green_rgb888_set_green() {
    let mut color = Rgb888::from_rgb(0, 255, 0);
    color.set_green(128);
    assert_eq!(color, Rgb888::from_rgb(0, 128, 0));
}

#[test]
fn has_green_with_green_rgb888_set_green() {
    let mut color = Rgb888::from_rgb(0, 255, 0);
    color.set_green(128);
    assert_eq!(color, Rgb888::from_rgb(0, 128, 0));
}

#[test]
fn with_green_rgb888_with_green() {
    let color = Rgb888::from_rgb(0, 255, 0);
    let new_color = color.with_green(128);
    assert_eq!(new_color, Rgb888::from_rgb(0, 128, 0));
}

#[test]
fn with_blue_rgb888_new_blue() {
    assert_eq!(Rgb888::new_blue(255), Rgb888::from_rgb(0, 0, 255));
}

#[test]
fn with_blue_rgb888_get_blue() {
    assert_eq!(Rgb888::from_rgb(0, 0, 255).blue(), 255);
}

#[test]
fn with_blue_with_blue_rgb888_get_blue() {
    assert_eq!(Rgb888::from_rgb(0, 0, 255).blue(), 255);
}

#[test]
fn with_blue_rgb888_set_blue() {
    let mut color = Rgb888::from_rgb(0, 0, 255);
    color.set_blue(128);
    assert_eq!(color, Rgb888::from_rgb(0, 0, 128));
}

#[test]
fn with_blue_with_blue_rgb888_set_blue() {
    let mut color = Rgb888::from_rgb(0, 0, 255);
    color.set_blue(128);
    assert_eq!(color, Rgb888::from_rgb(0, 0, 128));
}

#[test]
fn with_blue_rgb888_with_blue() {
    let color = Rgb888::from_rgb(0, 0, 255);
    let new_color = color.with_blue(128);
    assert_eq!(new_color, Rgb888::from_rgb(0, 0, 128));
}

#[test]
fn with_blue_with_blue_rgb888_with_blue() {
    let color = Rgb888::from_rgb(0, 0, 255);
    let new_color = color.with_blue(128);
    assert_eq!(new_color, Rgb888::from_rgb(0, 0, 128));
}

#[test]
fn alpha_first_set_red() {
    let mut color = AlphaFirst::<u8, Rgb888>::with_color(255, Rgb888::from_rgb(0, 0, 0));
    color.set_red(128);
    assert_eq!(color.red(), 128);
}

#[test]
fn alpha_first_set_green() {
    let mut color = AlphaFirst::<u8, Rgb888>::with_color(255, Rgb888::from_rgb(0, 0, 0));
    color.set_green(128);
    assert_eq!(color.green(), 128);
}

#[test]
fn alpha_first_set_blue() {
    let mut color = AlphaFirst::<u8, Rgb888>::with_color(255, Rgb888::from_rgb(0, 0, 0));
    color.set_blue(128);
    assert_eq!(color.blue(), 128);
}

#[test]
fn alpha_last_set_red() {
    let mut color = AlphaLast::<u8, Rgb888>::with_color(255, Rgb888::from_rgb(0, 0, 0));
    color.set_red(128);
    assert_eq!(color.red(), 128);
}

#[test]
fn alpha_last_set_green() {
    let mut color = AlphaLast::<u8, Rgb888>::with_color(255, Rgb888::from_rgb(0, 0, 0));
    color.set_green(128);
    assert_eq!(color.green(), 128);
}

#[test]
fn alpha_last_set_blue() {
    let mut color = AlphaLast::<u8, Rgb888>::with_color(255, Rgb888::from_rgb(0, 0, 0));
    color.set_blue(128);
    assert_eq!(color.blue(), 128);
}

#[test]
fn abgr8888_new_red() {
    let red = Abgr8888::new_red(0xFF);
    assert_eq!(red, Abgr8888::from_abgr(0xFF, 0x00, 0x00, 0xFF));
}

#[test]
fn bytemuck_cast_slice() {
    let colors = vec![
        Abgr8888::from_abgr(0xFF, 0x00, 0x00, 0xFF),
        Abgr8888::from_abgr(0x00, 0xFF, 0x00, 0xFF),
        Abgr8888::from_abgr(0x00, 0x00, 0xFF, 0xFF),
    ];
    let bytes = gem::rgb::abgr8888_buffer_bytes(&colors);
    assert_eq!(bytes.len(), colors.len() * 4);

    assert_eq!(
        bytes,
        [
            0xFF, 0x00, 0x00, 0xFF, // Red
            0x00, 0xFF, 0x00, 0xFF, // Green
            0x00, 0x00, 0xFF, 0xFF, // Blue
        ]
    );
}

#[test]
fn rgb_color_trait() {
    let color: Rgb888 = RgbColor::from_rgb(255, 0, 0);
    assert_eq!(color.red(), 255);
    assert_eq!(color.green(), 0);
    assert_eq!(color.blue(), 0);

    let (r, g, b) = color.into_rgb();
    assert_eq!(r, 255);
    assert_eq!(g, 0);
    assert_eq!(b, 0);
}

#[test]
fn rgba_color_trait() {
    let color: Abgr8888 = RgbaColor::from_rgba(255, 0, 0, 255);
    assert_eq!(color.red(), 255);
    assert_eq!(color.green(), 0);
    assert_eq!(color.blue(), 0);
    assert_eq!(color.alpha(), 255);

    let (r, g, b, a) = color.into_rgba();
    assert_eq!(r, 255);
    assert_eq!(g, 0);
    assert_eq!(b, 0);
    assert_eq!(a, 255);
}

#[test]
fn alpha_last_new_green_is_opaque() {
    let color = AlphaLast::<u8, Rgb888>::new_green(128);
    assert_eq!(color.alpha(), 255);
    assert_eq!(color.green(), 128);
    assert_eq!(color.red(), 0);
    assert_eq!(color.blue(), 0);
}

#[test]
fn abgr8888_to_bytes_alpha_first() {
    let color = Abgr8888::from_abgr(0xFF, 0x00, 0x00, 0x00);
    assert_eq!(color.to_bytes(), [0xFF, 0x00, 0x00, 0x00]);
}

#[test]
fn alpha_last_to_bytes_alpha_last() {
    let color = AlphaLast::with_color(0xFFu8, gem::rgb::Bgr888::from_bgr(0, 0, 0));
    assert_eq!(color.to_bytes(), [0x00, 0x00, 0x00, 0xFF]);
}

#[test]
fn buffer_bytes_empty() {
    let colors: Vec<Abgr8888> = Vec::new();
    assert_eq!(gem::rgb::abgr8888_buffer_bytes(&colors), Vec::<u8>::new());
}
