//! Concrete pixel formats.
//!
//! The 16-bit formats pack their components into a single word through the
//! [`crate::codec`] bit-field codec; the table of `(shift, mask, clear)`
//! descriptors for each format stands below as constants.  The 32-bit
//! formats are composite layouts over byte-wide [`Rgb`] and [`Bgr`]
//! payloads.

use vstd::prelude::*;
use crate::alpha::{AlphaFirst, AlphaLast, HasAlpha};
use crate::codec::{
    clear_matches, field_fits, field_get, field_set, lemma_field_set_frames_other,
    lemma_field_set_get, packed_get, packed_set,
};
use crate::rgb::{Bgr, HasBlue, HasGreen, HasRed, Rgb, RgbColor, RgbaColor};

verus! {

/// Bit offset of the red field of [`Rgb565`].
pub const RGB565_RED_SHIFT: u16 = 11;

/// Width mask of the red field of [`Rgb565`].
pub const RGB565_RED_MASK: u16 = 0x1F;

/// Complement of the red field of [`Rgb565`] within the packed word.
pub const RGB565_RED_CLEAR: u16 = 0x07FF;

/// Bit offset of the green field of [`Rgb565`].
pub const RGB565_GREEN_SHIFT: u16 = 5;

/// Width mask of the green field of [`Rgb565`].
pub const RGB565_GREEN_MASK: u16 = 0x3F;

/// Complement of the green field of [`Rgb565`] within the packed word.
pub const RGB565_GREEN_CLEAR: u16 = 0xF81F;

/// Bit offset of the blue field of [`Rgb565`].
pub const RGB565_BLUE_SHIFT: u16 = 0;

/// Width mask of the blue field of [`Rgb565`].
pub const RGB565_BLUE_MASK: u16 = 0x1F;

/// Complement of the blue field of [`Rgb565`] within the packed word.
pub const RGB565_BLUE_CLEAR: u16 = 0xFFE0;

/// A 16-bit packed RGB color: 5 bits of red, 6 of green, 5 of blue.
///
/// Layout of the packed word:
///
/// ```text
/// | 15-11 | 10-5 | 4-0 |
/// |   R   |  G   |  B  |
/// ```
#[derive(Debug, Default, Clone, Copy, PartialEq, Eq, PartialOrd, Ord)]
pub struct Rgb565 {
    /// The packed word holding all three fields.
    pub packed: u16,
}

impl Rgb565 {
    /// Creates a new RGB color from the packed representation.
    pub fn new(packed: u16) -> (c: Self)
        ensures
            c.packed == packed,
    {
        Self { packed }
    }

    /// Creates a new RGB color from individual component values (r, g, b).
    ///
    /// This is a lossy conversion: only the low 5 bits of red and blue and
    /// the low 6 bits of green are stored.
    pub fn from_rgb(r: u8, g: u8, b: u8) -> (c: Self)
        ensures
            c.packed == (((r as u16) & 0x1F) << 11) | (((g as u16) & 0x3F) << 5) | ((b as u16)
                & 0x1F),
            c.spec_red() == r & 0x1F,
            c.spec_green() == g & 0x3F,
            c.spec_blue() == b & 0x1F,
    {
        let packed = (((r as u16) & 0x1F) << 11) | (((g as u16) & 0x3F) << 5) | ((b as u16)
            & 0x1F);
        proof {
            assert({
                let p = (((r as u16) & 0x1F) << 11) | (((g as u16) & 0x3F) << 5) | ((b as u16)
                    & 0x1F);
                (((p >> 11) & 0x1F) as u8) == r & 0x1F && (((p >> 5) & 0x3F) as u8) == g & 0x3F
                    && (((p >> 0) & 0x1F) as u8) == b & 0x1F
            }) by (bit_vector);
        }
        Self { packed }
    }
}

impl HasRed for Rgb565 {
    type Component = u8;

    open spec fn spec_red(&self) -> u8 {
        field_get(self.packed, RGB565_RED_SHIFT, RGB565_RED_MASK)
    }

    open spec fn spec_with_red(&self, value: u8) -> Self {
        Rgb565 {
            packed: field_set(
                self.packed,
                RGB565_RED_SHIFT,
                RGB565_RED_MASK,
                RGB565_RED_CLEAR,
                value,
            ),
        }
    }

    open spec fn spec_new_red(value: u8) -> Self {
        Rgb565 { packed: field_set(0, RGB565_RED_SHIFT, RGB565_RED_MASK, RGB565_RED_CLEAR, value) }
    }

    fn new_red(value: u8) -> Self {
        Rgb565 {
            packed: packed_set(0, RGB565_RED_SHIFT, RGB565_RED_MASK, RGB565_RED_CLEAR, value),
        }
    }

    fn red(&self) -> u8 {
        packed_get(self.packed, RGB565_RED_SHIFT, RGB565_RED_MASK)
    }

    fn set_red(&mut self, value: u8) {
        self.packed = packed_set(
            self.packed,
            RGB565_RED_SHIFT,
            RGB565_RED_MASK,
            RGB565_RED_CLEAR,
            value,
        );
    }

    fn with_red(self, value: u8) -> Self {
        Rgb565 {
            packed: packed_set(
                self.packed,
                RGB565_RED_SHIFT,
                RGB565_RED_MASK,
                RGB565_RED_CLEAR,
                value,
            ),
        }
    }
}

impl HasGreen for Rgb565 {
    type Component = u8;

    open spec fn spec_green(&self) -> u8 {
        field_get(self.packed, RGB565_GREEN_SHIFT, RGB565_GREEN_MASK)
    }

    open spec fn spec_with_green(&self, value: u8) -> Self {
        Rgb565 {
            packed: field_set(
                self.packed,
                RGB565_GREEN_SHIFT,
                RGB565_GREEN_MASK,
                RGB565_GREEN_CLEAR,
                value,
            ),
        }
    }

    open spec fn spec_new_green(value: u8) -> Self {
        Rgb565 {
            packed: field_set(0, RGB565_GREEN_SHIFT, RGB565_GREEN_MASK, RGB565_GREEN_CLEAR, value),
        }
    }

    fn new_green(value: u8) -> Self {
        Rgb565 {
            packed: packed_set(0, RGB565_GREEN_SHIFT, RGB565_GREEN_MASK, RGB565_GREEN_CLEAR, value),
        }
    }

    fn green(&self) -> u8 {
        packed_get(self.packed, RGB565_GREEN_SHIFT, RGB565_GREEN_MASK)
    }

    fn set_green(&mut self, value: u8) {
        self.packed = packed_set(
            self.packed,
            RGB565_GREEN_SHIFT,
            RGB565_GREEN_MASK,
            RGB565_GREEN_CLEAR,
            value,
        );
    }

    fn with_green(self, value: u8) -> Self {
        Rgb565 {
            packed: packed_set(
                self.packed,
                RGB565_GREEN_SHIFT,
                RGB565_GREEN_MASK,
                RGB565_GREEN_CLEAR,
                value,
            ),
        }
    }
}

impl HasBlue for Rgb565 {
    type Component = u8;

    open spec fn spec_blue(&self) -> u8 {
        field_get(self.packed, RGB565_BLUE_SHIFT, RGB565_BLUE_MASK)
    }

    open spec fn spec_with_blue(&self, value: u8) -> Self {
        Rgb565 {
            packed: field_set(
                self.packed,
                RGB565_BLUE_SHIFT,
                RGB565_BLUE_MASK,
                RGB565_BLUE_CLEAR,
                value,
            ),
        }
    }

    open spec fn spec_new_blue(value: u8) -> Self {
        Rgb565 {
            packed: field_set(0, RGB565_BLUE_SHIFT, RGB565_BLUE_MASK, RGB565_BLUE_CLEAR, value),
        }
    }

    fn new_blue(value: u8) -> Self {
        Rgb565 {
            packed: packed_set(0, RGB565_BLUE_SHIFT, RGB565_BLUE_MASK, RGB565_BLUE_CLEAR, value),
        }
    }

    fn blue(&self) -> u8 {
        packed_get(self.packed, RGB565_BLUE_SHIFT, RGB565_BLUE_MASK)
    }

    fn set_blue(&mut self, value: u8) {
        self.packed = packed_set(
            self.packed,
            RGB565_BLUE_SHIFT,
            RGB565_BLUE_MASK,
            RGB565_BLUE_CLEAR,
            value,
        );
    }

    fn with_blue(self, value: u8) -> Self {
        Rgb565 {
            packed: packed_set(
                self.packed,
                RGB565_BLUE_SHIFT,
                RGB565_BLUE_MASK,
                RGB565_BLUE_CLEAR,
                value,
            ),
        }
    }
}

impl RgbColor for Rgb565 {
    open spec fn spec_from_rgb(red: u8, green: u8, blue: u8) -> Self {
        Rgb565 { packed: 0 }.spec_with_red(red).spec_with_green(green).spec_with_blue(blue)
    }

    fn from_rgb(red: u8, green: u8, blue: u8) -> Self {
        Rgb565 { packed: 0 }.with_red(red).with_green(green).with_blue(blue)
    }
}

/// Each field of [`Rgb565`] reads back exactly the bits that were stored
/// into it, and writing one field leaves the other two unchanged, for every
/// starting word and every written value.
pub proof fn lemma_rgb565_field_isolation(c: Rgb565, value: u8)
    ensures
        c.spec_with_red(value).spec_red() == value & 0x1F,
        c.spec_with_red(value).spec_green() == c.spec_green(),
        c.spec_with_red(value).spec_blue() == c.spec_blue(),
        c.spec_with_green(value).spec_green() == value & 0x3F,
        c.spec_with_green(value).spec_red() == c.spec_red(),
        c.spec_with_green(value).spec_blue() == c.spec_blue(),
        c.spec_with_blue(value).spec_blue() == value & 0x1F,
        c.spec_with_blue(value).spec_red() == c.spec_red(),
        c.spec_with_blue(value).spec_green() == c.spec_green(),
{
    assert(field_fits(11, 0x1F) && clear_matches(11, 0x1F, 0x07FF) && field_fits(5, 0x3F)
        && clear_matches(5, 0x3F, 0xF81F) && field_fits(0, 0x1F) && clear_matches(0, 0x1F, 0xFFE0)
        && ((0x1Fu16 << 11u16) & (0x3Fu16 << 5u16)) == 0 && ((0x3Fu16 << 5u16) & (0x1Fu16
        << 11u16)) == 0 && ((0x1Fu16 << 11u16) & (0x1Fu16 << 0u16)) == 0 && ((0x1Fu16 << 0u16)
        & (0x1Fu16 << 11u16)) == 0 && ((0x3Fu16 << 5u16) & (0x1Fu16 << 0u16)) == 0 && ((0x1Fu16
        << 0u16) & (0x3Fu16 << 5u16)) == 0) by (bit_vector);
    lemma_field_set_get(c.packed, 11, 0x1F, 0x07FF, value);
    lemma_field_set_frames_other(c.packed, 11, 0x1F, 0x07FF, value, 5, 0x3F);
    lemma_field_set_frames_other(c.packed, 11, 0x1F, 0x07FF, value, 0, 0x1F);
    lemma_field_set_get(c.packed, 5, 0x3F, 0xF81F, value);
    lemma_field_set_frames_other(c.packed, 5, 0x3F, 0xF81F, value, 11, 0x1F);
    lemma_field_set_frames_other(c.packed, 5, 0x3F, 0xF81F, value, 0, 0x1F);
    lemma_field_set_get(c.packed, 0, 0x1F, 0xFFE0, value);
    lemma_field_set_frames_other(c.packed, 0, 0x1F, 0xFFE0, value, 11, 0x1F);
    lemma_field_set_frames_other(c.packed, 0, 0x1F, 0xFFE0, value, 5, 0x3F);
}

/// Bit offset of the alpha field of [`Argb1555`].
pub const ARGB1555_ALPHA_SHIFT: u16 = 15;

/// Width mask of the alpha field of [`Argb1555`].
pub const ARGB1555_ALPHA_MASK: u16 = 0x01;

/// Complement of the alpha field of [`Argb1555`] within the packed word.
pub const ARGB1555_ALPHA_CLEAR: u16 = 0x7FFF;

/// Bit offset of the red field of [`Argb1555`].
pub const ARGB1555_RED_SHIFT: u16 = 10;

/// Width mask of the red field of [`Argb1555`].
pub const ARGB1555_RED_MASK: u16 = 0x1F;

/// Complement of the red field of [`Argb1555`] within the packed word.
pub const ARGB1555_RED_CLEAR: u16 = 0x83FF;

/// Bit offset of the green field of [`Argb1555`].
pub const ARGB1555_GREEN_SHIFT: u16 = 5;

/// Width mask of the green field of [`Argb1555`].
pub const ARGB1555_GREEN_MASK: u16 = 0x1F;

/// Complement of the green field of [`Argb1555`] within the packed word.
pub const ARGB1555_GREEN_CLEAR: u16 = 0xFC1F;

/// Bit offset of the blue field of [`Argb1555`].
pub const ARGB1555_BLUE_SHIFT: u16 = 0;

/// Width mask of the blue field of [`Argb1555`].
pub const ARGB1555_BLUE_MASK: u16 = 0x1F;

/// Complement of the blue field of [`Argb1555`] within the packed word.
pub const ARGB1555_BLUE_CLEAR: u16 = 0xFFE0;

/// A 16-bit packed ARGB color: 1 bit of alpha and 5 bits each of red,
/// green, and blue.
///
/// Layout of the packed word:
///
/// ```text
/// | 15 | 14-10 | 9-5 | 4-0 |
/// |  A |   R   |  G  |  B  |
/// ```
#[derive(Debug, Default, Clone, Copy, PartialEq, Eq, PartialOrd, Ord)]
pub struct Argb1555 {
    /// The packed word holding all four fields.
    pub packed: u16,
}

impl Argb1555 {
    /// Creates a new ARGB color from the packed representation.
    pub fn new(packed: u16) -> (c: Self)
        ensures
            c.packed == packed,
    {
        Self { packed }
    }

    /// The fully transparent ARGB color: every field is zero.
    pub fn transparent() -> (c: Self)
        ensures
            c.packed == 0,
    {
        Self { packed: 0 }
    }

    /// Creates a new ARGB color from individual component values (r, g, b).
    ///
    /// The color is fully opaque (alpha = 1); only the low 5 bits of each
    /// component are stored.
    pub fn from_rgb(r: u8, g: u8, b: u8) -> (c: Self)
        ensures
            c.packed == 0x8000 | (((r as u16) & 0x1F) << 10) | (((g as u16) & 0x1F) << 5) | ((
            b as u16) & 0x1F),
            c.spec_alpha() == 1,
            c.spec_red() == r & 0x1F,
            c.spec_green() == g & 0x1F,
            c.spec_blue() == b & 0x1F,
    {
        let packed = 0x8000 | (((r as u16) & 0x1F) << 10) | (((g as u16) & 0x1F) << 5) | ((
        b as u16) & 0x1F);
        proof {
            assert({
                let p = 0x8000 | (((r as u16) & 0x1F) << 10) | (((g as u16) & 0x1F) << 5) | ((
                b as u16) & 0x1F);
                (((p >> 15) & 0x01) as u8) == 1 && (((p >> 10) & 0x1F) as u8) == r & 0x1F && (((p
                    >> 5) & 0x1F) as u8) == g & 0x1F && (((p >> 0) & 0x1F) as u8) == b & 0x1F
            }) by (bit_vector);
        }
        Self { packed }
    }
}


impl HasAlpha for Argb1555 {
    type Component = u8;

    open spec fn spec_alpha(&self) -> u8 {
        field_get(self.packed, ARGB1555_ALPHA_SHIFT, ARGB1555_ALPHA_MASK)
    }

    open spec fn spec_with_alpha(&self, value: u8) -> Self {
        Argb1555 { packed: field_set(self.packed, ARGB1555_ALPHA_SHIFT, ARGB1555_ALPHA_MASK, ARGB1555_ALPHA_CLEAR, value) }
    }

    fn alpha(&self) -> u8 {
        packed_get(self.packed, ARGB1555_ALPHA_SHIFT, ARGB1555_ALPHA_MASK)
    }

    fn set_alpha(&mut self, value: u8) {
        self.packed = packed_set(self.packed, ARGB1555_ALPHA_SHIFT, ARGB1555_ALPHA_MASK, ARGB1555_ALPHA_CLEAR, value);
    }

    fn with_alpha(self, value: u8) -> Self {
        Argb1555 { packed: packed_set(self.packed, ARGB1555_ALPHA_SHIFT, ARGB1555_ALPHA_MASK, ARGB1555_ALPHA_CLEAR, value) }
    }
}


impl HasRed for Argb1555 {
    type Component = u8;

    open spec fn spec_red(&self) -> u8 {
        field_get(self.packed, ARGB1555_RED_SHIFT, ARGB1555_RED_MASK)
    }

    open spec fn spec_with_red(&self, value: u8) -> Self {
        Argb1555 { packed: field_set(self.packed, ARGB1555_RED_SHIFT, ARGB1555_RED_MASK, ARGB1555_RED_CLEAR, value) }
    }

    open spec fn spec_new_red(value: u8) -> Self {
        Argb1555 { packed: field_set(0, ARGB1555_RED_SHIFT, ARGB1555_RED_MASK, ARGB1555_RED_CLEAR, value) }
    }

    fn new_red(value: u8) -> Self {
        Argb1555 { packed: packed_set(0, ARGB1555_RED_SHIFT, ARGB1555_RED_MASK, ARGB1555_RED_CLEAR, value) }
    }

    fn red(&self) -> u8 {
        packed_get(self.packed, ARGB1555_RED_SHIFT, ARGB1555_RED_MASK)
    }

    fn set_red(&mut self, value: u8) {
        self.packed = packed_set(self.packed, ARGB1555_RED_SHIFT, ARGB1555_RED_MASK, ARGB1555_RED_CLEAR, value);
    }

    fn with_red(self, value: u8) -> Self {
        Argb1555 { packed: packed_set(self.packed, ARGB1555_RED_SHIFT, ARGB1555_RED_MASK, ARGB1555_RED_CLEAR, value) }
    }
}


impl HasGreen for Argb1555 {
    type Component = u8;

    open spec fn spec_green(&self) -> u8 {
        field_get(self.packed, ARGB1555_GREEN_SHIFT, ARGB1555_GREEN_MASK)
    }

    open spec fn spec_with_green(&self, value: u8) -> Self {
        Argb1555 { packed: field_set(self.packed, ARGB1555_GREEN_SHIFT, ARGB1555_GREEN_MASK, ARGB1555_GREEN_CLEAR, value) }
    }

    open spec fn spec_new_green(value: u8) -> Self {
        Argb1555 { packed: field_set(0, ARGB1555_GREEN_SHIFT, ARGB1555_GREEN_MASK, ARGB1555_GREEN_CLEAR, value) }
    }

    fn new_green(value: u8) -> Self {
        Argb1555 { packed: packed_set(0, ARGB1555_GREEN_SHIFT, ARGB1555_GREEN_MASK, ARGB1555_GREEN_CLEAR, value) }
    }

    fn green(&self) -> u8 {
        packed_get(self.packed, ARGB1555_GREEN_SHIFT, ARGB1555_GREEN_MASK)
    }

    fn set_green(&mut self, value: u8) {
        self.packed = packed_set(self.packed, ARGB1555_GREEN_SHIFT, ARGB1555_GREEN_MASK, ARGB1555_GREEN_CLEAR, value);
    }

    fn with_green(self, value: u8) -> Self {
        Argb1555 { packed: packed_set(self.packed, ARGB1555_GREEN_SHIFT, ARGB1555_GREEN_MASK, ARGB1555_GREEN_CLEAR, value) }
    }
}


impl HasBlue for Argb1555 {
    type Component = u8;

    open spec fn spec_blue(&self) -> u8 {
        field_get(self.packed, ARGB1555_BLUE_SHIFT, ARGB1555_BLUE_MASK)
    }

    open spec fn spec_with_blue(&self, value: u8) -> Self {
        Argb1555 { packed: field_set(self.packed, ARGB1555_BLUE_SHIFT, ARGB1555_BLUE_MASK, ARGB1555_BLUE_CLEAR, value) }
    }

    open spec fn spec_new_blue(value: u8) -> Self {
        Argb1555 { packed: field_set(0, ARGB1555_BLUE_SHIFT, ARGB1555_BLUE_MASK, ARGB1555_BLUE_CLEAR, value) }
    }

    fn new_blue(value: u8) -> Self {
        Argb1555 { packed: packed_set(0, ARGB1555_BLUE_SHIFT, ARGB1555_BLUE_MASK, ARGB1555_BLUE_CLEAR, value) }
    }

    fn blue(&self) -> u8 {
        packed_get(self.packed, ARGB1555_BLUE_SHIFT, ARGB1555_BLUE_MASK)
    }

    fn set_blue(&mut self, value: u8) {
        self.packed = packed_set(self.packed, ARGB1555_BLUE_SHIFT, ARGB1555_BLUE_MASK, ARGB1555_BLUE_CLEAR, value);
    }

    fn with_blue(self, value: u8) -> Self {
        Argb1555 { packed: packed_set(self.packed, ARGB1555_BLUE_SHIFT, ARGB1555_BLUE_MASK, ARGB1555_BLUE_CLEAR, value) }
    }
}


impl RgbColor for Argb1555 {
    open spec fn spec_from_rgb(red: u8, green: u8, blue: u8) -> Self {
        Argb1555 { packed: 0 }.spec_with_red(red).spec_with_green(green).spec_with_blue(blue)
    }

    fn from_rgb(red: u8, green: u8, blue: u8) -> Self {
        Argb1555 { packed: 0 }.with_red(red).with_green(green).with_blue(blue)
    }
}


impl RgbaColor for Argb1555 {
    open spec fn spec_from_rgba(red: u8, green: u8, blue: u8, alpha: u8) -> Self {
        Argb1555 { packed: 0 }.spec_with_red(red).spec_with_green(green).spec_with_blue(
            blue,
        ).spec_with_alpha(alpha)
    }

    fn from_rgba(red: u8, green: u8, blue: u8, alpha: u8) -> Self {
        Argb1555 { packed: 0 }.with_red(red).with_green(green).with_blue(blue).with_alpha(alpha)
    }
}


/// Each field of [`Argb1555`] reads back exactly the bits that were stored
/// into it, and writing one field leaves every other field unchanged, for
/// every starting word and every written value.
pub proof fn lemma_argb1555_field_isolation(c: Argb1555, value: u8)
    ensures
        c.spec_with_alpha(value).spec_alpha() == value & 0x01,
        c.spec_with_alpha(value).spec_red() == c.spec_red(),
        c.spec_with_alpha(value).spec_green() == c.spec_green(),
        c.spec_with_alpha(value).spec_blue() == c.spec_blue(),
        c.spec_with_red(value).spec_red() == value & 0x1F,
        c.spec_with_red(value).spec_alpha() == c.spec_alpha(),
        c.spec_with_red(value).spec_green() == c.spec_green(),
        c.spec_with_red(value).spec_blue() == c.spec_blue(),
        c.spec_with_green(value).spec_green() == value & 0x1F,
        c.spec_with_green(value).spec_alpha() == c.spec_alpha(),
        c.spec_with_green(value).spec_red() == c.spec_red(),
        c.spec_with_green(value).spec_blue() == c.spec_blue(),
        c.spec_with_blue(value).spec_blue() == value & 0x1F,
        c.spec_with_blue(value).spec_alpha() == c.spec_alpha(),
        c.spec_with_blue(value).spec_red() == c.spec_red(),
        c.spec_with_blue(value).spec_green() == c.spec_green(),
{
    assert(field_fits(15, 0x01)
        && clear_matches(15, 0x01, 0x7FFF)
        && field_fits(10, 0x1F)
        && clear_matches(10, 0x1F, 0x83FF)
        && field_fits(5, 0x1F)
        && clear_matches(5, 0x1F, 0xFC1F)
        && field_fits(0, 0x1F)
        && clear_matches(0, 0x1F, 0xFFE0)
        && ((0x01u16 << 15u16) & (0x1Fu16 << 10u16)) == 0
        && ((0x01u16 << 15u16) & (0x1Fu16 << 5u16)) == 0
        && ((0x01u16 << 15u16) & (0x1Fu16 << 0u16)) == 0
        && ((0x1Fu16 << 10u16) & (0x01u16 << 15u16)) == 0
        && ((0x1Fu16 << 10u16) & (0x1Fu16 << 5u16)) == 0
        && ((0x1Fu16 << 10u16) & (0x1Fu16 << 0u16)) == 0
        && ((0x1Fu16 << 5u16) & (0x01u16 << 15u16)) == 0
        && ((0x1Fu16 << 5u16) & (0x1Fu16 << 10u16)) == 0
        && ((0x1Fu16 << 5u16) & (0x1Fu16 << 0u16)) == 0
        && ((0x1Fu16 << 0u16) & (0x01u16 << 15u16)) == 0
        && ((0x1Fu16 << 0u16) & (0x1Fu16 << 10u16)) == 0
        && ((0x1Fu16 << 0u16) & (0x1Fu16 << 5u16)) == 0) by (bit_vector);
    lemma_field_set_get(c.packed, 15, 0x01, 0x7FFF, value);
    lemma_field_set_frames_other(c.packed, 15, 0x01, 0x7FFF, value, 10, 0x1F);
    lemma_field_set_frames_other(c.packed, 15, 0x01, 0x7FFF, value, 5, 0x1F);
    lemma_field_set_frames_other(c.packed, 15, 0x01, 0x7FFF, value, 0, 0x1F);
    lemma_field_set_get(c.packed, 10, 0x1F, 0x83FF, value);
    lemma_field_set_frames_other(c.packed, 10, 0x1F, 0x83FF, value, 15, 0x01);
    lemma_field_set_frames_other(c.packed, 10, 0x1F, 0x83FF, value, 5, 0x1F);
    lemma_field_set_frames_other(c.packed, 10, 0x1F, 0x83FF, value, 0, 0x1F);
    lemma_field_set_get(c.packed, 5, 0x1F, 0xFC1F, value);
    lemma_field_set_frames_other(c.packed, 5, 0x1F, 0xFC1F, value, 15, 0x01);
    lemma_field_set_frames_other(c.packed, 5, 0x1F, 0xFC1F, value, 10, 0x1F);
    lemma_field_set_frames_other(c.packed, 5, 0x1F, 0xFC1F, value, 0, 0x1F);
    lemma_field_set_get(c.packed, 0, 0x1F, 0xFFE0, value);
    lemma_field_set_frames_other(c.packed, 0, 0x1F, 0xFFE0, value, 15, 0x01);
    lemma_field_set_frames_other(c.packed, 0, 0x1F, 0xFFE0, value, 10, 0x1F);
    lemma_field_set_frames_other(c.packed, 0, 0x1F, 0xFFE0, value, 5, 0x1F);
}

/// Bit offset of the alpha field of [`Argb4444`].
pub const ARGB4444_ALPHA_SHIFT: u16 = 12;

/// Width mask of the alpha field of [`Argb4444`].
pub const ARGB4444_ALPHA_MASK: u16 = 0x0F;

/// Complement of the alpha field of [`Argb4444`] within the packed word.
pub const ARGB4444_ALPHA_CLEAR: u16 = 0x0FFF;

/// Bit offset of the red field of [`Argb4444`].
pub const ARGB4444_RED_SHIFT: u16 = 8;

/// Width mask of the red field of [`Argb4444`].
pub const ARGB4444_RED_MASK: u16 = 0x0F;

/// Complement of the red field of [`Argb4444`] within the packed word.
pub const ARGB4444_RED_CLEAR: u16 = 0xF0FF;

/// Bit offset of the green field of [`Argb4444`].
pub const ARGB4444_GREEN_SHIFT: u16 = 4;

/// Width mask of the green field of [`Argb4444`].
pub const ARGB4444_GREEN_MASK: u16 = 0x0F;

/// Complement of the green field of [`Argb4444`] within the packed word.
pub const ARGB4444_GREEN_CLEAR: u16 = 0xFF0F;

/// Bit offset of the blue field of [`Argb4444`].
pub const ARGB4444_BLUE_SHIFT: u16 = 0;

/// Width mask of the blue field of [`Argb4444`].
pub const ARGB4444_BLUE_MASK: u16 = 0x0F;

/// Complement of the blue field of [`Argb4444`] within the packed word.
pub const ARGB4444_BLUE_CLEAR: u16 = 0xFFF0;

/// A 16-bit packed ARGB color: 4 bits each of alpha, red, green, and blue.
///
/// Layout of the packed word:
///
/// ```text
/// | 15-12 | 11-8 | 7-4 | 3-0 |
/// |   A   |   R  |  G  |  B  |
/// ```
#[derive(Debug, Default, Clone, Copy, PartialEq, Eq, PartialOrd, Ord)]
pub struct Argb4444 {
    /// The packed word holding all four fields.
    pub packed: u16,
}

impl Argb4444 {
    /// Creates a new ARGB color from the packed representation.
    pub fn new(packed: u16) -> (c: Self)
        ensures
            c.packed == packed,
    {
        Self { packed }
    }

    /// Creates a new ARGB color from the individual component values
    /// (a, r, g, b).
    ///
    /// This is a lossy conversion: only the low 4 bits of each component
    /// are stored.
    pub fn from_argb(a: u8, r: u8, g: u8, b: u8) -> (c: Self)
        ensures
            c.packed == (((a as u16) & 0x0F) << 12) | (((r as u16) & 0x0F) << 8) | (((g as u16)
                & 0x0F) << 4) | ((b as u16) & 0x0F),
            c.spec_alpha() == a & 0x0F,
            c.spec_red() == r & 0x0F,
            c.spec_green() == g & 0x0F,
            c.spec_blue() == b & 0x0F,
    {
        let packed = (((a as u16) & 0x0F) << 12) | (((r as u16) & 0x0F) << 8) | (((g as u16)
            & 0x0F) << 4) | ((b as u16) & 0x0F);
        proof {
            assert({
                let p = (((a as u16) & 0x0F) << 12) | (((r as u16) & 0x0F) << 8) | (((g as u16)
                    & 0x0F) << 4) | ((b as u16) & 0x0F);
                (((p >> 12) & 0x0F) as u8) == a & 0x0F && (((p >> 8) & 0x0F) as u8) == r & 0x0F
                    && (((p >> 4) & 0x0F) as u8) == g & 0x0F && (((p >> 0) & 0x0F) as u8) == b
                    & 0x0F
            }) by (bit_vector);
        }
        Self { packed }
    }
}


impl HasAlpha for Argb4444 {
    type Component = u8;

    open spec fn spec_alpha(&self) -> u8 {
        field_get(self.packed, ARGB4444_ALPHA_SHIFT, ARGB4444_ALPHA_MASK)
    }

    open spec fn spec_with_alpha(&self, value: u8) -> Self {
        Argb4444 { packed: field_set(self.packed, ARGB4444_ALPHA_SHIFT, ARGB4444_ALPHA_MASK, ARGB4444_ALPHA_CLEAR, value) }
    }

    fn alpha(&self) -> u8 {
        packed_get(self.packed, ARGB4444_ALPHA_SHIFT, ARGB4444_ALPHA_MASK)
    }

    fn set_alpha(&mut self, value: u8) {
        self.packed = packed_set(self.packed, ARGB4444_ALPHA_SHIFT, ARGB4444_ALPHA_MASK, ARGB4444_ALPHA_CLEAR, value);
    }

    fn with_alpha(self, value: u8) -> Self {
        Argb4444 { packed: packed_set(self.packed, ARGB4444_ALPHA_SHIFT, ARGB4444_ALPHA_MASK, ARGB4444_ALPHA_CLEAR, value) }
    }
}


impl HasRed for Argb4444 {
    type Component = u8;

    open spec fn spec_red(&self) -> u8 {
        field_get(self.packed, ARGB4444_RED_SHIFT, ARGB4444_RED_MASK)
    }

    open spec fn spec_with_red(&self, value: u8) -> Self {
        Argb4444 { packed: field_set(self.packed, ARGB4444_RED_SHIFT, ARGB4444_RED_MASK, ARGB4444_RED_CLEAR, value) }
    }

    open spec fn spec_new_red(value: u8) -> Self {
        Argb4444 { packed: field_set(0, ARGB4444_RED_SHIFT, ARGB4444_RED_MASK, ARGB4444_RED_CLEAR, value) }
    }

    fn new_red(value: u8) -> Self {
        Argb4444 { packed: packed_set(0, ARGB4444_RED_SHIFT, ARGB4444_RED_MASK, ARGB4444_RED_CLEAR, value) }
    }

    fn red(&self) -> u8 {
        packed_get(self.packed, ARGB4444_RED_SHIFT, ARGB4444_RED_MASK)
    }

    fn set_red(&mut self, value: u8) {
        self.packed = packed_set(self.packed, ARGB4444_RED_SHIFT, ARGB4444_RED_MASK, ARGB4444_RED_CLEAR, value);
    }

    fn with_red(self, value: u8) -> Self {
        Argb4444 { packed: packed_set(self.packed, ARGB4444_RED_SHIFT, ARGB4444_RED_MASK, ARGB4444_RED_CLEAR, value) }
    }
}


impl HasGreen for Argb4444 {
    type Component = u8;

    open spec fn spec_green(&self) -> u8 {
        field_get(self.packed, ARGB4444_GREEN_SHIFT, ARGB4444_GREEN_MASK)
    }

    open spec fn spec_with_green(&self, value: u8) -> Self {
        Argb4444 { packed: field_set(self.packed, ARGB4444_GREEN_SHIFT, ARGB4444_GREEN_MASK, ARGB4444_GREEN_CLEAR, value) }
    }

    open spec fn spec_new_green(value: u8) -> Self {
        Argb4444 { packed: field_set(0, ARGB4444_GREEN_SHIFT, ARGB4444_GREEN_MASK, ARGB4444_GREEN_CLEAR, value) }
    }

    fn new_green(value: u8) -> Self {
        Argb4444 { packed: packed_set(0, ARGB4444_GREEN_SHIFT, ARGB4444_GREEN_MASK, ARGB4444_GREEN_CLEAR, value) }
    }

    fn green(&self) -> u8 {
        packed_get(self.packed, ARGB4444_GREEN_SHIFT, ARGB4444_GREEN_MASK)
    }

    fn set_green(&mut self, value: u8) {
        self.packed = packed_set(self.packed, ARGB4444_GREEN_SHIFT, ARGB4444_GREEN_MASK, ARGB4444_GREEN_CLEAR, value);
    }

    fn with_green(self, value: u8) -> Self {
        Argb4444 { packed: packed_set(self.packed, ARGB4444_GREEN_SHIFT, ARGB4444_GREEN_MASK, ARGB4444_GREEN_CLEAR, value) }
    }
}


impl HasBlue for Argb4444 {
    type Component = u8;

    open spec fn spec_blue(&self) -> u8 {
        field_get(self.packed, ARGB4444_BLUE_SHIFT, ARGB4444_BLUE_MASK)
    }

    open spec fn spec_with_blue(&self, value: u8) -> Self {
        Argb4444 { packed: field_set(self.packed, ARGB4444_BLUE_SHIFT, ARGB4444_BLUE_MASK, ARGB4444_BLUE_CLEAR, value) }
    }

    open spec fn spec_new_blue(value: u8) -> Self {
        Argb4444 { packed: field_set(0, ARGB4444_BLUE_SHIFT, ARGB4444_BLUE_MASK, ARGB4444_BLUE_CLEAR, value) }
    }

    fn new_blue(value: u8) -> Self {
        Argb4444 { packed: packed_set(0, ARGB4444_BLUE_SHIFT, ARGB4444_BLUE_MASK, ARGB4444_BLUE_CLEAR, value) }
    }

    fn blue(&self) -> u8 {
        packed_get(self.packed, ARGB4444_BLUE_SHIFT, ARGB4444_BLUE_MASK)
    }

    fn set_blue(&mut self, value: u8) {
        self.packed = packed_set(self.packed, ARGB4444_BLUE_SHIFT, ARGB4444_BLUE_MASK, ARGB4444_BLUE_CLEAR, value);
    }

    fn with_blue(self, value: u8) -> Self {
        Argb4444 { packed: packed_set(self.packed, ARGB4444_BLUE_SHIFT, ARGB4444_BLUE_MASK, ARGB4444_BLUE_CLEAR, value) }
    }
}


impl RgbColor for Argb4444 {
    open spec fn spec_from_rgb(red: u8, green: u8, blue: u8) -> Self {
        Argb4444 { packed: 0 }.spec_with_red(red).spec_with_green(green).spec_with_blue(blue)
    }

    fn from_rgb(red: u8, green: u8, blue: u8) -> Self {
        Argb4444 { packed: 0 }.with_red(red).with_green(green).with_blue(blue)
    }
}


impl RgbaColor for Argb4444 {
    open spec fn spec_from_rgba(red: u8, green: u8, blue: u8, alpha: u8) -> Self {
        Argb4444 { packed: 0 }.spec_with_red(red).spec_with_green(green).spec_with_blue(
            blue,
        ).spec_with_alpha(alpha)
    }

    fn from_rgba(red: u8, green: u8, blue: u8, alpha: u8) -> Self {
        Argb4444 { packed: 0 }.with_red(red).with_green(green).with_blue(blue).with_alpha(alpha)
    }
}


/// Each field of [`Argb4444`] reads back exactly the bits that were stored
/// into it, and writing one field leaves every other field unchanged, for
/// every starting word and every written value.
pub proof fn lemma_argb4444_field_isolation(c: Argb4444, value: u8)
    ensures
        c.spec_with_alpha(value).spec_alpha() == value & 0x0F,
        c.spec_with_alpha(value).spec_red() == c.spec_red(),
        c.spec_with_alpha(value).spec_green() == c.spec_green(),
        c.spec_with_alpha(value).spec_blue() == c.spec_blue(),
        c.spec_with_red(value).spec_red() == value & 0x0F,
        c.spec_with_red(value).spec_alpha() == c.spec_alpha(),
        c.spec_with_red(value).spec_green() == c.spec_green(),
        c.spec_with_red(value).spec_blue() == c.spec_blue(),
        c.spec_with_green(value).spec_green() == value & 0x0F,
        c.spec_with_green(value).spec_alpha() == c.spec_alpha(),
        c.spec_with_green(value).spec_red() == c.spec_red(),
        c.spec_with_green(value).spec_blue() == c.spec_blue(),
        c.spec_with_blue(value).spec_blue() == value & 0x0F,
        c.spec_with_blue(value).spec_alpha() == c.spec_alpha(),
        c.spec_with_blue(value).spec_red() == c.spec_red(),
        c.spec_with_blue(value).spec_green() == c.spec_green(),
{
    assert(field_fits(12, 0x0F)
        && clear_matches(12, 0x0F, 0x0FFF)
        && field_fits(8, 0x0F)
        && clear_matches(8, 0x0F, 0xF0FF)
        && field_fits(4, 0x0F)
        && clear_matches(4, 0x0F, 0xFF0F)
        && field_fits(0, 0x0F)
        && clear_matches(0, 0x0F, 0xFFF0)
        && ((0x0Fu16 << 12u16) & (0x0Fu16 << 8u16)) == 0
        && ((0x0Fu16 << 12u16) & (0x0Fu16 << 4u16)) == 0
        && ((0x0Fu16 << 12u16) & (0x0Fu16 << 0u16)) == 0
        && ((0x0Fu16 << 8u16) & (0x0Fu16 << 12u16)) == 0
        && ((0x0Fu16 << 8u16) & (0x0Fu16 << 4u16)) == 0
        && ((0x0Fu16 << 8u16) & (0x0Fu16 << 0u16)) == 0
        && ((0x0Fu16 << 4u16) & (0x0Fu16 << 12u16)) == 0
        && ((0x0Fu16 << 4u16) & (0x0Fu16 << 8u16)) == 0
        && ((0x0Fu16 << 4u16) & (0x0Fu16 << 0u16)) == 0
        && ((0x0Fu16 << 0u16) & (0x0Fu16 << 12u16)) == 0
        && ((0x0Fu16 << 0u16) & (0x0Fu16 << 8u16)) == 0
        && ((0x0Fu16 << 0u16) & (0x0Fu16 << 4u16)) == 0) by (bit_vector);
    lemma_field_set_get(c.packed, 12, 0x0F, 0x0FFF, value);
    lemma_field_set_frames_other(c.packed, 12, 0x0F, 0x0FFF, value, 8, 0x0F);
    lemma_field_set_frames_other(c.packed, 12, 0x0F, 0x0FFF, value, 4, 0x0F);
    lemma_field_set_frames_other(c.packed, 12, 0x0F, 0x0FFF, value, 0, 0x0F);
    lemma_field_set_get(c.packed, 8, 0x0F, 0xF0FF, value);
    lemma_field_set_frames_other(c.packed, 8, 0x0F, 0xF0FF, value, 12, 0x0F);
    lemma_field_set_frames_other(c.packed, 8, 0x0F, 0xF0FF, value, 4, 0x0F);
    lemma_field_set_frames_other(c.packed, 8, 0x0F, 0xF0FF, value, 0, 0x0F);
    lemma_field_set_get(c.packed, 4, 0x0F, 0xFF0F, value);
    lemma_field_set_frames_other(c.packed, 4, 0x0F, 0xFF0F, value, 12, 0x0F);
    lemma_field_set_frames_other(c.packed, 4, 0x0F, 0xFF0F, value, 8, 0x0F);
    lemma_field_set_frames_other(c.packed, 4, 0x0F, 0xFF0F, value, 0, 0x0F);
    lemma_field_set_get(c.packed, 0, 0x0F, 0xFFF0, value);
    lemma_field_set_frames_other(c.packed, 0, 0x0F, 0xFFF0, value, 12, 0x0F);
    lemma_field_set_frames_other(c.packed, 0, 0x0F, 0xFFF0, value, 8, 0x0F);
    lemma_field_set_frames_other(c.packed, 0, 0x0F, 0xFFF0, value, 4, 0x0F);
}


/// 8-bit RGB color: one byte each of red, green, and blue, in that order.
pub type Rgb888 = Rgb<u8>;

impl Rgb<u8> {
    /// Creates a new RGB color from the low 24 bits of a packed word:
    /// red in bits 23-16, green in bits 15-8, blue in bits 7-0.  Any higher
    /// bits are ignored.
    pub fn new(packed: u32) -> (c: Self)
        ensures
            c.r == ((packed >> 16) & 0xFF) as u8,
            c.g == ((packed >> 8) & 0xFF) as u8,
            c.b == (packed & 0xFF) as u8,
    {
        let r = ((packed >> 16) & 0xFF) as u8;
        let g = ((packed >> 8) & 0xFF) as u8;
        let b = (packed & 0xFF) as u8;
        Rgb { r, g, b }
    }

    /// The in-memory bytes of this color: red, green, blue.
    pub fn to_bytes(&self) -> (bytes: Vec<u8>)
        ensures
            bytes@ == seq![self.r, self.g, self.b],
    {
        let mut bytes: Vec<u8> = Vec::new();
        bytes.push(self.r);
        bytes.push(self.g);
        bytes.push(self.b);
        proof {
            assert(bytes@ =~= seq![self.r, self.g, self.b]);
        }
        bytes
    }
}

/// 8-bit BGR color: one byte each of blue, green, and red, in that order.
pub type Bgr888 = Bgr<u8>;

impl Bgr<u8> {
    /// Creates a new BGR color from the low 24 bits of a packed word:
    /// blue in bits 23-16, green in bits 15-8, red in bits 7-0.  Any higher
    /// bits are ignored.
    pub fn new(packed: u32) -> (c: Self)
        ensures
            c.b == ((packed >> 16) & 0xFF) as u8,
            c.g == ((packed >> 8) & 0xFF) as u8,
            c.r == (packed & 0xFF) as u8,
    {
        let b = ((packed >> 16) & 0xFF) as u8;
        let g = ((packed >> 8) & 0xFF) as u8;
        let r = (packed & 0xFF) as u8;
        Bgr { b, g, r }
    }

    /// The in-memory bytes of this color: blue, green, red.
    pub fn to_bytes(&self) -> (bytes: Vec<u8>)
        ensures
            bytes@ == seq![self.b, self.g, self.r],
    {
        let mut bytes: Vec<u8> = Vec::new();
        bytes.push(self.b);
        bytes.push(self.g);
        bytes.push(self.r);
        proof {
            assert(bytes@ =~= seq![self.b, self.g, self.r]);
        }
        bytes
    }
}

/// 32-bit ARGB color: one byte each of alpha, red, green, and blue, stored
/// in that order.
pub type Argb8888 = AlphaFirst<u8, Rgb888>;

impl AlphaFirst<u8, Rgb<u8>> {
    /// Creates a new ARGB color from a packed word: alpha in bits 31-24,
    /// red in bits 23-16, green in bits 15-8, blue in bits 7-0.
    pub fn new(packed: u32) -> (c: Self)
        ensures
            c.alpha == ((packed >> 24) & 0xFF) as u8,
            c.color.r == ((packed >> 16) & 0xFF) as u8,
            c.color.g == ((packed >> 8) & 0xFF) as u8,
            c.color.b == (packed & 0xFF) as u8,
    {
        let alpha = ((packed >> 24) & 0xFF) as u8;
        let r = ((packed >> 16) & 0xFF) as u8;
        let g = ((packed >> 8) & 0xFF) as u8;
        let b = (packed & 0xFF) as u8;
        AlphaFirst { alpha, color: Rgb { r, g, b } }
    }

    /// Creates a new ARGB color from individual component values
    /// (a, r, g, b).
    pub fn from_argb(a: u8, r: u8, g: u8, b: u8) -> (c: Self)
        ensures
            c.alpha == a,
            c.color.r == r,
            c.color.g == g,
            c.color.b == b,
    {
        AlphaFirst { alpha: a, color: Rgb { r, g, b } }
    }

    /// The in-memory bytes of this color: alpha, red, green, blue.
    pub fn to_bytes(&self) -> (bytes: Vec<u8>)
        ensures
            bytes@ == seq![self.alpha, self.color.r, self.color.g, self.color.b],
    {
        let mut bytes: Vec<u8> = Vec::new();
        bytes.push(self.alpha);
        bytes.push(self.color.r);
        bytes.push(self.color.g);
        bytes.push(self.color.b);
        proof {
            assert(bytes@ =~= seq![self.alpha, self.color.r, self.color.g, self.color.b]);
        }
        bytes
    }
}

/// 32-bit ABGR color: one byte each of alpha, blue, green, and red, stored
/// in that order.
pub type Abgr8888 = AlphaFirst<u8, Bgr888>;

impl AlphaFirst<u8, Bgr<u8>> {
    /// Creates a new ABGR color from a packed word: alpha in bits 31-24,
    /// blue in bits 23-16, green in bits 15-8, red in bits 7-0.
    pub fn new(packed: u32) -> (c: Self)
        ensures
            c.alpha == ((packed >> 24) & 0xFF) as u8,
            c.color.b == ((packed >> 16) & 0xFF) as u8,
            c.color.g == ((packed >> 8) & 0xFF) as u8,
            c.color.r == (packed & 0xFF) as u8,
    {
        let alpha = ((packed >> 24) & 0xFF) as u8;
        let b = ((packed >> 16) & 0xFF) as u8;
        let g = ((packed >> 8) & 0xFF) as u8;
        let r = (packed & 0xFF) as u8;
        AlphaFirst { alpha, color: Bgr { b, g, r } }
    }

    /// Creates a new ABGR color from individual component values
    /// (a, b, g, r).
    pub fn from_abgr(a: u8, b: u8, g: u8, r: u8) -> (c: Self)
        ensures
            c.alpha == a,
            c.color.b == b,
            c.color.g == g,
            c.color.r == r,
    {
        AlphaFirst { alpha: a, color: Bgr { b, g, r } }
    }

    /// The in-memory bytes of this color: alpha, blue, green, red.
    pub fn to_bytes(&self) -> (bytes: Vec<u8>)
        ensures
            bytes@ == seq![self.alpha, self.color.b, self.color.g, self.color.r],
    {
        let mut bytes: Vec<u8> = Vec::new();
        bytes.push(self.alpha);
        bytes.push(self.color.b);
        bytes.push(self.color.g);
        bytes.push(self.color.r);
        proof {
            assert(bytes@ =~= seq![self.alpha, self.color.b, self.color.g, self.color.r]);
        }
        bytes
    }
}

impl AlphaLast<u8, Bgr<u8>> {
    /// The in-memory bytes of this color: blue, green, red, alpha.
    pub fn to_bytes(&self) -> (bytes: Vec<u8>)
        ensures
            bytes@ == seq![self.color.b, self.color.g, self.color.r, self.alpha],
    {
        let mut bytes: Vec<u8> = Vec::new();
        bytes.push(self.color.b);
        bytes.push(self.color.g);
        bytes.push(self.color.r);
        bytes.push(self.alpha);
        proof {
            assert(bytes@ =~= seq![self.color.b, self.color.g, self.color.r, self.alpha]);
        }
        bytes
    }
}

/// Serializes a row-major array of [`Abgr8888`] pixels into a tightly
/// packed byte buffer: four bytes per pixel, each pixel contributing its
/// alpha, blue, green, and red bytes in declaration order with no padding.
pub fn abgr8888_buffer_bytes(colors: &Vec<Abgr8888>) -> (bytes: Vec<u8>)
    ensures
        bytes@.len() == 4 * colors@.len(),
        forall|i: int|
            #![trigger colors@[i]]
            0 <= i < colors@.len() ==> bytes@[4 * i] == colors@[i].alpha && bytes@[4 * i + 1]
                == colors@[i].color.b && bytes@[4 * i + 2] == colors@[i].color.g && bytes@[4 * i
                + 3] == colors@[i].color.r,
{
    let mut bytes: Vec<u8> = Vec::new();
    let mut idx: usize = 0;
    while idx < colors.len()
        invariant
            idx <= colors@.len(),
            bytes@.len() == 4 * idx,
            forall|i: int|
                #![trigger colors@[i]]
                0 <= i < idx ==> bytes@[4 * i] == colors@[i].alpha && bytes@[4 * i + 1]
                    == colors@[i].color.b && bytes@[4 * i + 2] == colors@[i].color.g && bytes@[4
                    * i + 3] == colors@[i].color.r,
        decreases colors@.len() - idx,
    {
        let c = colors[idx];
        bytes.push(c.alpha);
        bytes.push(c.color.b);
        bytes.push(c.color.g);
        bytes.push(c.color.r);
        idx = idx + 1;
    }
    bytes
}

} // verus!
