//! Color representations with red, green, and blue components.
//!
//! [`Rgb`] and [`Bgr`] store one component per field in the named order.
//! The packed formats in [`formats`] store all components in a single
//! 16-bit or 32-bit word.  Combined with the composite layouts of
//! [`crate::alpha`], they give the common ARGB and ABGR pixel types.

use vstd::prelude::*;
use crate::alpha::{AlphaFirst, AlphaLast, HasAlpha};
use crate::scalar::Intensity;

mod formats;

pub use formats::{
    Abgr8888, Argb1555, Argb4444, Argb8888, Bgr888, Rgb565, Rgb888, abgr8888_buffer_bytes, lemma_argb1555_field_isolation, lemma_argb4444_field_isolation,
    lemma_rgb565_field_isolation, ARGB1555_ALPHA_CLEAR, ARGB1555_ALPHA_MASK, ARGB1555_ALPHA_SHIFT,
    ARGB1555_BLUE_CLEAR, ARGB1555_BLUE_MASK, ARGB1555_BLUE_SHIFT, ARGB1555_GREEN_CLEAR,
    ARGB1555_GREEN_MASK, ARGB1555_GREEN_SHIFT, ARGB1555_RED_CLEAR, ARGB1555_RED_MASK,
    ARGB1555_RED_SHIFT, ARGB4444_ALPHA_CLEAR, ARGB4444_ALPHA_MASK, ARGB4444_ALPHA_SHIFT,
    ARGB4444_BLUE_CLEAR, ARGB4444_BLUE_MASK, ARGB4444_BLUE_SHIFT, ARGB4444_GREEN_CLEAR,
    ARGB4444_GREEN_MASK, ARGB4444_GREEN_SHIFT, ARGB4444_RED_CLEAR, ARGB4444_RED_MASK,
    ARGB4444_RED_SHIFT, RGB565_BLUE_CLEAR, RGB565_BLUE_MASK, RGB565_BLUE_SHIFT,
    RGB565_GREEN_CLEAR, RGB565_GREEN_MASK, RGB565_GREEN_SHIFT, RGB565_RED_CLEAR, RGB565_RED_MASK,
    RGB565_RED_SHIFT,
};

verus! {

/// A trait for types that have a red component.
pub trait HasRed: Sized {
    /// The type of the red component.
    type Component: Copy;

    /// The value of the red component.
    spec fn spec_red(&self) -> Self::Component;

    /// The whole color after the red component is replaced by `value`;
    /// every other component is unchanged.
    spec fn spec_with_red(&self, value: Self::Component) -> Self;

    /// The color that `new_red` builds from the red component alone.
    spec fn spec_new_red(value: Self::Component) -> Self;

    /// Creates a new color from the red component alone.
    fn new_red(value: Self::Component) -> (r: Self)
        ensures
            r == Self::spec_new_red(value),
    ;

    /// Returns the value of the red component.
    fn red(&self) -> (r: Self::Component)
        ensures
            r == self.spec_red(),
    ;

    /// Sets the red component to the given value.
    ///
    /// If the color has other components, they are left unchanged.
    fn set_red(&mut self, value: Self::Component)
        ensures
            *final(self) == old(self).spec_with_red(value),
    ;

    /// Converts the color into one with the red component set to the given
    /// value.
    ///
    /// The other components are left unchanged.
    fn with_red(self, value: Self::Component) -> (r: Self)
        ensures
            r == self.spec_with_red(value),
    ;
}

/// A trait for types that have a green component.
pub trait HasGreen: Sized {
    /// The type of the green component.
    type Component: Copy;

    /// The value of the green component.
    spec fn spec_green(&self) -> Self::Component;

    /// The whole color after the green component is replaced by `value`;
    /// every other component is unchanged.
    spec fn spec_with_green(&self, value: Self::Component) -> Self;

    /// The color that `new_green` builds from the green component alone.
    spec fn spec_new_green(value: Self::Component) -> Self;

    /// Creates a new color from the green component alone.
    fn new_green(value: Self::Component) -> (r: Self)
        ensures
            r == Self::spec_new_green(value),
    ;

    /// Returns the value of the green component.
    fn green(&self) -> (r: Self::Component)
        ensures
            r == self.spec_green(),
    ;

    /// Sets the green component to the given value.
    ///
    /// If the color has other components, they are left unchanged.
    fn set_green(&mut self, value: Self::Component)
        ensures
            *final(self) == old(self).spec_with_green(value),
    ;

    /// Converts the color into one with the green component set to the
    /// given value.
    ///
    /// The other components are left unchanged.
    fn with_green(self, value: Self::Component) -> (r: Self)
        ensures
            r == self.spec_with_green(value),
    ;
}

/// A trait for types that have a blue component.
pub trait HasBlue: Sized {
    /// The type of the blue component.
    type Component: Copy;

    /// The value of the blue component.
    spec fn spec_blue(&self) -> Self::Component;

    /// The whole color after the blue component is replaced by `value`;
    /// every other component is unchanged.
    spec fn spec_with_blue(&self, value: Self::Component) -> Self;

    /// The color that `new_blue` builds from the blue component alone.
    spec fn spec_new_blue(value: Self::Component) -> Self;

    /// Creates a new color from the blue component alone.
    fn new_blue(value: Self::Component) -> (r: Self)
        ensures
            r == Self::spec_new_blue(value),
    ;

    /// Returns the value of the blue component.
    fn blue(&self) -> (r: Self::Component)
        ensures
            r == self.spec_blue(),
    ;

    /// Sets the blue component to the given value.
    ///
    /// If the color has other components, they are left unchanged.
    fn set_blue(&mut self, value: Self::Component)
        ensures
            *final(self) == old(self).spec_with_blue(value),
    ;

    /// Converts the color into one with the blue component set to the given
    /// value.
    ///
    /// The other components are left unchanged.
    fn with_blue(self, value: Self::Component) -> (r: Self)
        ensures
            r == self.spec_with_blue(value),
    ;
}

/// A trait for types that have red, green, and blue components.
pub trait RgbColor: HasRed + HasGreen + HasBlue {
    /// The color that `from_rgb` builds; components other than red, green,
    /// and blue hold their default values.
    spec fn spec_from_rgb(
        red: <Self as HasRed>::Component,
        green: <Self as HasGreen>::Component,
        blue: <Self as HasBlue>::Component,
    ) -> Self;

    /// Creates a new color with the given red, green, and blue components.
    fn from_rgb(
        red: <Self as HasRed>::Component,
        green: <Self as HasGreen>::Component,
        blue: <Self as HasBlue>::Component,
    ) -> (c: Self)
        ensures
            c == Self::spec_from_rgb(red, green, blue),
    ;

    /// Returns the red, green, and blue components of the color as a tuple.
    fn into_rgb(self) -> (r: (
        <Self as HasRed>::Component,
        <Self as HasGreen>::Component,
        <Self as HasBlue>::Component,
    ))
        ensures
            r.0 == self.spec_red(),
            r.1 == self.spec_green(),
            r.2 == self.spec_blue(),
    {
        let red = self.red();
        let green = self.green();
        let blue = self.blue();
        (red, green, blue)
    }
}

/// A trait for types that have red, green, blue, and alpha components.
pub trait RgbaColor: HasRed + HasGreen + HasBlue + HasAlpha {
    /// The color that `from_rgba` builds.
    spec fn spec_from_rgba(
        red: <Self as HasRed>::Component,
        green: <Self as HasGreen>::Component,
        blue: <Self as HasBlue>::Component,
        alpha: <Self as HasAlpha>::Component,
    ) -> Self;

    /// Creates a new color with the given red, green, blue, and alpha
    /// components.
    fn from_rgba(
        red: <Self as HasRed>::Component,
        green: <Self as HasGreen>::Component,
        blue: <Self as HasBlue>::Component,
        alpha: <Self as HasAlpha>::Component,
    ) -> (c: Self)
        ensures
            c == Self::spec_from_rgba(red, green, blue, alpha),
    ;

    /// Returns the red, green, blue, and alpha components of the color as a
    /// tuple.
    fn into_rgba(self) -> (r: (
        <Self as HasRed>::Component,
        <Self as HasGreen>::Component,
        <Self as HasBlue>::Component,
        <Self as HasAlpha>::Component,
    ))
        ensures
            r.0 == self.spec_red(),
            r.1 == self.spec_green(),
            r.2 == self.spec_blue(),
            r.3 == self.spec_alpha(),
    {
        let red = self.red();
        let green = self.green();
        let blue = self.blue();
        let alpha = self.alpha();
        (red, green, blue, alpha)
    }
}

/// A color with red, green, and blue components stored in that order.
#[derive(Debug, Default, Clone, Copy, PartialEq, Eq, PartialOrd, Ord)]
pub struct Rgb<T> {
    /// The red component.
    pub r: T,
    /// The green component.
    pub g: T,
    /// The blue component.
    pub b: T,
}

impl<T> Rgb<T> {
    /// Creates a new RGB color with the given red, green, and blue
    /// components.
    pub fn from_rgb(red: T, green: T, blue: T) -> (c: Self)
        ensures
            c.r == red,
            c.g == green,
            c.b == blue,
    {
        Self { r: red, g: green, b: blue }
    }
}

/// A color with blue, green, and red components stored in that order.
#[derive(Debug, Default, Clone, Copy, PartialEq, Eq, PartialOrd, Ord)]
pub struct Bgr<T> {
    /// The blue component.
    pub b: T,
    /// The green component.
    pub g: T,
    /// The red component.
    pub r: T,
}

impl<T> Bgr<T> {
    /// Creates a new BGR color with the individual component values
    /// (b, g, r).
    pub fn from_bgr(blue: T, green: T, red: T) -> (c: Self)
        ensures
            c.b == blue,
            c.g == green,
            c.r == red,
    {
        Self { b: blue, g: green, r: red }
    }
}

impl<T: Intensity> HasRed for Rgb<T> {
    type Component = T;

    open spec fn spec_red(&self) -> T {
        self.r
    }

    open spec fn spec_with_red(&self, value: T) -> Self {
        Rgb { r: value, g: self.g, b: self.b }
    }

    open spec fn spec_new_red(value: T) -> Self {
        Rgb { r: value, g: T::spec_min(), b: T::spec_min() }
    }

    fn new_red(value: T) -> Self {
        Rgb { r: value, g: T::min_value(), b: T::min_value() }
    }

    fn red(&self) -> T {
        self.r
    }

    fn set_red(&mut self, value: T) {
        self.r = value;
    }

    fn with_red(self, value: T) -> Self {
        Rgb { r: value, g: self.g, b: self.b }
    }
}

impl<T: Intensity> HasGreen for Rgb<T> {
    type Component = T;

    open spec fn spec_green(&self) -> T {
        self.g
    }

    open spec fn spec_with_green(&self, value: T) -> Self {
        Rgb { r: self.r, g: value, b: self.b }
    }

    open spec fn spec_new_green(value: T) -> Self {
        Rgb { r: T::spec_min(), g: value, b: T::spec_min() }
    }

    fn new_green(value: T) -> Self {
        Rgb { r: T::min_value(), g: value, b: T::min_value() }
    }

    fn green(&self) -> T {
        self.g
    }

    fn set_green(&mut self, value: T) {
        self.g = value;
    }

    fn with_green(self, value: T) -> Self {
        Rgb { r: self.r, g: value, b: self.b }
    }
}

impl<T: Intensity> HasBlue for Rgb<T> {
    type Component = T;

    open spec fn spec_blue(&self) -> T {
        self.b
    }

    open spec fn spec_with_blue(&self, value: T) -> Self {
        Rgb { r: self.r, g: self.g, b: value }
    }

    open spec fn spec_new_blue(value: T) -> Self {
        Rgb { r: T::spec_min(), g: T::spec_min(), b: value }
    }

    fn new_blue(value: T) -> Self {
        Rgb { r: T::min_value(), g: T::min_value(), b: value }
    }

    fn blue(&self) -> T {
        self.b
    }

    fn set_blue(&mut self, value: T) {
        self.b = value;
    }

    fn with_blue(self, value: T) -> Self {
        Rgb { r: self.r, g: self.g, b: value }
    }
}

impl<T: Intensity> RgbColor for Rgb<T> {
    open spec fn spec_from_rgb(red: T, green: T, blue: T) -> Self {
        Rgb { r: red, g: green, b: blue }
    }

    fn from_rgb(red: T, green: T, blue: T) -> Self {
        Rgb { r: red, g: green, b: blue }
    }
}

impl<T: Intensity> HasRed for Bgr<T> {
    type Component = T;

    open spec fn spec_red(&self) -> T {
        self.r
    }

    open spec fn spec_with_red(&self, value: T) -> Self {
        Bgr { b: self.b, g: self.g, r: value }
    }

    open spec fn spec_new_red(value: T) -> Self {
        Bgr { b: T::spec_min(), g: T::spec_min(), r: value }
    }

    fn new_red(value: T) -> Self {
        Bgr { b: T::min_value(), g: T::min_value(), r: value }
    }

    fn red(&self) -> T {
        self.r
    }

    fn set_red(&mut self, value: T) {
        self.r = value;
    }

    fn with_red(self, value: T) -> Self {
        Bgr { b: self.b, g: self.g, r: value }
    }
}

impl<T: Intensity> HasGreen for Bgr<T> {
    type Component = T;

    open spec fn spec_green(&self) -> T {
        self.g
    }

    open spec fn spec_with_green(&self, value: T) -> Self {
        Bgr { b: self.b, g: value, r: self.r }
    }

    open spec fn spec_new_green(value: T) -> Self {
        Bgr { b: T::spec_min(), g: value, r: T::spec_min() }
    }

    fn new_green(value: T) -> Self {
        Bgr { b: T::min_value(), g: value, r: T::min_value() }
    }

    fn green(&self) -> T {
        self.g
    }

    fn set_green(&mut self, value: T) {
        self.g = value;
    }

    fn with_green(self, value: T) -> Self {
        Bgr { b: self.b, g: value, r: self.r }
    }
}

impl<T: Intensity> HasBlue for Bgr<T> {
    type Component = T;

    open spec fn spec_blue(&self) -> T {
        self.b
    }

    open spec fn spec_with_blue(&self, value: T) -> Self {
        Bgr { b: value, g: self.g, r: self.r }
    }

    open spec fn spec_new_blue(value: T) -> Self {
        Bgr { b: value, g: T::spec_min(), r: T::spec_min() }
    }

    fn new_blue(value: T) -> Self {
        Bgr { b: value, g: T::min_value(), r: T::min_value() }
    }

    fn blue(&self) -> T {
        self.b
    }

    fn set_blue(&mut self, value: T) {
        self.b = value;
    }

    fn with_blue(self, value: T) -> Self {
        Bgr { b: value, g: self.g, r: self.r }
    }
}

impl<T: Intensity> RgbColor for Bgr<T> {
    open spec fn spec_from_rgb(red: T, green: T, blue: T) -> Self {
        Bgr { b: blue, g: green, r: red }
    }

    fn from_rgb(red: T, green: T, blue: T) -> Self {
        Bgr { b: blue, g: green, r: red }
    }
}

impl<A: Intensity, C: HasRed + Copy> HasRed for AlphaFirst<A, C> {
    type Component = <C as HasRed>::Component;

    open spec fn spec_red(&self) -> <C as HasRed>::Component {
        self.color.spec_red()
    }

    open spec fn spec_with_red(&self, value: <C as HasRed>::Component) -> Self {
        AlphaFirst { alpha: self.alpha, color: self.color.spec_with_red(value) }
    }

    open spec fn spec_new_red(value: <C as HasRed>::Component) -> Self {
        AlphaFirst { alpha: A::spec_max(), color: C::spec_new_red(value) }
    }

    fn new_red(value: <C as HasRed>::Component) -> Self {
        AlphaFirst { alpha: A::max_value(), color: C::new_red(value) }
    }

    fn red(&self) -> <C as HasRed>::Component {
        self.color.red()
    }

    fn set_red(&mut self, value: <C as HasRed>::Component) {
        self.color.set_red(value);
    }

    fn with_red(self, value: <C as HasRed>::Component) -> Self {
        AlphaFirst { alpha: self.alpha, color: self.color.with_red(value) }
    }
}

impl<A: Intensity, C: HasGreen + Copy> HasGreen for AlphaFirst<A, C> {
    type Component = <C as HasGreen>::Component;

    open spec fn spec_green(&self) -> <C as HasGreen>::Component {
        self.color.spec_green()
    }

    open spec fn spec_with_green(&self, value: <C as HasGreen>::Component) -> Self {
        AlphaFirst { alpha: self.alpha, color: self.color.spec_with_green(value) }
    }

    open spec fn spec_new_green(value: <C as HasGreen>::Component) -> Self {
        AlphaFirst { alpha: A::spec_max(), color: C::spec_new_green(value) }
    }

    fn new_green(value: <C as HasGreen>::Component) -> Self {
        AlphaFirst { alpha: A::max_value(), color: C::new_green(value) }
    }

    fn green(&self) -> <C as HasGreen>::Component {
        self.color.green()
    }

    fn set_green(&mut self, value: <C as HasGreen>::Component) {
        self.color.set_green(value);
    }

    fn with_green(self, value: <C as HasGreen>::Component) -> Self {
        AlphaFirst { alpha: self.alpha, color: self.color.with_green(value) }
    }
}

impl<A: Intensity, C: HasBlue + Copy> HasBlue for AlphaFirst<A, C> {
    type Component = <C as HasBlue>::Component;

    open spec fn spec_blue(&self) -> <C as HasBlue>::Component {
        self.color.spec_blue()
    }

    open spec fn spec_with_blue(&self, value: <C as HasBlue>::Component) -> Self {
        AlphaFirst { alpha: self.alpha, color: self.color.spec_with_blue(value) }
    }

    open spec fn spec_new_blue(value: <C as HasBlue>::Component) -> Self {
        AlphaFirst { alpha: A::spec_max(), color: C::spec_new_blue(value) }
    }

    fn new_blue(value: <C as HasBlue>::Component) -> Self {
        AlphaFirst { alpha: A::max_value(), color: C::new_blue(value) }
    }

    fn blue(&self) -> <C as HasBlue>::Component {
        self.color.blue()
    }

    fn set_blue(&mut self, value: <C as HasBlue>::Component) {
        self.color.set_blue(value);
    }

    fn with_blue(self, value: <C as HasBlue>::Component) -> Self {
        AlphaFirst { alpha: self.alpha, color: self.color.with_blue(value) }
    }
}

impl<A: Intensity, C: RgbColor + Copy> RgbColor for AlphaFirst<A, C> {
    open spec fn spec_from_rgb(
        red: <C as HasRed>::Component,
        green: <C as HasGreen>::Component,
        blue: <C as HasBlue>::Component,
    ) -> Self {
        AlphaFirst { alpha: A::spec_min(), color: C::spec_from_rgb(red, green, blue) }
    }

    fn from_rgb(
        red: <C as HasRed>::Component,
        green: <C as HasGreen>::Component,
        blue: <C as HasBlue>::Component,
    ) -> Self {
        AlphaFirst { alpha: A::min_value(), color: C::from_rgb(red, green, blue) }
    }
}

impl<A: Intensity, C: RgbColor + Copy> RgbaColor for AlphaFirst<A, C> {
    open spec fn spec_from_rgba(
        red: <C as HasRed>::Component,
        green: <C as HasGreen>::Component,
        blue: <C as HasBlue>::Component,
        alpha: A,
    ) -> Self {
        AlphaFirst { alpha, color: C::spec_from_rgb(red, green, blue) }
    }

    fn from_rgba(
        red: <C as HasRed>::Component,
        green: <C as HasGreen>::Component,
        blue: <C as HasBlue>::Component,
        alpha: A,
    ) -> Self {
        AlphaFirst { alpha, color: C::from_rgb(red, green, blue) }
    }
}

impl<A: Intensity, C: HasRed + Copy> HasRed for AlphaLast<A, C> {
    type Component = <C as HasRed>::Component;

    open spec fn spec_red(&self) -> <C as HasRed>::Component {
        self.color.spec_red()
    }

    open spec fn spec_with_red(&self, value: <C as HasRed>::Component) -> Self {
        AlphaLast { color: self.color.spec_with_red(value), alpha: self.alpha }
    }

    open spec fn spec_new_red(value: <C as HasRed>::Component) -> Self {
        AlphaLast { color: C::spec_new_red(value), alpha: A::spec_max() }
    }

    fn new_red(value: <C as HasRed>::Component) -> Self {
        AlphaLast { color: C::new_red(value), alpha: A::max_value() }
    }

    fn red(&self) -> <C as HasRed>::Component {
        self.color.red()
    }

    fn set_red(&mut self, value: <C as HasRed>::Component) {
        self.color.set_red(value);
    }

    fn with_red(self, value: <C as HasRed>::Component) -> Self {
        AlphaLast { color: self.color.with_red(value), alpha: self.alpha }
    }
}

impl<A: Intensity, C: HasGreen + Copy> HasGreen for AlphaLast<A, C> {
    type Component = <C as HasGreen>::Component;

    open spec fn spec_green(&self) -> <C as HasGreen>::Component {
        self.color.spec_green()
    }

    open spec fn spec_with_green(&self, value: <C as HasGreen>::Component) -> Self {
        AlphaLast { color: self.color.spec_with_green(value), alpha: self.alpha }
    }

    open spec fn spec_new_green(value: <C as HasGreen>::Component) -> Self {
        AlphaLast { color: C::spec_new_green(value), alpha: A::spec_max() }
    }

    fn new_green(value: <C as HasGreen>::Component) -> Self {
        AlphaLast { color: C::new_green(value), alpha: A::max_value() }
    }

    fn green(&self) -> <C as HasGreen>::Component {
        self.color.green()
    }

    fn set_green(&mut self, value: <C as HasGreen>::Component) {
        self.color.set_green(value);
    }

    fn with_green(self, value: <C as HasGreen>::Component) -> Self {
        AlphaLast { color: self.color.with_green(value), alpha: self.alpha }
    }
}

impl<A: Intensity, C: HasBlue + Copy> HasBlue for AlphaLast<A, C> {
    type Component = <C as HasBlue>::Component;

    open spec fn spec_blue(&self) -> <C as HasBlue>::Component {
        self.color.spec_blue()
    }

    open spec fn spec_with_blue(&self, value: <C as HasBlue>::Component) -> Self {
        AlphaLast { color: self.color.spec_with_blue(value), alpha: self.alpha }
    }

    open spec fn spec_new_blue(value: <C as HasBlue>::Component) -> Self {
        AlphaLast { color: C::spec_new_blue(value), alpha: A::spec_max() }
    }

    fn new_blue(value: <C as HasBlue>::Component) -> Self {
        AlphaLast { color: C::new_blue(value), alpha: A::max_value() }
    }

    fn blue(&self) -> <C as HasBlue>::Component {
        self.color.blue()
    }

    fn set_blue(&mut self, value: <C as HasBlue>::Component) {
        self.color.set_blue(value);
    }

    fn with_blue(self, value: <C as HasBlue>::Component) -> Self {
        AlphaLast { color: self.color.with_blue(value), alpha: self.alpha }
    }
}

impl<A: Intensity, C: RgbColor + Copy> RgbColor for AlphaLast<A, C> {
    open spec fn spec_from_rgb(
        red: <C as HasRed>::Component,
        green: <C as HasGreen>::Component,
        blue: <C as HasBlue>::Component,
    ) -> Self {
        AlphaLast { color: C::spec_from_rgb(red, green, blue), alpha: A::spec_min() }
    }

    fn from_rgb(
        red: <C as HasRed>::Component,
        green: <C as HasGreen>::Component,
        blue: <C as HasBlue>::Component,
    ) -> Self {
        AlphaLast { color: C::from_rgb(red, green, blue), alpha: A::min_value() }
    }
}

impl<A: Intensity, C: RgbColor + Copy> RgbaColor for AlphaLast<A, C> {
    open spec fn spec_from_rgba(
        red: <C as HasRed>::Component,
        green: <C as HasGreen>::Component,
        blue: <C as HasBlue>::Component,
        alpha: A,
    ) -> Self {
        AlphaLast { color: C::spec_from_rgb(red, green, blue), alpha }
    }

    fn from_rgba(
        red: <C as HasRed>::Component,
        green: <C as HasGreen>::Component,
        blue: <C as HasBlue>::Component,
        alpha: A,
    ) -> Self {
        AlphaLast { color: C::from_rgb(red, green, blue), alpha }
    }
}

/// Replacing one channel of an alpha-first composite rewrites only the
/// payload and keeps the alpha component; replacing the alpha component
/// keeps the payload.
pub proof fn lemma_alpha_first_framing<A: Intensity, C: HasRed + HasGreen + HasBlue + Copy>(
    c: AlphaFirst<A, C>,
    red: <C as HasRed>::Component,
    green: <C as HasGreen>::Component,
    blue: <C as HasBlue>::Component,
    alpha: A,
)
    ensures
        c.spec_with_red(red).spec_alpha() == c.spec_alpha(),
        c.spec_with_red(red).color == c.color.spec_with_red(red),
        c.spec_with_green(green).spec_alpha() == c.spec_alpha(),
        c.spec_with_green(green).color == c.color.spec_with_green(green),
        c.spec_with_blue(blue).spec_alpha() == c.spec_alpha(),
        c.spec_with_blue(blue).color == c.color.spec_with_blue(blue),
        c.spec_with_alpha(alpha).color == c.color,
        c.spec_with_alpha(alpha).spec_alpha() == alpha,
{
}

/// Replacing one channel of an alpha-last composite rewrites only the
/// payload and keeps the alpha component; replacing the alpha component
/// keeps the payload.
pub proof fn lemma_alpha_last_framing<A: Intensity, C: HasRed + HasGreen + HasBlue + Copy>(
    c: AlphaLast<A, C>,
    red: <C as HasRed>::Component,
    green: <C as HasGreen>::Component,
    blue: <C as HasBlue>::Component,
    alpha: A,
)
    ensures
        c.spec_with_red(red).spec_alpha() == c.spec_alpha(),
        c.spec_with_red(red).color == c.color.spec_with_red(red),
        c.spec_with_green(green).spec_alpha() == c.spec_alpha(),
        c.spec_with_green(green).color == c.color.spec_with_green(green),
        c.spec_with_blue(blue).spec_alpha() == c.spec_alpha(),
        c.spec_with_blue(blue).color == c.color.spec_with_blue(blue),
        c.spec_with_alpha(alpha).color == c.color,
        c.spec_with_alpha(alpha).spec_alpha() == alpha,
{
}

/// A composite built by a single-channel constructor is fully opaque: its
/// alpha component is the maximum of the alpha domain, not the zero
/// default, so a fresh single-channel color is visible.
pub proof fn lemma_alpha_first_new_channel_opaque<
    A: Intensity,
    C: HasRed + HasGreen + HasBlue + Copy,
>(
    red: <C as HasRed>::Component,
    green: <C as HasGreen>::Component,
    blue: <C as HasBlue>::Component,
)
    ensures
        <AlphaFirst<A, C> as HasRed>::spec_new_red(red).spec_alpha() == A::spec_max(),
        <AlphaFirst<A, C> as HasGreen>::spec_new_green(green).spec_alpha() == A::spec_max(),
        <AlphaFirst<A, C> as HasBlue>::spec_new_blue(blue).spec_alpha() == A::spec_max(),
        <AlphaFirst<A, C> as HasRed>::spec_new_red(red).color == C::spec_new_red(red),
        <AlphaFirst<A, C> as HasGreen>::spec_new_green(green).color == C::spec_new_green(green),
        <AlphaFirst<A, C> as HasBlue>::spec_new_blue(blue).color == C::spec_new_blue(blue),
{
}

/// The alpha-last counterpart of
/// [`lemma_alpha_first_new_channel_opaque`]: single-channel constructors
/// leave the composite fully opaque.
pub proof fn lemma_alpha_last_new_channel_opaque<
    A: Intensity,
    C: HasRed + HasGreen + HasBlue + Copy,
>(
    red: <C as HasRed>::Component,
    green: <C as HasGreen>::Component,
    blue: <C as HasBlue>::Component,
)
    ensures
        <AlphaLast<A, C> as HasRed>::spec_new_red(red).spec_alpha() == A::spec_max(),
        <AlphaLast<A, C> as HasGreen>::spec_new_green(green).spec_alpha() == A::spec_max(),
        <AlphaLast<A, C> as HasBlue>::spec_new_blue(blue).spec_alpha() == A::spec_max(),
        <AlphaLast<A, C> as HasRed>::spec_new_red(red).color == C::spec_new_red(red),
        <AlphaLast<A, C> as HasGreen>::spec_new_green(green).color == C::spec_new_green(green),
        <AlphaLast<A, C> as HasBlue>::spec_new_blue(blue).color == C::spec_new_blue(blue),
{
}

} // verus!
