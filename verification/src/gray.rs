//! Grayscale color types.
//!
//! [`Gray`] holds a single brightness component; [`GrayAlpha`] pairs it with
//! a trailing alpha component by reusing the [`AlphaLast`] composite layout.

use vstd::prelude::*;
use crate::alpha::{AlphaLast, HasAlpha};
use crate::scalar::Intensity;

verus! {

/// A trait for types that have a gray (brightness) component.
pub trait HasGray: Sized {
    /// The type of the gray component.
    type Component: Copy;

    /// The value of the gray component.
    spec fn spec_gray(&self) -> Self::Component;

    /// The whole color after the gray component is replaced by `value`;
    /// every other component is unchanged.
    spec fn spec_with_gray(&self, value: Self::Component) -> Self;

    /// The color that `new_gray` builds: the gray component is `value` and
    /// every other component holds its default.
    spec fn spec_new_gray(value: Self::Component) -> Self;

    /// Creates a new color with the given gray component.
    ///
    /// The other components are set to their default values.
    fn new_gray(value: Self::Component) -> (r: Self)
        ensures
            r == Self::spec_new_gray(value),
    ;

    /// Returns the value of the gray component.
    fn gray(&self) -> (r: Self::Component)
        ensures
            r == self.spec_gray(),
    ;

    /// Sets the gray component to the given value.
    ///
    /// If the color has other components, they are left unchanged.
    fn set_gray(&mut self, value: Self::Component)
        ensures
            *final(self) == old(self).spec_with_gray(value),
    ;

    /// Converts the color into one with the gray component set to the given
    /// value.
    ///
    /// The other components are left unchanged.
    fn with_gray(self, value: Self::Component) -> (r: Self)
        ensures
            r == self.spec_with_gray(value),
    ;
}

/// Grayscale-only color type: a single brightness component.
#[derive(Debug, Default, Clone, Copy, PartialEq, Eq, PartialOrd, Ord)]
pub struct Gray<T> {
    /// The brightness component.
    pub gray: T,
}

impl<T> Gray<T> {
    /// Creates a new instance of `Gray` with the given gray value.
    pub fn new(gray: T) -> (r: Self)
        ensures
            r.gray == gray,
    {
        Self { gray }
    }
}

impl<T: Copy> Gray<T> {
    /// Returns the gray value of this color.
    pub fn gray(&self) -> (r: T)
        ensures
            r == self.gray,
    {
        self.gray
    }
}

impl<T: Copy> HasGray for Gray<T> {
    type Component = T;

    open spec fn spec_gray(&self) -> T {
        self.gray
    }

    open spec fn spec_with_gray(&self, value: T) -> Self {
        Gray { gray: value }
    }

    open spec fn spec_new_gray(value: T) -> Self {
        Gray { gray: value }
    }

    fn new_gray(value: T) -> Self {
        Gray { gray: value }
    }

    fn gray(&self) -> T {
        self.gray
    }

    fn set_gray(&mut self, value: T) {
        self.gray = value;
    }

    fn with_gray(self, value: T) -> Self {
        Gray { gray: value }
    }
}

/// 8-bit grayscale-only color type.
pub type Gray8 = Gray<u8>;

/// 16-bit grayscale-only color type.
pub type Gray16 = Gray<u16>;

/// Combined grayscale and alpha color type: the gray component first, the
/// alpha component after it.
pub type GrayAlpha<T> = AlphaLast<T, Gray<T>>;

impl<T: Intensity> HasGray for AlphaLast<T, Gray<T>> {
    type Component = T;

    open spec fn spec_gray(&self) -> T {
        self.color.gray
    }

    open spec fn spec_with_gray(&self, value: T) -> Self {
        AlphaLast { color: Gray { gray: value }, alpha: self.alpha }
    }

    open spec fn spec_new_gray(value: T) -> Self {
        AlphaLast { color: Gray { gray: value }, alpha: T::spec_max() }
    }

    fn new_gray(value: T) -> Self {
        AlphaLast { color: Gray { gray: value }, alpha: T::max_value() }
    }

    fn gray(&self) -> T {
        self.color.gray
    }

    fn set_gray(&mut self, value: T) {
        self.color.gray = value;
    }

    fn with_gray(self, value: T) -> Self {
        AlphaLast { color: Gray { gray: value }, alpha: self.alpha }
    }
}

/// Writing the gray component of a grayscale-alpha color keeps its alpha
/// component, and writing the alpha component keeps its gray component.
pub proof fn lemma_gray_alpha_framing<T: Intensity>(c: GrayAlpha<T>, gray: T, alpha: T)
    ensures
        c.spec_with_gray(gray).spec_alpha() == c.spec_alpha(),
        c.spec_with_gray(gray).spec_gray() == gray,
        c.spec_with_alpha(alpha).spec_gray() == c.spec_gray(),
        c.spec_with_alpha(alpha).spec_alpha() == alpha,
{
}

/// A grayscale-alpha color built by the single-channel gray constructor is
/// fully opaque: its alpha component is the maximum of the domain, not the
/// zero default, so a fresh gray color is visible.
pub proof fn lemma_gray_alpha_new_gray_opaque<T: Intensity>(gray: T)
    ensures
        GrayAlpha::<T>::spec_new_gray(gray).spec_alpha() == T::spec_max(),
        GrayAlpha::<T>::spec_new_gray(gray).spec_gray() == gray,
{
}

impl<T: Intensity> AlphaLast<T, Gray<T>> {
    /// Creates a new grayscale color with alpha from the alpha component
    /// alone; the gray component is set to its default.
    pub fn new_alpha(alpha: T) -> (r: Self)
        ensures
            r.alpha == alpha,
            r.color.gray == T::spec_min(),
    {
        AlphaLast { color: Gray { gray: T::min_value() }, alpha }
    }
}

/// 8-bit grayscale color with an 8-bit alpha component.
pub type GrayAlpha8 = GrayAlpha<u8>;

impl AlphaLast<u8, Gray<u8>> {
    /// Creates a new 8-bit grayscale color with alpha.
    pub fn new(gray: u8, alpha: u8) -> (r: Self)
        ensures
            r.color.gray == gray,
            r.alpha == alpha,
    {
        AlphaLast::with_color(alpha, Gray::new(gray))
    }

    /// The in-memory bytes of this color: the gray byte, then the alpha
    /// byte.
    pub fn to_bytes(&self) -> (r: Vec<u8>)
        ensures
            r@ == seq![self.color.gray, self.alpha],
    {
        let mut bytes: Vec<u8> = Vec::new();
        bytes.push(self.color.gray);
        bytes.push(self.alpha);
        proof {
            assert(bytes@ =~= seq![self.color.gray, self.alpha]);
        }
        bytes
    }
}

/// 16-bit grayscale color with a 16-bit alpha component.
pub type GrayAlpha16 = GrayAlpha<u16>;

impl AlphaLast<u16, Gray<u16>> {
    /// Creates a new 16-bit grayscale color with alpha.
    pub fn new(gray: u16, alpha: u16) -> (r: Self)
        ensures
            r.color.gray == gray,
            r.alpha == alpha,
    {
        AlphaLast::with_color(alpha, Gray::new(gray))
    }
}

} // verus!
