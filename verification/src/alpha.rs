//! Color types with an alpha (transparency) channel.
//!
//! [`Alpha`] is an alpha-only color.  [`AlphaFirst`] and [`AlphaLast`] are
//! composite layouts: they place an alpha component immediately before or
//! after an opaque color payload, with the field order of the struct being
//! exactly the declared byte order and no transformation of either part.

use vstd::prelude::*;

verus! {

/// A trait for types that have an alpha (transparency) component.
pub trait HasAlpha: Sized {
    /// The type of the alpha component.
    type Component: Copy;

    /// The value of the alpha component.
    spec fn spec_alpha(&self) -> Self::Component;

    /// The whole color after the alpha component is replaced by `value`;
    /// every other component is unchanged.
    spec fn spec_with_alpha(&self, value: Self::Component) -> Self;

    /// Returns the value of the alpha component.
    fn alpha(&self) -> (r: Self::Component)
        ensures
            r == self.spec_alpha(),
    ;

    /// Sets the alpha component to the given value.
    ///
    /// If the color has other components, they are left unchanged.
    fn set_alpha(&mut self, value: Self::Component)
        ensures
            *final(self) == old(self).spec_with_alpha(value),
    ;

    /// Converts the color into one with the alpha component set to the given
    /// value.
    ///
    /// The other components are left unchanged.
    fn with_alpha(self, value: Self::Component) -> (r: Self)
        ensures
            r == self.spec_with_alpha(value),
    ;
}

/// Alpha-only color type: a single transparency component.
#[derive(Debug, Default, Clone, Copy, PartialEq, Eq, PartialOrd, Ord)]
pub struct Alpha<T> {
    /// The transparency component.
    pub alpha: T,
}

impl<T> Alpha<T> {
    /// Creates a new instance of `Alpha` with the given alpha value.
    pub fn new(alpha: T) -> (r: Self)
        ensures
            r.alpha == alpha,
    {
        Self { alpha }
    }

    /// Consumes and returns the alpha value of this color.
    pub fn into_inner(self) -> (r: T)
        ensures
            r == self.alpha,
    {
        self.alpha
    }
}

impl<T: Copy> Alpha<T> {
    /// Returns the alpha value of this color.
    pub fn alpha(&self) -> (r: T)
        ensures
            r == self.alpha,
    {
        self.alpha
    }
}

impl<T: Copy> HasAlpha for Alpha<T> {
    type Component = T;

    open spec fn spec_alpha(&self) -> T {
        self.alpha
    }

    open spec fn spec_with_alpha(&self, value: T) -> Self {
        Alpha { alpha: value }
    }

    fn alpha(&self) -> T {
        self.alpha
    }

    fn set_alpha(&mut self, value: T) {
        self.alpha = value;
    }

    fn with_alpha(self, value: T) -> Self {
        Alpha { alpha: value }
    }
}

/// 8-bit alpha-only color type.
pub type Alpha8 = Alpha<u8>;

impl Alpha<u8> {
    /// The in-memory bytes of this color: its single alpha byte.
    pub fn to_bytes(&self) -> (r: Vec<u8>)
        ensures
            r@ == seq![self.alpha],
    {
        let mut bytes: Vec<u8> = Vec::new();
        bytes.push(self.alpha);
        proof {
            assert(bytes@ =~= seq![self.alpha]);
        }
        bytes
    }
}

/// A contiguous color with alpha first, followed by the color payload.
#[derive(Debug, Default, Clone, Copy, PartialEq, Eq, PartialOrd, Ord)]
pub struct AlphaFirst<A, C> {
    /// The transparency component, stored first.
    pub alpha: A,
    /// The opaque color payload, stored after the alpha component.
    pub color: C,
}

impl<A, C> AlphaFirst<A, C> {
    /// Creates a new instance of `AlphaFirst` with the given alpha and color
    /// components.
    pub fn with_color(alpha: A, color: C) -> (r: Self)
        ensures
            r.alpha == alpha,
            r.color == color,
    {
        Self { alpha, color }
    }

    /// Consumes and returns the alpha and color components of this color.
    pub fn into_inner(self) -> (r: (A, C))
        ensures
            r.0 == self.alpha,
            r.1 == self.color,
    {
        (self.alpha, self.color)
    }
}

impl<A: Copy, C: Copy> AlphaFirst<A, C> {
    /// Returns the alpha component of this color.
    pub fn alpha(&self) -> (r: A)
        ensures
            r == self.alpha,
    {
        self.alpha
    }

    /// Returns the color component of this color.
    pub fn color(&self) -> (r: C)
        ensures
            r == self.color,
    {
        self.color
    }
}

impl<A: Copy, C: Copy> HasAlpha for AlphaFirst<A, C> {
    type Component = A;

    open spec fn spec_alpha(&self) -> A {
        self.alpha
    }

    open spec fn spec_with_alpha(&self, value: A) -> Self {
        AlphaFirst { alpha: value, color: self.color }
    }

    fn alpha(&self) -> A {
        self.alpha
    }

    fn set_alpha(&mut self, value: A) {
        self.alpha = value;
    }

    fn with_alpha(self, value: A) -> Self {
        AlphaFirst { alpha: value, color: self.color }
    }
}

/// A contiguous color with alpha last, preceded by the color payload.
#[derive(Debug, Default, Clone, Copy, PartialEq, Eq, PartialOrd, Ord)]
pub struct AlphaLast<A, C> {
    /// The opaque color payload, stored first.
    pub color: C,
    /// The transparency component, stored after the color payload.
    pub alpha: A,
}

impl<A, C> AlphaLast<A, C> {
    /// Creates a new instance of `AlphaLast` with the given alpha and color
    /// components.
    pub fn with_color(alpha: A, color: C) -> (r: Self)
        ensures
            r.alpha == alpha,
            r.color == color,
    {
        Self { color, alpha }
    }

    /// Consumes and returns the color and alpha components of this color.
    pub fn into_inner(self) -> (r: (C, A))
        ensures
            r.0 == self.color,
            r.1 == self.alpha,
    {
        (self.color, self.alpha)
    }
}

impl<A: Copy, C: Copy> AlphaLast<A, C> {
    /// Returns the alpha component of this color.
    pub fn alpha(&self) -> (r: A)
        ensures
            r == self.alpha,
    {
        self.alpha
    }

    /// Returns the color component of this color.
    pub fn color(&self) -> (r: C)
        ensures
            r == self.color,
    {
        self.color
    }
}

impl<A: Copy, C: Copy> HasAlpha for AlphaLast<A, C> {
    type Component = A;

    open spec fn spec_alpha(&self) -> A {
        self.alpha
    }

    open spec fn spec_with_alpha(&self, value: A) -> Self {
        AlphaLast { color: self.color, alpha: value }
    }

    fn alpha(&self) -> A {
        self.alpha
    }

    fn set_alpha(&mut self, value: A) {
        self.alpha = value;
    }

    fn with_alpha(self, value: A) -> Self {
        AlphaLast { color: self.color, alpha: value }
    }
}

impl AlphaFirst<u8, [u8; 3]> {
    /// The in-memory bytes of this color: the alpha byte, then the three
    /// payload bytes in order.
    pub fn to_bytes(&self) -> (r: Vec<u8>)
        ensures
            r@ == seq![self.alpha, self.color[0], self.color[1], self.color[2]],
    {
        let mut bytes: Vec<u8> = Vec::new();
        bytes.push(self.alpha);
        bytes.push(self.color[0]);
        bytes.push(self.color[1]);
        bytes.push(self.color[2]);
        proof {
            assert(bytes@ =~= seq![self.alpha, self.color[0], self.color[1], self.color[2]]);
        }
        bytes
    }
}

impl AlphaLast<u8, [u8; 3]> {
    /// The in-memory bytes of this color: the three payload bytes in order,
    /// then the alpha byte.
    pub fn to_bytes(&self) -> (r: Vec<u8>)
        ensures
            r@ == seq![self.color[0], self.color[1], self.color[2], self.alpha],
    {
        let mut bytes: Vec<u8> = Vec::new();
        bytes.push(self.color[0]);
        bytes.push(self.color[1]);
        bytes.push(self.color[2]);
        bytes.push(self.alpha);
        proof {
            assert(bytes@ =~= seq![self.color[0], self.color[1], self.color[2], self.alpha]);
        }
        bytes
    }
}

} // verus!
