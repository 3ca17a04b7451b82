//! Common types and traits for introductory use.
//!
//! Importing this module brings the component-access traits and the most
//! common pixel types into scope in one line.

pub use crate::alpha::{Alpha8, HasAlpha};
pub use crate::gray::{Gray8, GrayAlpha8, HasGray};
pub use crate::rgb::{Abgr8888, HasBlue, HasGreen, HasRed, Rgb565, Rgb888, RgbColor, RgbaColor};
pub use crate::scalar::{Intensity, Scalar};
