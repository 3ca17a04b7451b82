//! Color value types and conversions.
//!
//! The crate models pixel encodings as plain value types:
//!
//! - [`scalar`] defines the supported intensity domains (8-bit and 16-bit
//!   unsigned samples) and the rounded rescaling between them.
//! - [`codec`] is the packed bit-field codec: reading and writing named
//!   sub-fields of a packed word through `(shift, mask, clear)` descriptors.
//! - [`alpha`], [`gray`] and [`rgb`] build the concrete color types on top of
//!   those two engines: single-channel values, packed 16-bit formats, and
//!   composite layouts that place an alpha component before or after a color
//!   payload.
//!
//! Every operation is a pure transformation of self-contained values; each
//! public function states exactly what it returns.

pub mod alpha;
pub mod codec;
pub mod gray;
pub mod prelude;
pub mod rgb;
pub mod scalar;
