//! CSS colour values: an opaque `RGB` and a translucent `RGBA` record, the
//! conversions between them, and their rendering in CSS functional notation.
//!
//! Every function is verified against a mathematical statement of its result:
//! the rendered text is a sequence of characters built from the decimal
//! numerals of the channels, and the conversions are exact on every field.

pub mod alpha;
pub mod decimal;
pub mod laws;
pub mod rgb;
pub mod rgba;

pub use rgb::{rgb, RGB};
pub use rgba::{rgba, RGBA};
