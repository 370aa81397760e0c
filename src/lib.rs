//! Bitmap glyph lookup for embedded text rendering.
//!
//! A grapheme cluster resolves, per typeface, to the offset of a packed glyph
//! record in that typeface's data table; the record's header and pixel words
//! are decoded by the functions of [`glyph`].
pub mod glyph;
pub mod hash;
pub mod index;
pub mod font;
pub mod regular;
pub mod small;
pub mod emoji;
pub mod bold;
pub mod pua;

pub use glyph::{pixel_at, GlyphHeader};
pub use hash::{hash, murmur3};
pub use font::{bold_data, emoji_data, regular_data, small_data, Font, GlyphNotFound, GlyphSet};
