//! Typeface dispatch: a closed set of glyph sets, each with its cluster index
//! and its packed glyph data.
use vstd::prelude::*;

use crate::{bold, emoji, regular, small};

verus! {

/// Error type for when a font has no glyph to match a grapheme cluster query
#[derive(Clone, Copy, Debug, PartialEq, Eq)]
pub struct GlyphNotFound;

impl GlyphNotFound {
    /// Description of the error for display.
    pub fn message(&self) -> (r: &'static str)
        ensures
            r@ == "Font has no glyph for requested grapheme cluster"@,
    {
        "Font has no glyph for requested grapheme cluster"
    }
}

/// Available typeface glyph sets
#[derive(Clone, Copy, Debug, PartialEq, Eq)]
pub enum GlyphSet {
    Emoji,
    Bold,
    Regular,
    Small,
}

/// The packed glyph data of a glyph set, as one flat table of words.
pub open spec fn glyph_words(gs: GlyphSet) -> Seq<u32> {
    match gs {
        GlyphSet::Emoji => emoji::DATA@,
        GlyphSet::Bold => bold::DATA@,
        GlyphSet::Regular => regular::data_words(),
        GlyphSet::Small => small::DATA@,
    }
}

/// What a grapheme cluster resolves to in a glyph set's cluster index.
pub open spec fn glyph_offset(gs: GlyphSet, cluster: Seq<char>) -> Result<usize, GlyphNotFound> {
    match gs {
        GlyphSet::Regular => regular::cluster_offset(cluster),
        GlyphSet::Small => small::cluster_offset(cluster),
        GlyphSet::Emoji | GlyphSet::Bold => Err(GlyphNotFound),
    }
}

/// Abstraction for working with typeface glyph sets
#[derive(Clone, Copy, Debug, PartialEq, Eq)]
pub struct Font {
    pub glyph_set: GlyphSet,
}

impl Font {
    /// The font for a glyph set.
    pub fn new(gs: GlyphSet) -> (r: Font)
        ensures
            r.glyph_set == gs,
    {
        Font { glyph_set: gs }
    }

    /// The font's packed glyph data.
    pub open spec fn words(self) -> Seq<u32> {
        glyph_words(self.glyph_set)
    }

    /// Offset of the glyph record for a grapheme cluster, or GlyphNotFound.
    pub fn glyph_pattern_offset(&self, cluster: &str) -> (r: Result<usize, GlyphNotFound>)
        ensures
            r == glyph_offset(self.glyph_set, cluster@),
            r matches Ok(offset) ==> offset < self.words().len(),
    {
        match self.glyph_set {
            GlyphSet::Regular => regular::get_blit_pattern_offset(cluster),
            GlyphSet::Small => small::get_blit_pattern_offset(cluster),
            GlyphSet::Emoji | GlyphSet::Bold => Err(GlyphNotFound),
        }
    }

    /// Word `index` of the font's packed glyph data.
    pub fn glyph_data(&self, index: usize) -> (r: u32)
        requires
            index < self.words().len(),
        ensures
            r == self.words()[index as int],
    {
        match self.glyph_set {
            GlyphSet::Emoji => emoji_data(index),
            GlyphSet::Bold => bold_data(index),
            GlyphSet::Regular => regular_data(index),
            GlyphSet::Small => small_data(index),
        }
    }
}

/// Get word of packed glyph data for emoji
pub fn emoji_data(index: usize) -> (r: u32)
    requires
        index < emoji::DATA@.len(),
    ensures
        r == emoji::DATA@[index as int],
{
    emoji::DATA[index]
}

/// Get word of packed glyph data for bold
pub fn bold_data(index: usize) -> (r: u32)
    requires
        index < bold::DATA@.len(),
    ensures
        r == bold::DATA@[index as int],
{
    bold::DATA[index]
}

/// Get word of packed glyph data for regular
pub fn regular_data(index: usize) -> (r: u32)
    requires
        index < regular::data_words().len(),
    ensures
        r == regular::data_words()[index as int],
{
    regular::data_word(index)
}

/// Get word of packed glyph data for small
pub fn small_data(index: usize) -> (r: u32)
    requires
        index < small::DATA@.len(),
    ensures
        r == small::DATA@[index as int],
{
    small::DATA[index]
}

} // verus!
