//! Glyph record format: one header word followed by packed 1-bit pixels.
//!
//! Header word: `(w as u8) << 16 | (h as u8) << 8 | (y_offset as u8)`, top byte zero.
//! Pixel words: `ceil(w * h / 32)` words, row-major, MSB of the first word is the
//! top left pixel; 1 = set, 0 = clear.
use vstd::prelude::*;

verus! {

/// Width field of a packed header word (bits 16..24).
pub open spec fn header_width(word: u32) -> u8 {
    ((word >> 16u32) & 0xffu32) as u8
}

/// Height field of a packed header word (bits 8..16).
pub open spec fn header_height(word: u32) -> u8 {
    ((word >> 8u32) & 0xffu32) as u8
}

/// Vertical offset field of a packed header word (bits 0..8).
pub open spec fn header_y_offset(word: u32) -> u8 {
    (word & 0xffu32) as u8
}

/// The header word that packs a width, a height and a vertical offset.
pub open spec fn pack_header(w: u8, h: u8, y_offset: u8) -> u32 {
    ((w as u32) << 16u32) | ((h as u32) << 8u32) | (y_offset as u32)
}

/// Number of pixel words that follow the header of a `w` by `h` glyph.
pub open spec fn pattern_words(w: nat, h: nat) -> nat {
    (w * h + 31) / 32
}

/// Whether the pixel at (`row`, `col`) of a glyph `width` pixels wide is set,
/// where `data` holds the pixel words that follow the header.
pub open spec fn pixel_set(data: Seq<u32>, width: int, row: int, col: int) -> bool {
    let bit = row * width + col;
    (data[bit / 32] >> ((31 - bit % 32) as u32)) & 1u32 == 1u32
}

/// Holds header data for a font glyph
#[derive(Clone, Copy, Debug, PartialEq, Eq)]
pub struct GlyphHeader {
    pub w: usize,
    pub h: usize,
    pub y_offset: usize,
}

impl GlyphHeader {
    /// Unpack glyph header of format: (w:u8)<<16 | (h:u8)<<8 | yOffset:u8
    pub fn new(header: u32) -> (r: GlyphHeader)
        ensures
            r.w == header_width(header) as usize,
            r.h == header_height(header) as usize,
            r.y_offset == header_y_offset(header) as usize,
    {
        let w = (header << 8u32) >> 24u32;
        let h = (header << 16u32) >> 24u32;
        let y_offset = header & 0x0000_00ffu32;
        assert(w == ((header >> 16u32) & 0xffu32) && w < 256) by (bit_vector)
            requires
                w == (header << 8u32) >> 24u32,
        ;
        assert(h == ((header >> 8u32) & 0xffu32) && h < 256) by (bit_vector)
            requires
                h == (header << 16u32) >> 24u32,
        ;
        assert(y_offset < 256) by (bit_vector)
            requires
                y_offset == header & 0x0000_00ffu32,
        ;
        GlyphHeader { w: w as usize, h: h as usize, y_offset: y_offset as usize }
    }
}

/// Decoding a packed header gives back exactly the width, height and vertical
/// offset that were packed into it.
pub proof fn lemma_header_round_trip(w: u8, h: u8, y_offset: u8)
    ensures
        header_width(pack_header(w, h, y_offset)) == w,
        header_height(pack_header(w, h, y_offset)) == h,
        header_y_offset(pack_header(w, h, y_offset)) == y_offset,
        pack_header(w, h, y_offset) >> 24u32 == 0,
{
    let (w32, h32, y32) = (w as u32, h as u32, y_offset as u32);
    assert(((((w32 << 16u32) | (h32 << 8u32) | y32) >> 16u32) & 0xffu32) == w32
        && ((((w32 << 16u32) | (h32 << 8u32) | y32) >> 8u32) & 0xffu32) == h32
        && (((w32 << 16u32) | (h32 << 8u32) | y32) & 0xffu32) == y32
        && ((w32 << 16u32) | (h32 << 8u32) | y32) >> 24u32 == 0) by (bit_vector)
        requires
            w32 < 256,
            h32 < 256,
            y32 < 256,
    ;
}

/// Whether the pixel at (`row`, `col`) is set, for a glyph `width` by `height`
/// whose pixel words (the words after its header) start at `data[0]`.
pub fn pixel_at(data: &[u32], width: usize, height: usize, row: usize, col: usize) -> (r: bool)
    requires
        row < height,
        col < width,
        width * height <= usize::MAX,
        pattern_words(width as nat, height as nat) <= data@.len(),
    ensures
        r == pixel_set(data@, width as int, row as int, col as int),
{
    proof {
        assert(row * width + col < width * height) by (nonlinear_arith)
            requires
                row < height,
                col < width,
        ;
        assert((row * width + col) / 32 < pattern_words(width as nat, height as nat));
    }
    let bit: usize = row * width + col;
    let word = data[bit / 32];
    let shift = (31 - bit % 32) as u32;
    (word >> shift) & 1u32 == 1u32
}

} // verus!
