use fonts::index::find_offset;
use fonts::pua;
use fonts::regular;
use fonts::small;
use fonts::{
    bold_data, hash, murmur3, pixel_at, regular_data, small_data, Font, GlyphHeader,
    GlyphNotFound, GlyphSet,
};

#[test]
fn hash_of_a_is_fixed() {
    assert_eq!(hash("A", 0), 0x4bcd3197);
    assert_eq!(hash("A", 0), hash("A", 0));
    assert_eq!(murmur3("A", 0, u32::MAX), (0x4bcd3197, 1));
}

#[test]
fn hash_of_a_is_indexed() {
    assert!(regular::HASHED_CLUSTERS.contains(&hash("A", 0)));
}

#[test]
fn murmur3_stops_at_limit() {
    // two codepoints of "héllo" are three bytes
    assert_eq!(murmur3("héllo", 7, 2), (3158350017, 3));
    assert_eq!(murmur3("héllo", 7, 0), murmur3("", 7, 0));
    assert_ne!(murmur3("héllo", 7, 2).0, hash("héllo", 7));
}

#[test]
fn murmur3_full_limit_matches_hash() {
    assert_eq!(murmur3("héllo", 7, 5).0, hash("héllo", 7));
    assert_eq!(murmur3("héllo", 7, 5).1, 6);
    assert_eq!(murmur3("é", 0, 9), (3402649887, 2));
    assert_eq!(hash("中", 0), 3485726285);
}

#[test]
fn murmur3_of_empty_key() {
    assert_eq!(murmur3("", 0, 5), (0, 0));
    assert_eq!(hash("", 0), 0);
}

#[test]
fn header_decodes_fields() {
    let h = GlyphHeader::new(0x000e1206);
    assert_eq!((h.w, h.h, h.y_offset), (14, 18, 6));
}

#[test]
fn header_round_trips_extremes() {
    for (w, h, y) in [(0usize, 0usize, 0usize), (255, 255, 255), (1, 2, 3), (255, 0, 128)] {
        let word = ((w as u32) << 16) | ((h as u32) << 8) | (y as u32);
        let d = GlyphHeader::new(word);
        assert_eq!((d.w, d.h, d.y_offset), (w, h, y));
    }
}

#[test]
fn header_ignores_top_byte() {
    let h = GlyphHeader::new(0xab010203);
    assert_eq!((h.w, h.h, h.y_offset), (1, 2, 3));
}

#[test]
fn space_glyph_pixels_clear() {
    let header = GlyphHeader::new(regular_data(0));
    assert_eq!((header.w, header.h), (4, 2));
    let words = [regular_data(1)];
    for row in 0..2 {
        for col in 0..4 {
            assert!(!pixel_at(&words, 4, 2, row, col));
        }
    }
}

#[test]
fn exclamation_glyph_pixels() {
    let header = GlyphHeader::new(regular_data(2));
    assert_eq!((header.w, header.h, header.y_offset), (2, 18, 6));
    let words = [regular_data(3), regular_data(4)];
    assert!(pixel_at(&words, 2, 18, 0, 0));
    assert!(pixel_at(&words, 2, 18, 13, 1));
    assert!(!pixel_at(&words, 2, 18, 14, 0));
    assert!(!pixel_at(&words, 2, 18, 15, 1));
    assert!(pixel_at(&words, 2, 18, 16, 0));
    assert!(pixel_at(&words, 2, 18, 17, 1));
}

#[test]
fn regular_resolves_a() {
    assert_eq!(regular::get_blit_pattern_offset("A"), Ok(191));
    let font = Font::new(GlyphSet::Regular);
    assert_eq!(font.glyph_pattern_offset("A"), Ok(191));
    let h = GlyphHeader::new(font.glyph_data(191));
    assert_eq!((h.w, h.h, h.y_offset), (14, 18, 6));
}

#[test]
fn small_resolves_a() {
    assert_eq!(small::get_glyph_pattern_offset('A'), 151);
    let font = Font::new(GlyphSet::Small);
    assert_eq!(font.glyph_pattern_offset("A"), Ok(151));
    let h = GlyphHeader::new(font.glyph_data(151));
    assert_eq!((h.w, h.h, h.y_offset), (10, 14, 6));
}

#[test]
fn regular_resolves_stored_clusters() {
    assert_eq!(regular::get_blit_pattern_offset(pua::BATTERY_75), Ok(1429));
    assert_eq!(regular::get_blit_pattern_offset("é"), Ok(1159));
    assert_eq!(regular::get_blit_pattern_offset("€"), Ok(1390));
    assert_eq!(regular::get_blit_pattern_offset("\u{FFFD}"), Ok(1550));
}

#[test]
fn regular_index_is_ascending_and_searchable() {
    let hs = &regular::HASHED_CLUSTERS;
    let os = &regular::PATTERN_OFFSETS;
    for i in 1..hs.len() {
        assert!(hs[i - 1] < hs[i]);
    }
    for i in 0..hs.len() {
        assert_eq!(find_offset(hs, os, hs[i]), Some(os[i]));
        assert!(os[i] < 1563);
    }
    assert_eq!(find_offset(hs, os, hs[0] - 1), None);
    assert_eq!(find_offset(hs, os, hs[hs.len() - 1] + 1), None);
}

#[test]
fn find_offset_on_small_index() {
    let hs = [1u32, 5, 9];
    let os = [10usize, 50, 90];
    assert_eq!(find_offset(&hs, &os, 1), Some(10));
    assert_eq!(find_offset(&hs, &os, 5), Some(50));
    assert_eq!(find_offset(&hs, &os, 9), Some(90));
    assert_eq!(find_offset(&hs, &os, 4), None);
    assert_eq!(find_offset(&hs, &os, 10), None);
    assert_eq!(find_offset(&[], &[], 4), None);
}

#[test]
fn out_of_block_codepoint() {
    assert_eq!(regular::get_blit_pattern_offset("中"), Err(GlyphNotFound));
    assert_eq!(Font::new(GlyphSet::Regular).glyph_pattern_offset("中文"), Err(GlyphNotFound));
    assert_eq!(small::get_glyph_pattern_offset('中'), 1058);
    assert_eq!(Font::new(GlyphSet::Small).glyph_pattern_offset("中"), Ok(1058));
}

#[test]
fn in_block_cluster_not_indexed() {
    // 'e' with a combining acute accent is in a covered block but not indexed
    assert_eq!(regular::get_blit_pattern_offset("e\u{301}"), Err(GlyphNotFound));
    assert_eq!(regular::get_blit_pattern_offset("AB"), Err(GlyphNotFound));
}

#[test]
fn small_multi_codepoint_cluster_is_replacement() {
    assert_eq!(small::get_blit_pattern_offset("e\u{301}"), Ok(1058));
    assert_eq!(small::get_blit_pattern_offset("é"), Ok(888));
}

#[test]
fn small_direct_ranges() {
    assert_eq!(small::get_glyph_pattern_offset(' '), 0);
    assert_eq!(small::get_glyph_pattern_offset('~'), 452);
    assert_eq!(small::get_glyph_pattern_offset('\u{A0}'), 455);
    assert_eq!(small::get_glyph_pattern_offset('\u{152}'), 1004);
    assert_eq!(small::get_glyph_pattern_offset('\u{153}'), 1012);
    assert_eq!(small::get_glyph_pattern_offset('\u{2018}'), 1018);
    assert_eq!(small::get_glyph_pattern_offset('€'), 1051);
    assert_eq!(small::get_glyph_pattern_offset('\u{FFFD}'), 1058);
    assert_eq!(small::get_glyph_pattern_offset('\u{7F}'), 1058);
    assert_eq!(small::get_glyph_pattern_offset('\u{1F600}'), 1058);
}

#[test]
fn empty_cluster_not_found() {
    assert_eq!(regular::get_blit_pattern_offset(""), Err(GlyphNotFound));
    assert_eq!(small::get_blit_pattern_offset(""), Err(GlyphNotFound));
    for gs in [GlyphSet::Emoji, GlyphSet::Bold, GlyphSet::Regular, GlyphSet::Small] {
        assert_eq!(Font::new(gs).glyph_pattern_offset(""), Err(GlyphNotFound));
    }
}

#[test]
fn empty_typefaces_resolve_nothing() {
    assert_eq!(Font::new(GlyphSet::Emoji).glyph_pattern_offset("A"), Err(GlyphNotFound));
    assert_eq!(Font::new(GlyphSet::Bold).glyph_pattern_offset("A"), Err(GlyphNotFound));
    assert_eq!(fonts::emoji::DATA.len(), 0);
    assert_eq!(fonts::bold::DATA.len(), 0);
    let _accessor: fn(usize) -> u32 = bold_data;
}

#[test]
fn regular_data_spans_both_halves() {
    assert_eq!(regular_data(790), 0x3f0fc000);
    assert_eq!(regular_data(791), 0x000e1800);
    assert_eq!(regular_data(1562), 0x00000000);
    assert_eq!(regular::data_word(1550), 0x00121404);
    assert_eq!(Font::new(GlyphSet::Regular).glyph_data(791), 0x000e1800);
}

#[test]
fn small_data_words() {
    assert_eq!(small_data(0), 0x0004020b);
    assert_eq!(small_data(1058), 0x00121402);
    assert_eq!(Font::new(GlyphSet::Small).glyph_data(1), 0);
}

#[test]
fn max_heights() {
    assert_eq!(regular::MAX_HEIGHT, 30);
    assert_eq!(small::MAX_HEIGHT, 24);
    assert_eq!(fonts::emoji::MAX_HEIGHT, 48);
}

#[test]
fn pua_sprites_are_single_codepoints() {
    let all = [
        pua::BATTERY_05,
        pua::BATTERY_25,
        pua::BATTERY_50,
        pua::BATTERY_75,
        pua::BATTERY_99,
        pua::RADIO_3,
        pua::RADIO_2,
        pua::RADIO_1,
        pua::RADIO_0,
        pua::RADIO_OFF,
        pua::SHIFT_ARROW,
        pua::BACKSPACE_SYMBOL,
        pua::ENTER_SYMBOL,
    ];
    for (i, s) in all.iter().enumerate() {
        assert_eq!(s.chars().count(), 1);
        assert_eq!(s.chars().next().unwrap() as u32, 0xE700 + i as u32);
        assert!(regular::get_blit_pattern_offset(s).is_ok());
    }
}

#[test]
fn glyph_not_found_message() {
    assert_eq!(GlyphNotFound.message(), "Font has no glyph for requested grapheme cluster");
}
