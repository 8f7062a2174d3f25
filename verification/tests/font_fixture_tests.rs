//! A handcrafted minimal TrueType face: enough of the required tables for a
//! real parse, one Unicode family-name entry, and a character map that either
//! covers or misses the reference character U+6C38.

use liumo_core::font::{validate_font_bytes, FontError};

fn push_u16(out: &mut Vec<u8>, v: u16) {
    out.extend_from_slice(&v.to_be_bytes());
}

fn push_u32(out: &mut Vec<u8>, v: u32) {
    out.extend_from_slice(&v.to_be_bytes());
}

fn head_table() -> Vec<u8> {
    let mut t = Vec::new();
    push_u32(&mut t, 0x00010000); // version
    push_u32(&mut t, 0); // font revision
    push_u32(&mut t, 0); // checksum adjustment
    push_u32(&mut t, 0x5F0F3CF5); // magic
    push_u16(&mut t, 0); // flags
    push_u16(&mut t, 1000); // units per em
    push_u32(&mut t, 0); // created (hi)
    push_u32(&mut t, 0); // created (lo)
    push_u32(&mut t, 0); // modified (hi)
    push_u32(&mut t, 0); // modified (lo)
    push_u16(&mut t, 0); // x min
    push_u16(&mut t, 0); // y min
    push_u16(&mut t, 100); // x max
    push_u16(&mut t, 100); // y max
    push_u16(&mut t, 0); // mac style
    push_u16(&mut t, 8); // lowest rec ppem
    push_u16(&mut t, 0); // font direction hint
    push_u16(&mut t, 0); // index to location format
    push_u16(&mut t, 0); // glyph data format
    t
}

fn hhea_table() -> Vec<u8> {
    let mut t = Vec::new();
    push_u32(&mut t, 0x00010000); // version
    push_u16(&mut t, 800); // ascender
    push_u16(&mut t, 0u16.wrapping_sub(200)); // descender
    push_u16(&mut t, 0); // line gap
    for _ in 0..12 {
        push_u16(&mut t, 0); // advance width max .. reserved
    }
    push_u16(&mut t, 2); // number of h-metrics
    t
}

fn maxp_table() -> Vec<u8> {
    let mut t = Vec::new();
    push_u32(&mut t, 0x00010000); // version
    push_u16(&mut t, 2); // number of glyphs
    t
}

/// A format-4 character map with one mapped code point and the terminating
/// segment.
fn cmap_table(mapped: u16) -> Vec<u8> {
    let mut sub = Vec::new();
    push_u16(&mut sub, 4); // format
    push_u16(&mut sub, 32); // length
    push_u16(&mut sub, 0); // language
    push_u16(&mut sub, 4); // seg count * 2
    push_u16(&mut sub, 4); // search range
    push_u16(&mut sub, 1); // entry selector
    push_u16(&mut sub, 0); // range shift
    push_u16(&mut sub, mapped); // end codes
    push_u16(&mut sub, 0xFFFF);
    push_u16(&mut sub, 0); // reserved pad
    push_u16(&mut sub, mapped); // start codes
    push_u16(&mut sub, 0xFFFF);
    push_u16(&mut sub, 1u16.wrapping_sub(mapped)); // id delta: maps to glyph 1
    push_u16(&mut sub, 1);
    push_u16(&mut sub, 0); // id range offsets
    push_u16(&mut sub, 0);

    let mut t = Vec::new();
    push_u16(&mut t, 0); // version
    push_u16(&mut t, 1); // encoding record count
    push_u16(&mut t, 0); // platform: unicode
    push_u16(&mut t, 3); // encoding: BMP
    push_u32(&mut t, 12); // subtable offset
    t.extend_from_slice(&sub);
    t
}

/// A name table with a non-unicode entry first and a Windows Unicode-BMP
/// family entry second.
fn name_table(family: &str) -> Vec<u8> {
    let mac_name = b"Mac";
    let win_name: Vec<u8> = family.encode_utf16().flat_map(|u| u.to_be_bytes()).collect();
    let mut t = Vec::new();
    push_u16(&mut t, 0); // format
    push_u16(&mut t, 2); // record count
    push_u16(&mut t, 6 + 2 * 12); // storage offset
    // record 1: macintosh roman, skipped by the unicode filter
    push_u16(&mut t, 1); // platform
    push_u16(&mut t, 0); // encoding
    push_u16(&mut t, 0); // language
    push_u16(&mut t, 1); // name id: family
    push_u16(&mut t, mac_name.len() as u16);
    push_u16(&mut t, 0); // storage offset of this name
    // record 2: windows unicode bmp
    push_u16(&mut t, 3); // platform
    push_u16(&mut t, 1); // encoding
    push_u16(&mut t, 0x0409); // language
    push_u16(&mut t, 1); // name id: family
    push_u16(&mut t, win_name.len() as u16);
    push_u16(&mut t, mac_name.len() as u16);
    t.extend_from_slice(mac_name);
    t.extend_from_slice(&win_name);
    t
}

/// Assembles the tables into an sfnt container; records sorted by tag.
fn build_font(mapped_code_point: u16, family: &str) -> Vec<u8> {
    let tables: Vec<(&[u8; 4], Vec<u8>)> = vec![
        (b"cmap", cmap_table(mapped_code_point)),
        (b"head", head_table()),
        (b"hhea", hhea_table()),
        (b"maxp", maxp_table()),
        (b"name", name_table(family)),
    ];
    let mut font = Vec::new();
    push_u32(&mut font, 0x00010000); // sfnt version
    push_u16(&mut font, tables.len() as u16);
    push_u16(&mut font, 64); // search range
    push_u16(&mut font, 2); // entry selector
    push_u16(&mut font, 16); // range shift
    let mut offset = 12 + 16 * tables.len() as u32;
    for (tag, data) in &tables {
        font.extend_from_slice(*tag);
        push_u32(&mut font, 0); // checksum, not verified on parse
        push_u32(&mut font, offset);
        push_u32(&mut font, data.len() as u32);
        offset += data.len() as u32;
    }
    for (_, data) in &tables {
        font.extend_from_slice(data);
    }
    font
}

#[test]
fn minimal_face_reports_its_unicode_family_name() {
    let font = build_font(0x6C38, "Kai Test");
    let m = validate_font_bytes(&font, "fonts/mini.ttf").unwrap();
    assert_eq!(m.family_name, "Kai Test");
    assert_eq!(m.format, "ttf");
    assert_eq!(m.file_path, "fonts/mini.ttf");
    assert!(m.is_valid);
    assert!(m.base64_data.is_some());
}

#[test]
fn face_without_the_reference_character_is_rejected() {
    let font = build_font(0x0041, "Latin Only");
    match validate_font_bytes(&font, "fonts/latin.ttf") {
        Err(FontError::MissingReferenceGlyph) => {},
        other => panic!("expected a missing-glyph rejection, got {:?}", other),
    }
}

#[test]
fn face_with_no_usable_family_entry_falls_back_to_the_file_name() {
    // A face whose only family entries are non-unicode: the file name is
    // reported instead.
    let mut font = build_font(0x6C38, "X");
    // Rewrite the second name record's platform to macintosh so no unicode
    // entry remains; the record starts after the first one.
    let name_offset = font.len() - name_table("X").len();
    let second_record = name_offset + 6 + 12;
    font[second_record] = 0;
    font[second_record + 1] = 1; // platform 1: macintosh
    let m = validate_font_bytes(&font, "dir/fallback.ttf").unwrap();
    assert_eq!(m.family_name, "fallback.ttf");
}
