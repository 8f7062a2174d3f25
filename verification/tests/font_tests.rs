use liumo_core::font::{
    basename_of, detect_font_format, pick_family_name, validate_font_bytes, FontError,
    FontFormat, FontNameRecord,
};

#[test]
fn magic_bytes_identify_each_format() {
    assert_eq!(detect_font_format(&vec![0x00, 0x01, 0x00, 0x00, 0xAA]), Some(FontFormat::Ttf));
    assert_eq!(detect_font_format(&b"true rest".to_vec()), Some(FontFormat::Ttf));
    assert_eq!(detect_font_format(&b"OTTO rest".to_vec()), Some(FontFormat::Otf));
    assert_eq!(detect_font_format(&b"wOFF rest".to_vec()), Some(FontFormat::Woff));
    assert_eq!(detect_font_format(&b"wOF2 rest".to_vec()), Some(FontFormat::Woff2));
}

#[test]
fn unknown_magic_bytes_are_rejected() {
    assert_eq!(detect_font_format(&b"nope".to_vec()), None);
    assert_eq!(detect_font_format(&vec![]), None);
    assert_eq!(detect_font_format(&vec![0x00, 0x01, 0x00]), None);
    match validate_font_bytes(&b"garbage data".to_vec(), "a.ttf") {
        Err(FontError::UnsupportedFormat) => {},
        other => panic!("expected an unsupported-format error, got {:?}", other),
    }
}

#[test]
fn truetype_bytes_that_do_not_parse_fail() {
    let data = vec![0x00, 0x01, 0x00, 0x00, 0xDE, 0xAD, 0xBE, 0xEF];
    match validate_font_bytes(&data, "broken.ttf") {
        Err(FontError::ParseFailed) => {},
        other => panic!("expected a parse failure, got {:?}", other),
    }
}

#[test]
fn woff_files_skip_deep_parsing_and_encode_their_bytes() {
    let data = b"wOFF".to_vec();
    let m = validate_font_bytes(&data, "fonts/sub/my-font.woff").unwrap();
    assert_eq!(m.family_name, "my-font.woff");
    assert_eq!(m.file_path, "fonts/sub/my-font.woff");
    assert!(m.is_valid);
    assert_eq!(m.format, "woff");
    // The standard padded alphabet: the four bytes of `wOFF` encode this way.
    assert_eq!(m.base64_data.as_deref(), Some("d09GRg=="));
}

#[test]
fn windows_paths_use_the_last_segment() {
    assert_eq!(basename_of("C:\\fonts\\kai.otf"), "kai.otf");
    assert_eq!(basename_of("a/b/c.ttf"), "c.ttf");
    assert_eq!(basename_of("plain.ttf"), "plain.ttf");
    assert_eq!(basename_of("dir/"), "");
}

#[test]
fn family_name_prefers_the_first_unicode_family_entry() {
    let names = vec![
        FontNameRecord { name_id: 2, unicode: true, text: Some(String::from("Regular")) },
        FontNameRecord { name_id: 1, unicode: false, text: Some(String::from("GBK Name")) },
        FontNameRecord { name_id: 1, unicode: true, text: None },
        FontNameRecord { name_id: 1, unicode: true, text: Some(String::from("Kai")) },
        FontNameRecord { name_id: 1, unicode: true, text: Some(String::from("Later")) },
    ];
    assert_eq!(pick_family_name(&names, String::from("fallback.ttf")), "Kai");
}

#[test]
fn family_name_falls_back_to_the_file_name() {
    let names = vec![FontNameRecord { name_id: 4, unicode: true, text: Some(String::from("Full")) }];
    assert_eq!(pick_family_name(&names, String::from("fallback.ttf")), "fallback.ttf");
    assert_eq!(pick_family_name(&Vec::new(), String::from("x")), "x");
}

#[test]
fn font_error_messages_match_their_causes() {
    assert_eq!(FontError::UnsupportedFormat.message(), "Unsupported font format (Unknown Magic Bytes)");
    assert_eq!(FontError::ParseFailed.message(), "Failed to parse font data");
    assert_eq!(FontError::MissingReferenceGlyph.message(), "Font does not support Chinese character '永'");
}
