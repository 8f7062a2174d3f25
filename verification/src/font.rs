//! Font-file inspection: magic-byte format sniffing, family-name extraction
//! from the parsed name table, coverage of the reference character U+6C38
//! (the classic test for Chinese calligraphy support), and an encoded copy of
//! the bytes for embedding. A pure function of the file bytes and path.

use vstd::prelude::*;

verus! {

/// The font container formats recognised by their magic bytes.
#[derive(Debug, Clone, Copy, PartialEq, Eq, Structural)]
pub enum FontFormat {
    Ttf,
    Otf,
    Woff,
    Woff2,
}

/// What a font inspection reports: identifying metadata and the encoded
/// bytes, handed to the presentation layer.
#[derive(Debug)]
pub struct FontMetadata {
    pub family_name: String,
    pub file_path: String,
    pub is_valid: bool,
    pub format: String,
    pub base64_data: Option<String>,
}

/// Why a font file was rejected.
#[derive(Debug, PartialEq, Eq, Structural)]
pub enum FontError {
    /// The file starts with none of the recognised magic-byte prefixes.
    UnsupportedFormat,
    /// The bytes did not parse as a font face.
    ParseFailed,
    /// The face does not cover the reference character U+6C38.
    MissingReferenceGlyph,
}

impl FontError {
    /// A descriptive message for the caller.
    pub fn message(&self) -> (r: String)
        ensures
            match self {
                FontError::UnsupportedFormat => r@
                    == "Unsupported font format (Unknown Magic Bytes)"@,
                FontError::ParseFailed => r@ == "Failed to parse font data"@,
                FontError::MissingReferenceGlyph => r@
                    == "Font does not support Chinese character '\u{6c38}'"@,
            },
    {
        match self {
            FontError::UnsupportedFormat => "Unsupported font format (Unknown Magic Bytes)".to_owned(),
            FontError::ParseFailed => "Failed to parse font data".to_owned(),
            FontError::MissingReferenceGlyph => "Font does not support Chinese character '\u{6c38}'".to_owned(),
        }
    }
}

/// One entry of a face's name table, reduced to the plain values the
/// family-name selection reads.
#[derive(Debug)]
pub struct FontNameRecord {
    pub name_id: u16,
    pub unicode: bool,
    pub text: Option<String>,
}

impl DeepView for FontNameRecord {
    type V = (u16, bool, Option<Seq<char>>);

    open spec fn deep_view(&self) -> Self::V {
        (self.name_id, self.unicode, self.text.deep_view())
    }
}

pub open spec fn has_prefix(d: Seq<u8>, p: Seq<u8>) -> bool {
    p.len() <= d.len() && d.take(p.len() as int) == p
}

/// The format identified by the file's first bytes: the TrueType signatures,
/// `OTTO`, `wOFF` or `wOF2`.
pub open spec fn magic_format(d: Seq<u8>) -> Option<FontFormat> {
    if has_prefix(d, seq![0x00u8, 0x01u8, 0x00u8, 0x00u8]) || has_prefix(
        d,
        seq![0x74u8, 0x72u8, 0x75u8, 0x65u8],
    ) {
        Some(FontFormat::Ttf)
    } else if has_prefix(d, seq![0x4fu8, 0x54u8, 0x54u8, 0x4fu8]) {
        Some(FontFormat::Otf)
    } else if has_prefix(d, seq![0x77u8, 0x4fu8, 0x46u8, 0x46u8]) {
        Some(FontFormat::Woff)
    } else if has_prefix(d, seq![0x77u8, 0x4fu8, 0x46u8, 0x32u8]) {
        Some(FontFormat::Woff2)
    } else {
        None
    }
}

/// The lower-case label of a format, as reported in the metadata.
pub open spec fn format_label(f: FontFormat) -> Seq<char> {
    match f {
        FontFormat::Ttf => "ttf"@,
        FontFormat::Otf => "otf"@,
        FontFormat::Woff => "woff"@,
        FontFormat::Woff2 => "woff2"@,
    }
}

fn starts4(d: &Vec<u8>, a: u8, b: u8, c: u8, e: u8) -> (r: bool)
    ensures
        r == has_prefix(d@, seq![a, b, c, e]),
{
    let ghost p = seq![a, b, c, e];
    if d.len() < 4 {
        return false;
    }
    let r = d[0] == a && d[1] == b && d[2] == c && d[3] == e;
    proof {
        if r {
            assert(d@.take(4) =~= p);
        } else if has_prefix(d@, p) {
            assert(d@[0] == d@.take(4)[0]);
            assert(d@[1] == d@.take(4)[1]);
            assert(d@[2] == d@.take(4)[2]);
            assert(d@[3] == d@.take(4)[3]);
        }
    }
    r
}

/// Identifies a font file's format from its magic bytes.
pub fn detect_font_format(data: &Vec<u8>) -> (r: Option<FontFormat>)
    ensures
        r == magic_format(data@),
{
    if starts4(data, 0x00, 0x01, 0x00, 0x00) || starts4(data, 0x74, 0x72, 0x75, 0x65) {
        Some(FontFormat::Ttf)
    } else if starts4(data, 0x4f, 0x54, 0x54, 0x4f) {
        Some(FontFormat::Otf)
    } else if starts4(data, 0x77, 0x4f, 0x46, 0x46) {
        Some(FontFormat::Woff)
    } else if starts4(data, 0x77, 0x4f, 0x46, 0x32) {
        Some(FontFormat::Woff2)
    } else {
        None
    }
}

/// Builds the metadata label of a format.
pub fn format_name(f: FontFormat) -> (r: String)
    ensures
        r@ == format_label(f),
{
    match f {
        FontFormat::Ttf => "ttf".to_owned(),
        FontFormat::Otf => "otf".to_owned(),
        FontFormat::Woff => "woff".to_owned(),
        FontFormat::Woff2 => "woff2".to_owned(),
    }
}

pub open spec fn is_path_separator(c: char) -> bool {
    c == '/' || c == '\\'
}

/// The file-name part of a path: what follows the last separator, or the
/// whole path when it has none.
pub open spec fn path_basename(p: Seq<char>) -> Seq<char>
    decreases p.len(),
{
    if p.len() == 0 {
        Seq::empty()
    } else if is_path_separator(p.last()) {
        Seq::empty()
    } else {
        path_basename(p.drop_last()).push(p.last())
    }
}

/// Extracts the file-name part of a path.
pub fn basename_of(path: &str) -> (r: String)
    ensures
        r@ == path_basename(path@),
{
    let cs = crate::text::str_to_chars(path);
    let n = cs.len();
    let mut start: usize = 0;
    let mut i: usize = 0;
    while i < n
        invariant
            0 <= start <= i <= n,
            n == cs.len(),
            cs@ == path@,
            path_basename(path@.take(i as int)) =~= path@.subrange(start as int, i as int),
        decreases n - i,
    {
        let c = cs[i];
        proof {
            assert(path@.take(i as int + 1).drop_last() =~= path@.take(i as int));
            assert(path@.take(i as int + 1).last() == path@[i as int]);
        }
        if c == '/' || c == '\\' {
            start = i + 1;
            proof {
                assert(path_basename(path@.take(i as int + 1)) =~= path@.subrange(
                    start as int,
                    i as int + 1,
                ));
            }
        } else {
            proof {
                assert(path_basename(path@.take(i as int + 1)) =~= path@.subrange(
                    start as int,
                    i as int + 1,
                ));
            }
        }
        i += 1;
    }
    proof {
        assert(path@.take(n as int) =~= path@);
    }
    let mut out: Vec<char> = Vec::new();
    let mut j: usize = start;
    while j < n
        invariant
            start <= j <= n,
            n == cs.len(),
            cs@ == path@,
            out@ == path@.subrange(start as int, j as int),
        decreases n - j,
    {
        out.push(cs[j]);
        proof {
            assert(path@.subrange(start as int, j as int).push(path@[j as int]) =~= path@.subrange(
                start as int,
                j as int + 1,
            ));
        }
        j += 1;
    }
    crate::text::chars_to_string(&out)
}

/// The family name reported for a face: the text of the first name-table
/// entry that is a unicode family-name entry with decodable text, or the
/// fallback when there is none.
pub open spec fn family_name_model(
    names: Seq<(u16, bool, Option<Seq<char>>)>,
    fallback: Seq<char>,
) -> Seq<char>
    decreases names.len(),
{
    if names.len() == 0 {
        fallback
    } else if names.first().0 == 1 && names.first().1 && names.first().2 is Some {
        names.first().2.unwrap()
    } else {
        family_name_model(names.drop_first(), fallback)
    }
}

/// Picks the family name from the reduced name table.
pub fn pick_family_name(names: &Vec<FontNameRecord>, fallback: String) -> (r: String)
    ensures
        r@ == family_name_model(names.deep_view(), fallback@),
{
    let mut i: usize = 0;
    proof {
        assert(names.deep_view().skip(0) =~= names.deep_view());
    }
    while i < names.len()
        invariant
            0 <= i <= names.len(),
            family_name_model(names.deep_view(), fallback@) == family_name_model(
                names.deep_view().skip(i as int),
                fallback@,
            ),
        decreases names.len() - i,
    {
        let ghost rest = names.deep_view().skip(i as int);
        proof {
            assert(rest.first() == names.deep_view()[i as int]);
            assert(names.deep_view()[i as int] == names@[i as int].deep_view());
        }
        let rec = &names[i];
        if rec.name_id == 1 && rec.unicode {
            match &rec.text {
                Some(t) => {
                    return t.clone();
                },
                None => {},
            }
        }
        proof {
            assert(rest.drop_first() =~= names.deep_view().skip(i as int + 1));
        }
        i += 1;
    }
    proof {
        assert(names.deep_view().skip(names@.len() as int) =~= Seq::<(
            u16,
            bool,
            Option<Seq<char>>,
        )>::empty());
    }
    fallback
}

/// What the font bytes parse to, if they parse as a face: the name-table
/// entries reduced to plain values, and whether the face covers U+6C38. A
/// function of the font bytes alone.
pub uninterp spec fn face_info_of(data: Seq<u8>) -> Option<
    (Seq<(u16, bool, Option<Seq<char>>)>, bool),
>;

/// Relies on `ttf_parser::Face::parse` with its name-table and glyph-index
/// lookups: whether the bytes parse, each name entry's identifier, unicode
/// flag and decoded text, and coverage of U+6C38 are functions of the font
/// bytes alone.
#[verifier::external_body]
fn read_face_info(data: &Vec<u8>) -> (r: Option<(Vec<FontNameRecord>, bool)>)
    ensures
        r is Some <==> face_info_of(data@) is Some,
        r matches Some(p) ==> Some((p.0.deep_view(), p.1)) == face_info_of(data@),
{
    match ttf_parser::Face::parse(data, 0) {
        Ok(face) => {
            let names: Vec<FontNameRecord> = face.names().into_iter().map(
                |n| FontNameRecord { name_id: n.name_id, unicode: n.is_unicode(), text: n.to_string() },
            ).collect();
            let has_reference_glyph = face.glyph_index('\u{6c38}').is_some();
            Some((names, has_reference_glyph))
        },
        Err(_) => None,
    }
}

/// What the font bytes encode to for embedding: a function of the bytes
/// alone.
pub uninterp spec fn b64_standard(data: Seq<u8>) -> Seq<char>;

/// Relies on `base64::engine::general_purpose::STANDARD.encode`: the standard
/// alphabet with padding, a function of the input bytes alone, four output
/// characters for every three input bytes (rounded up).
#[verifier::external_body]
fn encode_base64(data: &Vec<u8>) -> (r: String)
    ensures
        r@ == b64_standard(data@),
        r@.len() == 4 * ((data@.len() + 2) / 3),
{
    base64::Engine::encode(&base64::engine::general_purpose::STANDARD, data)
}

/// Inspects a font file handed over as its bytes and path: sniffs the format
/// from the magic bytes, encodes the bytes for embedding, and for the deeply
/// parsed formats requires a well-formed face that covers U+6C38, reporting
/// the face's family name (or the file name when the table offers none).
pub fn validate_font_bytes(data: &Vec<u8>, path: &str) -> (r: Result<FontMetadata, FontError>)
    ensures
        magic_format(data@) is None <==> (r matches Err(FontError::UnsupportedFormat)),
        (magic_format(data@) matches Some(f) && (f == FontFormat::Ttf || f
            == FontFormat::Otf)) ==> match face_info_of(data@) {
            None => r matches Err(FontError::ParseFailed),
            Some(info) => if !info.1 {
                r matches Err(FontError::MissingReferenceGlyph)
            } else {
                r matches Ok(m) && m.family_name@ == family_name_model(
                    info.0,
                    path_basename(path@),
                ) && m.file_path@ == path@ && m.is_valid && m.format@ == format_label(
                    magic_format(data@).unwrap(),
                ) && (m.base64_data matches Some(b) && b@ == b64_standard(data@))
            },
        },
        (magic_format(data@) matches Some(f) && !(f == FontFormat::Ttf || f
            == FontFormat::Otf)) ==> (r matches Ok(m) && m.family_name@ == path_basename(path@)
            && m.file_path@ == path@ && m.is_valid && m.format@ == format_label(
            magic_format(data@).unwrap(),
        ) && (m.base64_data matches Some(b) && b@ == b64_standard(data@))),
{
    let format = match detect_font_format(data) {
        Some(f) => f,
        None => {
            return Err(FontError::UnsupportedFormat);
        },
    };
    let encoded = encode_base64(data);
    let fallback = basename_of(path);
    if format == FontFormat::Ttf || format == FontFormat::Otf {
        match read_face_info(data) {
            None => Err(FontError::ParseFailed),
            Some((names, covers_reference)) => {
                if !covers_reference {
                    Err(FontError::MissingReferenceGlyph)
                } else {
                    let family = pick_family_name(&names, fallback);
                    Ok(
                        FontMetadata {
                            family_name: family,
                            file_path: path.to_owned(),
                            is_valid: true,
                            format: format_name(format),
                            base64_data: Some(encoded),
                        },
                    )
                }
            },
        }
    } else {
        Ok(
            FontMetadata {
                family_name: fallback,
                file_path: path.to_owned(),
                is_valid: true,
                format: format_name(format),
                base64_data: Some(encoded),
            },
        )
    }
}

} // verus!
