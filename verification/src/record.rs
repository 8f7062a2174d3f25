//! Result decoding: each row of a search comes back as plain column values
//! and is decoded into a `Poetry` record. A tag column stored as serialized
//! text is parsed into a tag list, defaulting to an empty list on a malformed
//! field rather than failing the whole query.

use vstd::prelude::*;
use vstd::string::StringExecFns;

verus! {

/// The unit of storage and search: one corpus record. The identifier is
/// unique and immutable; every field is set at corpus-build time and never
/// mutated at runtime.
#[derive(Debug)]
pub struct Poetry {
    pub id: String,
    pub title: String,
    pub author: String,
    pub dynasty: String,
    pub content_json: String,
    pub layout_strategy: String,
    pub tags: Vec<String>,
    pub source: String,
}

/// What a serialized tag column parses to when it is a well-formed JSON list
/// of strings: a function of the text alone.
pub uninterp spec fn json_string_list(s: Seq<char>) -> Option<Seq<Seq<char>>>;

/// The tag list decoded from a serialized tag column: the parsed list when
/// the column is well-formed, and no tags otherwise.
pub open spec fn decoded_tags(s: Seq<char>) -> Seq<Seq<char>> {
    match json_string_list(s) {
        Some(l) => l,
        None => Seq::empty(),
    }
}

/// Relies on `serde_json::from_str::<Vec<String>>`: whether the text parses
/// as a JSON list of strings, and the parsed list itself, depend on the text
/// alone.
#[verifier::external_body]
fn parse_tag_list(s: &str) -> (r: Option<Vec<String>>)
    ensures
        r is Some <==> json_string_list(s@) is Some,
        r matches Some(v) ==> Some(v.deep_view()) == json_string_list(s@),
{
    match serde_json::from_str::<Vec<String>>(s) {
        Ok(v) => Some(v),
        Err(_) => None,
    }
}

/// Parses a serialized tag column, degrading to no tags on a malformed field.
pub fn parse_tags(tags_json: &str) -> (r: Vec<String>)
    ensures
        r.deep_view() == decoded_tags(tags_json@),
{
    match parse_tag_list(tags_json) {
        Some(v) => v,
        None => {
            let empty: Vec<String> = Vec::new();
            proof {
                assert(empty.deep_view() =~= Seq::<Seq<char>>::empty());
            }
            empty
        },
    }
}

/// Decodes one result row, handed over as plain column values, into a record.
pub fn decode_record(
    id: String,
    title: String,
    author: String,
    dynasty: String,
    content_json: String,
    layout_strategy: String,
    tags_json: &str,
    source: String,
) -> (r: Poetry)
    ensures
        r.id == id,
        r.title == title,
        r.author == author,
        r.dynasty == dynasty,
        r.content_json == content_json,
        r.layout_strategy == layout_strategy,
        r.tags.deep_view() == decoded_tags(tags_json@),
        r.source == source,
{
    let tags = parse_tags(tags_json);
    Poetry { id, title, author, dynasty, content_json, layout_strategy, tags, source }
}

/// Why a search request failed; none of these ends the process.
#[derive(Debug)]
pub enum SearchError {
    /// The materialized store could not be opened.
    ConnectionFailed(String),
    /// The generated statement was refused by the store; unreachable for
    /// well-formed filters, surfaced rather than panicked if it happens.
    QueryFailed(String),
    /// One row failed to decode; the remaining result set is abandoned rather
    /// than silently truncated.
    RowDecodeFailed(String),
    /// The store predates the expected column set: a build-time inconsistency
    /// between the provisioned asset and the search engine.
    SchemaMismatch,
}

impl SearchError {
    /// A descriptive message for the caller.
    pub fn message(&self) -> (r: String)
        ensures
            match self {
                SearchError::ConnectionFailed(d) => r@ == "failed to open corpus store: "@ + d@,
                SearchError::QueryFailed(d) => r@ == "failed to prepare search query: "@ + d@,
                SearchError::RowDecodeFailed(d) => r@ == "failed to decode result row: "@ + d@,
                SearchError::SchemaMismatch => r@
                    == "corpus store schema does not match this build"@,
            },
    {
        match self {
            SearchError::ConnectionFailed(d) => {
                let mut m = "failed to open corpus store: ".to_owned();
                m.append(d.as_str());
                m
            },
            SearchError::QueryFailed(d) => {
                let mut m = "failed to prepare search query: ".to_owned();
                m.append(d.as_str());
                m
            },
            SearchError::RowDecodeFailed(d) => {
                let mut m = "failed to decode result row: ".to_owned();
                m.append(d.as_str());
                m
            },
            SearchError::SchemaMismatch => "corpus store schema does not match this build".to_owned(),
        }
    }
}

} // verus!
