//! Verified core of a bundled Chinese-poetry corpus reader: versioned asset
//! provisioning, CJK-aware full-text query construction, result decoding, and
//! font-file inspection helpers.

pub mod facets;
pub mod font;
pub mod provision;
pub mod query;
pub mod record;
pub mod text;
pub mod tokenize;
