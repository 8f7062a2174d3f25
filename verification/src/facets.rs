//! Facet listing: the filterable dimensions offered for narrowing a search.
//! Dynasties are aggregated from the live store, ordered by descending record
//! count and truncated to a fixed top group; tags are a curated, build-time
//! list shipped with the application, a deliberate trade of facet
//! completeness for constant startup cost.

use vstd::prelude::*;

verus! {

/// The aggregate facet values: dynasty labels and tag labels.
#[derive(Debug, Clone)]
pub struct FilterOptions {
    pub dynasties: Vec<String>,
    pub tags: Vec<String>,
}

/// The curated tag list shipped with the application: the Tang-poetry and
/// Song-lyric anthologies, the school-curriculum group, and the five
/// classification codes.
pub open spec fn curated_tag_list() -> Seq<Seq<char>> {
    seq![
        "\u{5510}\u{8bd7}\u{4e09}\u{767e}\u{9996}"@,
        "\u{5b8b}\u{8bcd}\u{4e09}\u{767e}\u{9996}"@,
        "K12"@,
        "shi"@,
        "ci"@,
        "qu"@,
        "wen"@,
        "fu"@,
    ]
}

/// Builds the curated tag list.
pub fn curated_tags() -> (r: Vec<String>)
    ensures
        r.deep_view() == curated_tag_list(),
{
    let mut v: Vec<String> = Vec::new();
    v.push("\u{5510}\u{8bd7}\u{4e09}\u{767e}\u{9996}".to_owned());
    v.push("\u{5b8b}\u{8bcd}\u{4e09}\u{767e}\u{9996}".to_owned());
    v.push("K12".to_owned());
    v.push("shi".to_owned());
    v.push("ci".to_owned());
    v.push("qu".to_owned());
    v.push("wen".to_owned());
    v.push("fu".to_owned());
    proof {
        assert(v.deep_view() =~= curated_tag_list());
    }
    v
}

/// The aggregation that derives the dynasty facet from the live store:
/// grouped by dynasty, ordered by descending record count, truncated to the
/// top twenty.
pub fn dynasty_facet_sql() -> (r: String)
    ensures
        r@ == "SELECT dynasty, COUNT(*) as c FROM poetry GROUP BY dynasty ORDER BY c DESC LIMIT 20"@,
{
    "SELECT dynasty, COUNT(*) as c FROM poetry GROUP BY dynasty ORDER BY c DESC LIMIT 20".to_owned()
}

impl FilterOptions {
    /// Assembles the facet listing from the dynasty labels read from the live
    /// store, pairing them with the curated tag list.
    pub fn assemble(dynasties: Vec<String>) -> (r: FilterOptions)
        ensures
            r.dynasties == dynasties,
            r.tags.deep_view() == curated_tag_list(),
    {
        FilterOptions { dynasties, tags: curated_tags() }
    }
}

} // verus!
