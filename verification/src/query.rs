//! Dynamic search-query construction: the two query modes (filter-only and
//! full-text), categorical filters, ordering and pagination. Every filter
//! value is emitted as a bound parameter, never interpolated into the SQL
//! text, so the text depends only on which filters are present.

use vstd::prelude::*;
use vstd::string::StringExecFns;
use crate::text::{is_blank, str_is_blank};
use crate::tokenize::{spaced, add_spaces_to_chinese};

verus! {

/// Hard server-side cap on the number of records one search call may return.
pub const SEARCH_LIMIT_MAX: i64 = 100;

/// A value bound to one `?` placeholder of a generated query.
#[derive(Debug)]
pub enum SqlParam {
    Text(String),
    Number(i64),
}

/// The mathematical model of one bound parameter.
pub enum ParamModel {
    Text(Seq<char>),
    Number(int),
}

impl View for SqlParam {
    type V = ParamModel;

    open spec fn view(&self) -> ParamModel {
        match self {
            SqlParam::Text(s) => ParamModel::Text(s@),
            SqlParam::Number(n) => ParamModel::Number(*n as int),
        }
    }
}

/// The models of a parameter list, in binding order.
pub open spec fn param_models(ps: Seq<SqlParam>) -> Seq<ParamModel> {
    ps.map_values(|p: SqlParam| p@)
}

/// One search request: a keyword (possibly blank), optional categorical
/// filters, and pagination bounds. Constructed per call and discarded after
/// the call returns.
pub struct SearchFilter {
    pub keyword: String,
    pub dynasty: Option<String>,
    pub tag: Option<String>,
    pub offset: i64,
    pub limit: i64,
}

/// Full-text mode is chosen exactly when the keyword has a significant
/// character, i.e. it does not trim to the empty string.
pub open spec fn keyword_active(k: Seq<char>) -> bool {
    !is_blank(k)
}

/// The dynasty filter applies when one was supplied and is non-empty.
pub open spec fn dynasty_active(d: Option<Seq<char>>) -> bool {
    d matches Some(s) && s.len() > 0
}

/// The tag filter applies when one was supplied and is non-empty.
pub open spec fn tag_active(t: Option<Seq<char>>) -> bool {
    t matches Some(s) && s.len() > 0
}

/// The tag value with every double-quote character removed, so that the value
/// cannot escape its quoted position inside the LIKE pattern.
pub open spec fn stripped_quotes(t: Seq<char>) -> Seq<char>
    decreases t.len(),
{
    if t.len() == 0 {
        Seq::empty()
    } else if t.last() == '"' {
        stripped_quotes(t.drop_last())
    } else {
        stripped_quotes(t.drop_last()).push(t.last())
    }
}

/// The LIKE pattern that tests membership of a tag in the serialized tag list:
/// the quoted tag token anywhere in the serialized form.
pub open spec fn tag_like_pattern(t: Seq<char>) -> Seq<char> {
    "%\""@ + stripped_quotes(t) + "\"%"@
}

/// The full-text query string: the spaced keyword wrapped as one quoted
/// phrase, so the index-time and query-time tokenizations coincide.
pub open spec fn fts_phrase(k: Seq<char>) -> Seq<char> {
    "\""@ + spaced(k) + "\""@
}

/// The limit actually applied: the requested limit, capped at the server-side
/// maximum.
pub open spec fn effective_limit(requested: int) -> int {
    if requested > SEARCH_LIMIT_MAX as int {
        SEARCH_LIMIT_MAX as int
    } else {
        requested
    }
}

pub open spec fn select_clause(kw: bool) -> Seq<char> {
    if kw {
        "SELECT p.id, p.title, p.author, p.dynasty, p.content_json, p.layout_strategy, p.tags, p.source FROM poetry p JOIN poetry_fts f ON p.id = f.id WHERE poetry_fts MATCH ?"@
    } else {
        "SELECT id, title, author, dynasty, content_json, layout_strategy, tags, source FROM poetry WHERE 1=1"@
    }
}

pub open spec fn dynasty_clause(kw: bool) -> Seq<char> {
    if kw {
        " AND p.dynasty = ?"@
    } else {
        " AND dynasty = ?"@
    }
}

pub open spec fn tag_clause(kw: bool) -> Seq<char> {
    if kw {
        " AND p.tags LIKE ?"@
    } else {
        " AND tags LIKE ?"@
    }
}

/// Filter-only mode orders by recency (most recently added first); full-text
/// mode orders by relevance rank.
pub open spec fn order_clause(kw: bool) -> Seq<char> {
    if kw {
        " ORDER BY rank LIMIT ? OFFSET ?"@
    } else {
        " ORDER BY created_at DESC LIMIT ? OFFSET ?"@
    }
}

/// The complete SQL text of a search: a function of which filters are present
/// alone, never of their values.
pub open spec fn query_sql(kw: bool, dy: bool, tg: bool) -> Seq<char> {
    select_clause(kw) + (if dy {
        dynasty_clause(kw)
    } else {
        Seq::empty()
    }) + (if tg {
        tag_clause(kw)
    } else {
        Seq::empty()
    }) + order_clause(kw)
}

pub open spec fn keyword_params(k: Seq<char>) -> Seq<ParamModel> {
    if keyword_active(k) {
        seq![ParamModel::Text(fts_phrase(k))]
    } else {
        Seq::empty()
    }
}

pub open spec fn dynasty_params(d: Option<Seq<char>>) -> Seq<ParamModel> {
    if dynasty_active(d) {
        seq![ParamModel::Text(d.unwrap())]
    } else {
        Seq::empty()
    }
}

pub open spec fn tag_params(t: Option<Seq<char>>) -> Seq<ParamModel> {
    if tag_active(t) {
        seq![ParamModel::Text(tag_like_pattern(t.unwrap()))]
    } else {
        Seq::empty()
    }
}

/// The bound parameters of a search, in binding order: the full-text phrase
/// when in full-text mode, the dynasty value, the tag LIKE pattern, then the
/// clamped limit and the offset.
pub open spec fn query_params(
    k: Seq<char>,
    d: Option<Seq<char>>,
    t: Option<Seq<char>>,
    limit: int,
    offset: int,
) -> Seq<ParamModel> {
    keyword_params(k) + dynasty_params(d) + tag_params(t) + seq![
        ParamModel::Number(effective_limit(limit)),
        ParamModel::Number(offset),
    ]
}

/// A generated query: the SQL text and its bound parameters.
pub struct BuiltQuery {
    pub sql: String,
    pub params: Vec<SqlParam>,
}

/// Removes every double-quote character from a tag filter value.
pub fn strip_quotes(t: &str) -> (r: String)
    ensures
        r@ == stripped_quotes(t@),
{
    let cs = crate::text::str_to_chars(t);
    let mut out: Vec<char> = Vec::new();
    let mut i: usize = 0;
    while i < cs.len()
        invariant
            0 <= i <= cs.len(),
            cs@ == t@,
            out@ == stripped_quotes(t@.take(i as int)),
        decreases cs.len() - i,
    {
        let c = cs[i];
        proof {
            assert(t@.take(i as int + 1).drop_last() =~= t@.take(i as int));
            assert(t@.take(i as int + 1).last() == t@[i as int]);
        }
        if !(c == '"') {
            out.push(c);
        }
        i += 1;
    }
    proof {
        assert(t@.take(cs@.len() as int) =~= t@);
    }
    crate::text::chars_to_string(&out)
}

/// Builds the LIKE pattern for a tag filter value.
pub fn build_tag_pattern(t: &str) -> (r: String)
    ensures
        r@ == tag_like_pattern(t@),
{
    let stripped = strip_quotes(t);
    let mut p = "%\"".to_owned();
    p.append(stripped.as_str());
    p.append("\"%");
    p
}

/// Builds the quoted exact-phrase full-text query for a keyword, applying the
/// same spacing transform that indexed strings undergo.
pub fn build_fts_phrase(keyword: &str) -> (r: String)
    ensures
        r@ == fts_phrase(keyword@),
{
    let spaced_keyword = add_spaces_to_chinese(keyword);
    let mut p = "\"".to_owned();
    p.append(spaced_keyword.as_str());
    p.append("\"");
    p
}

/// Clamps a requested limit to the server-side maximum.
pub fn clamp_limit(requested: i64) -> (r: i64)
    ensures
        r as int == effective_limit(requested as int),
{
    if requested > SEARCH_LIMIT_MAX {
        SEARCH_LIMIT_MAX
    } else {
        requested
    }
}

/// Builds the search query for a request: the SQL text depends only on which
/// filters are present; every filter value is bound as a parameter, the limit
/// is clamped, and the offset passes through.
pub fn build_search_query(filter: &SearchFilter) -> (r: BuiltQuery)
    requires
        filter.offset >= 0,
    ensures
        r.sql@ == query_sql(
            keyword_active(filter.keyword@),
            dynasty_active(filter.dynasty.deep_view()),
            tag_active(filter.tag.deep_view()),
        ),
        param_models(r.params@) == query_params(
            filter.keyword@,
            filter.dynasty.deep_view(),
            filter.tag.deep_view(),
            filter.limit as int,
            filter.offset as int,
        ),
{
    let kw = !str_is_blank(filter.keyword.as_str());
    let ghost kwa = keyword_active(filter.keyword@);
    let ghost dya = dynasty_active(filter.dynasty.deep_view());
    let ghost tga = tag_active(filter.tag.deep_view());

    let mut sql: String = if kw {
        "SELECT p.id, p.title, p.author, p.dynasty, p.content_json, p.layout_strategy, p.tags, p.source FROM poetry p JOIN poetry_fts f ON p.id = f.id WHERE poetry_fts MATCH ?".to_owned()
    } else {
        "SELECT id, title, author, dynasty, content_json, layout_strategy, tags, source FROM poetry WHERE 1=1".to_owned()
    };
    let mut params: Vec<SqlParam> = Vec::new();
    if kw {
        params.push(SqlParam::Text(build_fts_phrase(filter.keyword.as_str())));
    }
    proof {
        assert(sql@ == select_clause(kwa));
        assert(param_models(params@) =~= keyword_params(filter.keyword@));
    }

    let ghost sql1 = sql@;
    let ghost params1 = params@;
    match &filter.dynasty {
        Some(d) if !d.as_str().is_empty() => {
            if kw {
                sql.append(" AND p.dynasty = ?");
            } else {
                sql.append(" AND dynasty = ?");
            }
            params.push(SqlParam::Text(d.clone()));
        },
        _ => {},
    }
    proof {
        assert(dya ==> sql@ == sql1 + dynasty_clause(kwa));
        assert(!dya ==> sql@ =~= sql1 + Seq::<char>::empty());
        assert(param_models(params@) =~= param_models(params1) + dynasty_params(
            filter.dynasty.deep_view(),
        ));
    }

    let ghost sql2 = sql@;
    let ghost params2 = params@;
    match &filter.tag {
        Some(t) if !t.as_str().is_empty() => {
            if kw {
                sql.append(" AND p.tags LIKE ?");
            } else {
                sql.append(" AND tags LIKE ?");
            }
            params.push(SqlParam::Text(build_tag_pattern(t.as_str())));
        },
        _ => {},
    }
    proof {
        assert(tga ==> sql@ == sql2 + tag_clause(kwa));
        assert(!tga ==> sql@ =~= sql2 + Seq::<char>::empty());
        assert(param_models(params@) =~= param_models(params2) + tag_params(
            filter.tag.deep_view(),
        ));
    }

    if kw {
        sql.append(" ORDER BY rank LIMIT ? OFFSET ?");
    } else {
        sql.append(" ORDER BY created_at DESC LIMIT ? OFFSET ?");
    }
    params.push(SqlParam::Number(clamp_limit(filter.limit)));
    params.push(SqlParam::Number(filter.offset));
    proof {
        assert(sql@ == query_sql(kwa, dya, tga));
        assert(param_models(params@) =~= query_params(
            filter.keyword@,
            filter.dynasty.deep_view(),
            filter.tag.deep_view(),
            filter.limit as int,
            filter.offset as int,
        ));
    }
    BuiltQuery { sql, params }
}

/// The query mode is chosen by trimmed emptiness: full-text mode exactly when
/// the keyword does not trim to the empty string, and an active keyword
/// always contributes a non-empty token phrase to the full-text engine.
pub proof fn lemma_mode_choice(k: Seq<char>)
    ensures
        keyword_active(k) <==> crate::text::trimmed(k).len() != 0,
        keyword_active(k) ==> spaced(k).len() > 0,
{
    crate::text::lemma_blank_iff_trims_to_empty(k);
    if keyword_active(k) {
        crate::tokenize::lemma_nonblank_keeps_tokens(k);
    }
}

/// Pagination bound: a request above the maximum is capped at exactly the
/// maximum; a request at or below it is applied unchanged.
pub proof fn lemma_pagination_bound(requested: int)
    ensures
        requested > SEARCH_LIMIT_MAX as int ==> effective_limit(requested)
            == SEARCH_LIMIT_MAX as int,
        requested <= SEARCH_LIMIT_MAX as int ==> effective_limit(requested) == requested,
{
}

proof fn lemma_stripped_push(t: Seq<char>, c: char)
    ensures
        stripped_quotes(t.push(c)) == if c == '"' {
            stripped_quotes(t)
        } else {
            stripped_quotes(t).push(c)
        },
{
    assert(t.push(c).drop_last() =~= t);
    assert(t.push(c).last() == c);
}

proof fn lemma_stripped_no_quotes(t: Seq<char>)
    ensures
        forall|i: int|
            0 <= i < stripped_quotes(t).len() ==> #[trigger] stripped_quotes(t)[i] != '"',
    decreases t.len(),
{
    if t.len() > 0 {
        lemma_stripped_no_quotes(t.drop_last());
        let sd = stripped_quotes(t.drop_last());
        if t.last() != '"' {
            assert forall|i: int| 0 <= i < stripped_quotes(t).len() implies #[trigger] stripped_quotes(
                t,
            )[i] != '"' by {
                if i < sd.len() {
                    assert(stripped_quotes(t)[i] == sd[i]);
                } else {
                    assert(stripped_quotes(t)[i] == t.last());
                }
            }
        }
    }
}

proof fn lemma_stripped_idempotent(t: Seq<char>)
    ensures
        stripped_quotes(stripped_quotes(t)) == stripped_quotes(t),
    decreases t.len(),
{
    if t.len() > 0 {
        lemma_stripped_idempotent(t.drop_last());
        let sd = stripped_quotes(t.drop_last());
        if t.last() != '"' {
            lemma_stripped_push(sd, t.last());
        }
    }
}

/// Tag filter injection safety: the SQL text is a function of which filters
/// are present, never of their values, and the LIKE pattern built for a tag
/// value equals the pattern built for the same value with its quote
/// characters absent — a quote in the input cannot alter the structure of the
/// generated filter.
pub proof fn lemma_tag_filter_injection_safety(t: Seq<char>)
    ensures
        forall|i: int|
            0 <= i < stripped_quotes(t).len() ==> #[trigger] stripped_quotes(t)[i] != '"',
        tag_like_pattern(t) == tag_like_pattern(stripped_quotes(t)),
{
    lemma_stripped_no_quotes(t);
    lemma_stripped_idempotent(t);
}

} // verus!
