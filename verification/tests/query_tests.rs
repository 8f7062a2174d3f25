use liumo_core::query::{
    build_fts_phrase, build_search_query, build_tag_pattern, clamp_limit, strip_quotes,
    SearchFilter, SqlParam, SEARCH_LIMIT_MAX,
};

fn text_param(p: &SqlParam) -> &str {
    match p {
        SqlParam::Text(s) => s.as_str(),
        other => panic!("expected a text parameter, got {:?}", other),
    }
}

fn number_param(p: &SqlParam) -> i64 {
    match p {
        SqlParam::Number(n) => *n,
        other => panic!("expected a numeric parameter, got {:?}", other),
    }
}

#[test]
fn filter_only_mode_with_dynasty() {
    let q = build_search_query(&SearchFilter {
        keyword: String::new(),
        dynasty: Some(String::from("唐")),
        tag: None,
        offset: 0,
        limit: 10,
    });
    assert_eq!(
        q.sql,
        "SELECT id, title, author, dynasty, content_json, layout_strategy, tags, source \
         FROM poetry WHERE 1=1 AND dynasty = ? ORDER BY created_at DESC LIMIT ? OFFSET ?"
    );
    assert_eq!(q.params.len(), 3);
    assert_eq!(text_param(&q.params[0]), "唐");
    assert_eq!(number_param(&q.params[1]), 10);
    assert_eq!(number_param(&q.params[2]), 0);
}

#[test]
fn full_text_mode_spaces_and_quotes_the_keyword() {
    let q = build_search_query(&SearchFilter {
        keyword: String::from("明月"),
        dynasty: None,
        tag: None,
        offset: 5,
        limit: 20,
    });
    assert_eq!(
        q.sql,
        "SELECT p.id, p.title, p.author, p.dynasty, p.content_json, p.layout_strategy, \
         p.tags, p.source FROM poetry p JOIN poetry_fts f ON p.id = f.id \
         WHERE poetry_fts MATCH ? ORDER BY rank LIMIT ? OFFSET ?"
    );
    assert_eq!(q.params.len(), 3);
    assert_eq!(text_param(&q.params[0]), "\"明 月\"");
    assert_eq!(number_param(&q.params[1]), 20);
    assert_eq!(number_param(&q.params[2]), 5);
}

#[test]
fn blank_keyword_uses_filter_only_mode() {
    let q = build_search_query(&SearchFilter {
        keyword: String::from("  \t "),
        dynasty: None,
        tag: None,
        offset: 0,
        limit: 10,
    });
    assert!(q.sql.starts_with("SELECT id,"));
    assert_eq!(q.params.len(), 2);
}

#[test]
fn empty_optional_filters_are_ignored() {
    let q = build_search_query(&SearchFilter {
        keyword: String::new(),
        dynasty: Some(String::new()),
        tag: Some(String::new()),
        offset: 0,
        limit: 10,
    });
    assert!(!q.sql.contains("dynasty = ?"));
    assert!(!q.sql.contains("LIKE"));
    assert_eq!(q.params.len(), 2);
}

#[test]
fn all_filters_compose_in_full_text_mode() {
    let q = build_search_query(&SearchFilter {
        keyword: String::from("月"),
        dynasty: Some(String::from("唐")),
        tag: Some(String::from("唐诗三百首")),
        offset: 0,
        limit: 10,
    });
    assert!(q.sql.contains("WHERE poetry_fts MATCH ?"));
    assert!(q.sql.contains(" AND p.dynasty = ?"));
    assert!(q.sql.contains(" AND p.tags LIKE ?"));
    assert!(q.sql.ends_with(" ORDER BY rank LIMIT ? OFFSET ?"));
    assert_eq!(q.params.len(), 5);
    assert_eq!(text_param(&q.params[0]), "\"月\"");
    assert_eq!(text_param(&q.params[1]), "唐");
    assert_eq!(text_param(&q.params[2]), "%\"唐诗三百首\"%");
    assert_eq!(number_param(&q.params[3]), 10);
    assert_eq!(number_param(&q.params[4]), 0);
}

#[test]
fn limit_above_maximum_is_clamped_to_exactly_the_maximum() {
    assert_eq!(SEARCH_LIMIT_MAX, 100);
    let q = build_search_query(&SearchFilter {
        keyword: String::new(),
        dynasty: None,
        tag: None,
        offset: 0,
        limit: 500,
    });
    assert_eq!(number_param(&q.params[0]), 100);
}

#[test]
fn limit_at_or_below_maximum_passes_through() {
    assert_eq!(clamp_limit(100), 100);
    assert_eq!(clamp_limit(101), 100);
    assert_eq!(clamp_limit(99), 99);
    assert_eq!(clamp_limit(0), 0);
    let q = build_search_query(&SearchFilter {
        keyword: String::new(),
        dynasty: None,
        tag: None,
        offset: 7,
        limit: 42,
    });
    assert_eq!(number_param(&q.params[0]), 42);
    assert_eq!(number_param(&q.params[1]), 7);
}

#[test]
fn quotes_are_stripped_from_tag_filters() {
    assert_eq!(strip_quotes("唐\"诗"), "唐诗");
    assert_eq!(strip_quotes("\"\"\""), "");
    assert_eq!(strip_quotes("plain"), "plain");
}

#[test]
fn tag_pattern_wraps_the_stripped_value() {
    assert_eq!(build_tag_pattern("唐诗三百首"), "%\"唐诗三百首\"%");
    assert_eq!(build_tag_pattern("唐\"诗"), "%\"唐诗\"%");
    // A quoted injection attempt matches exactly as its quote-free form.
    assert_eq!(build_tag_pattern("x\" OR \"1"), build_tag_pattern("x OR 1"));
}

#[test]
fn fts_phrase_is_the_spaced_keyword_quoted() {
    assert_eq!(build_fts_phrase("床前明月光"), "\"床 前 明 月 光\"");
    assert_eq!(build_fts_phrase("a b"), "\"a b\"");
}

#[test]
fn quoted_tag_filter_binds_one_parameter() {
    let q = build_search_query(&SearchFilter {
        keyword: String::new(),
        dynasty: None,
        tag: Some(String::from("唐\"诗")),
        offset: 0,
        limit: 10,
    });
    // The quote cannot reach the SQL text: it is confined to one bound
    // parameter, already stripped.
    assert!(!q.sql.contains('"'));
    assert_eq!(q.params.len(), 3);
    assert_eq!(text_param(&q.params[0]), "%\"唐诗\"%");
}
