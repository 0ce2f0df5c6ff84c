use vault_search::engine::{
    classify_query_fault, next_usage, usage_from_rows, EngineError, SearchResult,
};
use vault_search::ranking::{best_first, cap_results, rank_order, rank_results};
use vault_search::query::{is_blank, match_expression, plain_char};
use vault_search::scan::{
    candidate, derive_title, is_indexable, select_candidates, FileText, ScannedFile,
};

fn file(path: &str, name: &str, content: FileText) -> ScannedFile {
    ScannedFile { path: path.to_string(), file_name: name.to_string(), content }
}

fn hit(i: u64) -> SearchResult {
    SearchResult {
        id: format!("id{}", i),
        path: format!("/p/{}", i),
        title: format!("t{}", i),
        preview: String::new(),
        score_bits: i,
    }
}

#[test]
fn only_markdown_names_qualify() {
    assert!(is_indexable("a.md"));
    assert!(is_indexable("notes.2024.md"));
    assert!(is_indexable("x.md.md"));
    assert!(is_indexable("n\u{e9}e.md"));
    assert!(!is_indexable(".md"));
    assert!(!is_indexable("md"));
    assert!(!is_indexable(""));
    assert!(!is_indexable("a.MD"));
    assert!(!is_indexable("a.md.txt"));
    assert!(!is_indexable("a.mdx"));
    assert!(!is_indexable("amd"));
    assert!(!is_indexable("readme"));
}

#[test]
fn title_is_the_name_without_extension() {
    assert_eq!(derive_title("a.md"), "a");
    assert_eq!(derive_title("Project Plan.md"), "Project Plan");
    assert_eq!(derive_title("x.md.md"), "x.md");
    assert_eq!(derive_title("n\u{e9}e.md"), "n\u{e9}e");
    assert_eq!(derive_title("plain"), "plain");
    assert_eq!(derive_title(".md"), ".md");
}

#[test]
fn candidate_carries_path_title_and_text() {
    let doc = candidate(&file("/v/a.md", "a.md", FileText::Read("body".to_string()))).unwrap();
    assert_eq!(doc.id, "/v/a.md");
    assert_eq!(doc.path, "/v/a.md");
    assert_eq!(doc.title, "a");
    assert_eq!(doc.content, "body");
    assert_eq!(doc.tags, "");

    let doc = candidate(&file("/v/b.md", "b.md", FileText::Unreadable)).unwrap();
    assert_eq!(doc.content, "");

    assert!(candidate(&file("/v/c.txt", "c.txt", FileText::Read("body".to_string()))).is_none());
}

#[test]
fn candidates_keep_scan_order() {
    let files = vec![
        file("/v/z.md", "z.md", FileText::Read("1".to_string())),
        file("/v/skip.txt", "skip.txt", FileText::Read("2".to_string())),
        file("/v/a.md", "a.md", FileText::Unreadable),
        file("/v/dir", "dir", FileText::Unreadable),
    ];
    let docs = select_candidates(&files);
    assert_eq!(docs.len(), 2);
    assert_eq!(docs[0].id, "/v/z.md");
    assert_eq!(docs[1].id, "/v/a.md");
    assert!(select_candidates(&Vec::new()).is_empty());
}

#[test]
fn results_are_capped_in_order() {
    let many: Vec<SearchResult> = (0..30).map(hit).collect();
    let capped = cap_results(many);
    assert_eq!(capped.len(), 25);
    for (i, r) in capped.iter().enumerate() {
        assert_eq!(r.score_bits, i as u64);
        assert_eq!(r.id, format!("id{}", i));
    }
    let few: Vec<SearchResult> = (0..3).map(hit).collect();
    assert_eq!(cap_results(few).len(), 3);
    let exact: Vec<SearchResult> = (0..25).map(hit).collect();
    assert_eq!(cap_results(exact).len(), 25);
    assert!(cap_results(Vec::new()).is_empty());
}

#[test]
fn rejected_expression_is_told_from_store_failure() {
    match classify_query_fault(Some(1), "fts5: syntax error".to_string()) {
        EngineError::Query(m) => assert_eq!(m, "fts5: syntax error"),
        other => panic!("{:?}", other),
    }
    match classify_query_fault(Some(13), "database or disk is full".to_string()) {
        EngineError::Storage(m) => assert_eq!(m, "database or disk is full"),
        other => panic!("{:?}", other),
    }
    assert!(matches!(classify_query_fault(Some(257), String::new()), EngineError::Storage(_)));
    assert!(matches!(classify_query_fault(None, String::new()), EngineError::Storage(_)));
}

#[test]
fn usage_is_read_from_the_first_row() {
    assert!(usage_from_rows("a", &Vec::new()).is_none());
    let record = usage_from_rows("a", &vec![(3, 1700)]).unwrap();
    assert_eq!(record.item_id, "a");
    assert_eq!(record.usage_count, 3);
    assert_eq!(record.last_accessed, 1700);
}

#[test]
fn failures_render_as_text() {
    assert_eq!(EngineError::Storage("disk".to_string()).message(), "disk");
    assert_eq!(EngineError::Query("syntax".to_string()).message(), "syntax");
    assert_eq!(EngineError::NotInitialized.message(), "Search engine not initialized");
}

#[test]
fn plain_characters() {
    for c in ['a', 'z', 'A', 'Z', '0', '9', '_', '-', ' ', '\u{e9}', '\u{80}'] {
        assert!(plain_char(c), "{:?}", c);
    }
    for c in ['"', '*', ':', '(', ')', '+', '^', '.', '\t', '\u{7f}', '/', '@', '[', '`', '{'] {
        assert!(!plain_char(c), "{:?}", c);
    }
}

#[test]
fn only_hyphenated_plain_text_is_quoted() {
    assert_eq!(match_expression("nonexistent-term-xyz"), "\"nonexistent-term-xyz\"");
    assert_eq!(match_expression("pre-release notes"), "\"pre-release notes\"");
    assert_eq!(match_expression("-"), "\"-\"");
    assert_eq!(match_expression("rollout"), "rollout");
    assert_eq!(match_expression("rollout OR grocery"), "rollout OR grocery");
    assert_eq!(match_expression("\"unbalanced"), "\"unbalanced");
    assert_eq!(match_expression("\"pre-release\""), "\"pre-release\"");
    assert_eq!(match_expression("-title:plan"), "-title:plan");
    assert_eq!(match_expression("roll*"), "roll*");
    assert_eq!(match_expression(""), "");
}

fn scored(id: &str, score: f64) -> SearchResult {
    SearchResult {
        id: id.to_string(),
        path: String::new(),
        title: String::new(),
        preview: String::new(),
        score_bits: score.to_bits(),
    }
}

#[test]
fn rank_key_orders_as_the_reals() {
    let values = [
        f64::NEG_INFINITY,
        -1.0e300,
        -12.5,
        -1.0,
        -1.0e-7,
        -0.0,
        0.0,
        1.0e-7,
        0.5,
        1.0,
        3.25,
        1.0e300,
        f64::INFINITY,
    ];
    for pair in values.windows(2) {
        assert!(rank_order(pair[0].to_bits()) < rank_order(pair[1].to_bits()));
    }
    assert_eq!(rank_order(0), 0x8000_0000_0000_0000);
    assert_eq!(rank_order(0x8000_0000_0000_0000), 0x7fff_ffff_ffff_ffff);
    assert_eq!(rank_order(u64::MAX), 0);
    assert_eq!(rank_order(0x7fff_ffff_ffff_ffff), u64::MAX);
}

#[test]
fn best_match_comes_first() {
    let hits = vec![
        scored("c", -0.5),
        scored("a", -3.0),
        scored("d", 0.25),
        scored("b", -1.5),
        scored("b2", -1.5),
    ];
    let ordered = best_first(hits);
    let ids: Vec<&str> = ordered.iter().map(|r| r.id.as_str()).collect();
    assert_eq!(ids, vec!["a", "b", "b2", "c", "d"]);
    assert!(best_first(Vec::new()).is_empty());
}

#[test]
fn ranking_keeps_the_best_twenty_five() {
    let mut hits = Vec::new();
    for i in 0..40 {
        hits.push(scored(&format!("n{}", i), -(i as f64)));
    }
    let results = rank_results(hits);
    assert_eq!(results.len(), 25);
    for (k, r) in results.iter().enumerate() {
        assert_eq!(r.id, format!("n{}", 39 - k));
        assert_eq!(f64::from_bits(r.score_bits), -((39 - k) as f64));
    }
    let few = rank_results(vec![scored("x", -1.0), scored("y", -2.0)]);
    assert_eq!(few.len(), 2);
    assert_eq!(few[0].id, "y");
    assert_eq!(few[1].id, "x");
}

#[test]
fn blank_queries() {
    assert!(is_blank(""));
    assert!(is_blank(" "));
    assert!(is_blank(" \t\n\r"));
    assert!(!is_blank("a"));
    assert!(!is_blank("  a "));
    assert!(!is_blank("-"));
    assert!(!is_blank("\u{a0}"));
}

#[test]
fn ordered_list_is_left_alone() {
    let hits = vec![scored("a", -3.0), scored("b", -3.0), scored("c", -1.0), scored("d", 2.0)];
    let ordered = best_first(hits);
    let ids: Vec<&str> = ordered.iter().map(|r| r.id.as_str()).collect();
    assert_eq!(ids, vec!["a", "b", "c", "d"]);
}

#[test]
fn next_usage_counts_one_more() {
    let first = next_usage("a", &Vec::new(), 50);
    assert_eq!(first.item_id, "a");
    assert_eq!(first.usage_count, 1);
    assert_eq!(first.last_accessed, 50);

    let later = next_usage("a", &vec![(3, 50)], 70);
    assert_eq!(later.item_id, "a");
    assert_eq!(later.usage_count, 4);
    assert_eq!(later.last_accessed, 70);

    let from_zero = next_usage("a", &vec![(0, 0)], -1);
    assert_eq!(from_zero.usage_count, 1);
    assert_eq!(from_zero.last_accessed, -1);

    let full = next_usage("a", &vec![(i64::MAX, 1)], 2);
    assert_eq!(full.usage_count, i64::MAX);
    assert_eq!(full.last_accessed, 2);

    let only_first = next_usage("a", &vec![(5, 1), (9, 9)], 3);
    assert_eq!(only_first.usage_count, 6);
}
