use hotshot::metadata::{
    contains_str, find_by_prefix, starts_with, FindOutcome, Metadata,
};

fn sample() -> Metadata {
    Metadata::new(
        "20260207-101530-00ff".to_string(),
        "/data/shots/20260207-101530-00ff.png".to_string(),
        "2026-02-07T10:15:30Z".to_string(),
        1920,
        1080,
        "png".to_string(),
        "fullscreen".to_string(),
        "x11".to_string(),
    )
}

#[test]
fn new_metadata_starts_without_tags_or_notes() {
    let m = sample();
    assert_eq!(m.id, "20260207-101530-00ff");
    assert_eq!(m.width, 1920);
    assert_eq!(m.file_size, 0);
    assert!(m.tags.is_empty());
    assert!(m.notes.is_empty());
}

#[test]
fn add_tags_normalises_and_deduplicates() {
    let mut m = sample();
    m.add_tags(&vec![
        " Work ".to_string(),
        "BUG".to_string(),
        "work".to_string(),
        "  ".to_string(),
    ]);
    assert_eq!(m.tags, vec!["work".to_string(), "bug".to_string()]);
}

#[test]
fn remove_tags_drops_the_normalised_names() {
    let mut m = sample();
    m.add_tags(&vec!["work".to_string(), "bug".to_string(), "later".to_string()]);
    m.remove_tags(&vec![" BUG ".to_string()]);
    assert_eq!(m.tags, vec!["work".to_string(), "later".to_string()]);
}

#[test]
fn queries_match_tags_notes_and_id() {
    let mut m = sample();
    m.add_tags(&vec!["screenshots".to_string()]);
    m.notes = "about the Billing page".to_string();
    assert!(m.matches_query("shot"));
    assert!(m.matches_query("BILLING"));
    assert!(m.matches_query("00ff"));
    assert!(!m.matches_query("unrelated"));
}

#[test]
fn prefix_lookup_distinguishes_its_three_outcomes() {
    let ids = vec![
        "20260207-aaaa".to_string(),
        "20260207-bbbb".to_string(),
        "20260101-cccc".to_string(),
    ];
    assert_eq!(find_by_prefix(&ids, "20260207-bb"), FindOutcome::Unique { index: 1 });
    assert_eq!(find_by_prefix(&ids, "20260207"), FindOutcome::Ambiguous { count: 2 });
    assert_eq!(find_by_prefix(&ids, "2027"), FindOutcome::NotFound);
    assert_eq!(find_by_prefix(&Vec::new(), ""), FindOutcome::NotFound);
}

#[test]
fn substring_and_prefix_helpers() {
    assert!(contains_str("hello world", "o w"));
    assert!(contains_str("hello", ""));
    assert!(!contains_str("hello", "world"));
    assert!(starts_with("hello", "he"));
    assert!(!starts_with("hello", "lo"));
    assert!(starts_with("hello", ""));
}
