use deepwiki_rs::processor::{summarize, FileProcessResult, FileTally};

#[test]
fn processor_tally_counts_and_replaces() {
    let mut t = FileTally::new("A\n```mermaid\nbad\n```\n```mermaid\nbad\n```\n".to_string());
    assert!(t.record_validation(false, false, true));
    t.record_fix("bad", "good", true);
    assert_eq!(t.content, "A\n```mermaid\ngood\n```\n```mermaid\ngood\n```\n");
    assert!(t.modified);
    assert!(!t.record_validation(true, false, true));
    assert!(t.record_validation(false, false, true));
    t.record_fix("other", "x", false);
    let r = t.result(3);
    assert_eq!(r, FileProcessResult { total_blocks: 3, invalid_blocks: 2, fixed_blocks: 1 });
}

#[test]
fn processor_dry_run_asks_no_fix() {
    let mut t = FileTally::new("x".to_string());
    assert!(!t.record_validation(false, true, true));
    assert!(!t.record_validation(false, false, false));
    assert_eq!(t.invalid_blocks, 2);
    assert!(!t.modified);
    assert_eq!(t.content, "x");
}

#[test]
fn processor_replace_with_empty_code_inserts_everywhere() {
    let mut t = FileTally::new("ab".to_string());
    t.record_fix("", "-", true);
    assert_eq!(t.content, "-a-b-");
}

#[test]
fn processor_summarize_totals() {
    let files = vec![
        FileProcessResult { total_blocks: 3, invalid_blocks: 2, fixed_blocks: 1 },
        FileProcessResult::empty(),
        FileProcessResult { total_blocks: 4, invalid_blocks: 1, fixed_blocks: 1 },
    ];
    let r = summarize(&files).unwrap();
    assert_eq!(r.total_files, 3);
    assert_eq!(r.total_mermaid_blocks, 7);
    assert_eq!(r.invalid_blocks, 3);
    assert_eq!(r.fixed_blocks, 2);
    let big = vec![
        FileProcessResult { total_blocks: usize::MAX, invalid_blocks: 0, fixed_blocks: 0 },
        FileProcessResult { total_blocks: 1, invalid_blocks: 0, fixed_blocks: 0 },
    ];
    assert!(summarize(&big).is_none());
    assert_eq!(summarize(&vec![]).unwrap().total_files, 0);
}
