use deepwiki_rs::markdown_scanner::{extension_of, EntryAction, MarkdownScanner};

#[test]
fn scanner_markdown_files() {
    let s = MarkdownScanner::new();
    assert!(s.is_markdown_file("README.md"));
    assert!(s.is_markdown_file("notes.MARKDOWN"));
    assert!(s.is_markdown_file("a.b.Md"));
    assert!(!s.is_markdown_file(".md"));
    assert!(!s.is_markdown_file("md"));
    assert!(!s.is_markdown_file("file.mdx"));
}

#[test]
fn scanner_extensions() {
    assert_eq!(extension_of("a.tar.gz"), Some("gz".to_string()));
    assert_eq!(extension_of("a."), Some(String::new()));
    assert_eq!(extension_of(".bashrc"), None);
    assert_eq!(extension_of(".."), None);
    assert_eq!(extension_of("noext"), None);
}

#[test]
fn scanner_skips_known_directories() {
    let s = MarkdownScanner::new();
    for d in [".git", "node_modules", "target", "__pycache__", "deps", "vendor"] {
        assert!(s.should_skip_directory(d));
        assert_eq!(s.classify_entry(Some(d), None, true, false), EntryAction::SkipDirectory);
    }
    assert!(!s.should_skip_directory("docs"));
    assert_eq!(s.classify_entry(Some("docs"), None, true, false), EntryAction::Descend);
    assert_eq!(s.classify_entry(None, None, true, false), EntryAction::Descend);
    assert_eq!(s.classify_entry(Some("a.md"), Some("md"), false, true), EntryAction::Collect);
    assert_eq!(s.classify_entry(Some("A.MarkDown"), Some("MarkDown"), false, true), EntryAction::Collect);
    assert_eq!(s.classify_entry(Some("a.rs"), Some("rs"), false, true), EntryAction::Ignore);
    assert_eq!(s.classify_entry(Some("README"), None, false, true), EntryAction::Ignore);
    // A file whose name is not valid Unicode is still collected by its extension.
    assert_eq!(s.classify_entry(None, Some("md"), false, true), EntryAction::Collect);
    assert_eq!(s.classify_entry(None, None, false, true), EntryAction::Ignore);
    assert_eq!(s.classify_entry(Some("a.md"), Some("md"), false, false), EntryAction::Ignore);
}
