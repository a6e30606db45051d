use deepwiki_rs::utils::extract_mermaid_blocks;

#[test]
fn extract_single_block_with_positions() {
    let content = "# T\n```mermaid\ngraph TD\nA-->B\n```\ntext\n";
    let blocks = extract_mermaid_blocks(content);
    assert_eq!(blocks.len(), 1);
    assert_eq!(blocks[0].0, 4);
    assert_eq!(blocks[0].1, 34);
    assert_eq!(blocks[0].2, "graph TD\nA-->B");
    assert_eq!(&content[blocks[0].0..blocks[0].1], "```mermaid\ngraph TD\nA-->B\n```\n");
}

#[test]
fn extract_block_at_end_without_newline() {
    let content = "```mermaid\na\n```";
    let blocks = extract_mermaid_blocks(content);
    assert_eq!(blocks, vec![(0, content.len(), "a".to_string())]);
    assert_eq!(&content[blocks[0].0..blocks[0].1], content);
}

#[test]
fn extract_multiple_blocks_and_indented_fences() {
    let content = "x\n  ```mermaid  \nA\n\n  B\n ``` \n```mermaid\nC\n```\n";
    let blocks = extract_mermaid_blocks(content);
    assert_eq!(blocks.len(), 2);
    assert_eq!(blocks[0].2, "A\n\n  B");
    assert_eq!(blocks[1].2, "C");
    assert!(blocks[0].1 <= blocks[1].0);
    assert_eq!(blocks[0].0, 2);
}

#[test]
fn extract_unterminated_block_is_ignored() {
    let content = "```mermaid\nA\n```mermaid\nB\n";
    assert!(extract_mermaid_blocks(content).is_empty());
}

#[test]
fn extract_other_code_blocks_are_ignored() {
    let content = "```rust\nfn main() {}\n```\n";
    assert!(extract_mermaid_blocks(content).is_empty());
    assert!(extract_mermaid_blocks("").is_empty());
}

#[test]
fn extract_empty_block_body() {
    let blocks = extract_mermaid_blocks("```mermaid\n```\n");
    assert_eq!(blocks, vec![(0, 15, String::new())]);
}

#[test]
fn extract_crlf_uses_real_positions() {
    // Lines end with "\r\n": the offsets are the real byte positions.
    let content = "a\r\n```mermaid\r\nX\r\n```\r\ntail\r\n```mermaid\r\nY\r\n```";
    let blocks = extract_mermaid_blocks(content);
    assert_eq!(blocks.len(), 2);
    assert_eq!(blocks[0].0, 3);
    assert_eq!(&content[blocks[0].0..blocks[0].1], "```mermaid\r\nX\r\n```\r\n");
    assert_eq!(blocks[0].2, "X");
    assert_eq!(&content[blocks[1].0..blocks[1].1], "```mermaid\r\nY\r\n```");
    assert_eq!(blocks[1].1, content.len());
    assert_eq!(blocks[1].2, "Y");
}

#[test]
fn extract_counts_utf8_bytes() {
    let content = "é\n```mermaid\nß\n```\n";
    let blocks = extract_mermaid_blocks(content);
    assert_eq!(blocks[0].0, 3);
    assert_eq!(blocks[0].1, content.len());
    assert_eq!(blocks[0].2, "ß");
}
