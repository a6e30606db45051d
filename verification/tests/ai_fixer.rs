use deepwiki_rs::ai_fixer::{
    build_prompt, check_api_key, clean_response, extract_code_block, extract_fixed_code,
    first_choice_content, request_failed_message,
};

#[test]
fn fixer_api_key_required() {
    assert_eq!(
        check_api_key(""),
        Err("LLM API key is required for mermaid fixing".to_string())
    );
    assert_eq!(check_api_key("sk"), Ok(()));
}

#[test]
fn fixer_prompt_replaces_placeholder() {
    assert_eq!(
        build_prompt("Fix:\n{{MERMAID_CODE}}\nAgain {{MERMAID_CODE}}", "graph TD"),
        "Fix:\ngraph TD\nAgain graph TD"
    );
    assert_eq!(build_prompt("no placeholder", "x"), "no placeholder");
}

#[test]
fn fixer_clean_response_removes_fences() {
    assert_eq!(
        clean_response("  ```json\n{\"fixed_code\": \"a\"}\n```  "),
        "{\"fixed_code\": \"a\"}"
    );
    assert_eq!(clean_response("```\nA\nB\n```"), "A\nB");
    assert_eq!(clean_response("```\n```"), "```\n```");
    assert_eq!(clean_response("  plain  "), "plain");
}

#[test]
fn fixer_extract_code_block() {
    let reply = "Here:\n```mermaid\ngraph TD\n```mermaid\nA-->B\n```\ntrailing\n```";
    assert_eq!(extract_code_block(reply), Some("graph TD\nA-->B".to_string()));
    assert_eq!(extract_code_block("```mermaid\n```"), None);
    assert_eq!(extract_code_block("no block"), None);
    assert_eq!(
        extract_code_block("```\nx\n```mermaid\ny"),
        Some("y".to_string())
    );
}

#[test]
fn fixer_extract_fixed_code_prefers_parsed() {
    assert_eq!(
        extract_fixed_code(Some("from json".to_string()), "```mermaid\nA\n```"),
        "from json"
    );
    assert_eq!(extract_fixed_code(None, "```mermaid\nA\n```"), "A");
    assert_eq!(extract_fixed_code(None, "  graph LR  \n"), "graph LR");
}

#[test]
fn fixer_reply_errors() {
    assert_eq!(
        request_failed_message("quota"),
        "LLM API request failed: quota"
    );
    assert_eq!(
        first_choice_content(vec![]),
        Err("LLM API returned an empty response".to_string())
    );
    assert_eq!(
        first_choice_content(vec!["a".to_string(), "b".to_string()]),
        Ok("a".to_string())
    );
}
