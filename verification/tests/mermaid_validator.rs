use deepwiki_rs::mermaid_validator::{
    classify_lowered, MermaidErrorType, MermaidValidationError, MermaidValidator, RenderOutcome,
    RetryDecision,
};

fn validator() -> MermaidValidator {
    MermaidValidator::with_config(true, Some(30)).expect("validator init")
}

#[test]
fn validator_needs_chromium() {
    let err = MermaidValidator::with_config(false, Some(30)).err();
    assert_eq!(err, Some("Chromium/Chrome executable not found".to_string()));
    let v = MermaidValidator::with_config(true, None).ok().unwrap();
    assert_eq!(v.timeout_seconds, 30);
    let v = MermaidValidator::with_config(true, Some(5)).ok().unwrap();
    assert_eq!(v.timeout_seconds, 5);
    v.reset_connection();
}

#[test]
fn validator_refuses_empty_code() {
    let v = validator();
    assert!(matches!(v.prepare("  \n\t "), Err(MermaidValidationError::EmptyCode)));
    assert_eq!(
        MermaidValidationError::EmptyCode.to_string(),
        "Mermaid code is empty"
    );
}

#[test]
fn validator_preprocesses_code() {
    let v = validator();
    let code = "  graph TD\n\n%% comment\n   A --> B  \n\t%%x\n";
    assert_eq!(v.preprocess_code(code), "graph TD\nA --> B");
    assert_eq!(v.prepare(code).ok().unwrap(), "graph TD\nA --> B");
    assert_eq!(v.preprocess_code(""), "");
}

#[test]
fn preprocessing_twice_changes_nothing() {
    let v = validator();
    let code = "flowchart LR\r\n  a\rb --> c  \r\n%% note\n\n  d-->e\n";
    let once = v.preprocess_code(code);
    assert_eq!(once, "flowchart LR\na\rb --> c\nd-->e");
    assert_eq!(v.preprocess_code(&once), once);
}

#[test]
fn validator_classifies_errors() {
    let v = validator();
    assert_eq!(v.classify_error("Parse error on line 2"), MermaidErrorType::SyntaxError);
    assert_eq!(v.classify_error("Unknown VERTEX A"), MermaidErrorType::NodeError);
    assert_eq!(v.classify_error("bad Arrow"), MermaidErrorType::EdgeError);
    assert_eq!(v.classify_error("No diagram type detected"), MermaidErrorType::GraphStructureError);
    assert_eq!(v.classify_error("classDef broken"), MermaidErrorType::StyleError);
    assert_eq!(v.classify_error("timeout"), MermaidErrorType::Unknown);
    assert_eq!(classify_lowered("syntax and node"), MermaidErrorType::SyntaxError);
    assert_eq!(classify_lowered("SYNTAX"), MermaidErrorType::Unknown);
}

#[test]
fn validator_recognizes_lost_connection() {
    assert!(MermaidValidator::is_connection_closed_error(
        "Error: the underlying connection is closed"
    ));
    assert!(!MermaidValidator::is_connection_closed_error("CompileError"));
}

#[test]
fn validator_retry_decisions() {
    let v = validator();
    match v.retry_step(0, 3, RenderOutcome::StartFailed("no chrome".to_string()), "x") {
        RetryDecision::Retry { last_error } => assert_eq!(last_error, "no chrome"),
        _ => panic!("expected a retry"),
    }
    match v.retry_step(2, 3, RenderOutcome::StartFailed("no chrome".to_string()), "x") {
        RetryDecision::Finish(Err(MermaidValidationError::RenderError {
            message,
            error_type,
            original_code,
        })) => {
            assert_eq!(message, "no chrome");
            assert_eq!(error_type, MermaidErrorType::Unknown);
            assert_eq!(original_code, "x");
        }
        _ => panic!("expected a render error"),
    }
    assert!(matches!(
        v.retry_step(1, 3, RenderOutcome::Rendered, "x"),
        RetryDecision::Finish(Ok(()))
    ));
    let lost = "the underlying connection is closed".to_string();
    assert!(matches!(
        v.retry_step(1, 3, RenderOutcome::RenderFailed(lost.clone()), "x"),
        RetryDecision::Retry { .. }
    ));
    match v.retry_step(2, 3, RenderOutcome::RenderFailed(lost), "x") {
        RetryDecision::Finish(Err(MermaidValidationError::RenderError { error_type, .. })) => {
            assert_eq!(error_type, MermaidErrorType::Unknown)
        }
        _ => panic!("expected a render error"),
    }
    match v.retry_step(0, 3, RenderOutcome::RenderFailed("Parse error".to_string()), "x") {
        RetryDecision::Finish(Err(e)) => {
            assert_eq!(e.to_string(), "Mermaid render error (SyntaxError): Parse error")
        }
        _ => panic!("expected a render error"),
    }
    match v.attempts_exhausted(String::new(), "y") {
        Err(MermaidValidationError::RenderError { message, error_type, original_code }) => {
            assert_eq!(message, "");
            assert_eq!(error_type, MermaidErrorType::Unknown);
            assert_eq!(original_code, "y");
        }
        _ => panic!("expected a render error"),
    }
}
