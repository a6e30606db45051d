use deepwiki_rs::fixer::{AutoFixPlan, MermaidFixer};
use deepwiki_rs::i18n::TargetLanguage;

#[test]
fn fixer_plan_after_output() {
    assert_eq!(MermaidFixer::auto_fix_plan(false, true, true), AutoFixPlan::Disabled);
    assert_eq!(
        MermaidFixer::auto_fix_plan(true, false, true),
        AutoFixPlan::MissingOutputDirectory
    );
    assert_eq!(
        MermaidFixer::auto_fix_plan(true, true, false),
        AutoFixPlan::ChromiumUnavailable
    );
    assert_eq!(MermaidFixer::auto_fix_plan(true, true, true), AutoFixPlan::Run);
}

#[test]
fn fixer_model_and_error_message() {
    assert_eq!(MermaidFixer::fixer_model(Some("m1".to_string()), "big"), "m1");
    assert_eq!(MermaidFixer::fixer_model(None, "big"), "big");
    assert_eq!(
        MermaidFixer::error_message(&TargetLanguage::German, "boom"),
        "⚠️ Error occurred during mermaid diagram repair: boom"
    );
}
