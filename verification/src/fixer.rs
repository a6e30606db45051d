//! The decisions of the documentation generator around mermaid fixing:
//! whether to run it after output, with which model, and how errors read.
use vstd::prelude::*;
use crate::i18n::TargetLanguage;
use crate::text::{replace_all, replace_str};

verus! {

/// Mermaid diagram fixer integrated in-process via the mermaid-fixer library.
pub struct MermaidFixer;

/// What happens after the documentation has been written.
#[derive(Debug, Clone, Copy, PartialEq, Eq, Structural)]
pub enum AutoFixPlan {
    /// Fixing is not enabled: nothing happens.
    Disabled,
    /// The output directory does not exist: a warning, nothing else.
    MissingOutputDirectory,
    /// No Chromium/Chrome was found: a message, nothing else.
    ChromiumUnavailable,
    /// The charts of the output directory are fixed.
    Run,
}

/// The plan after output, checked in this order: enabled, output directory
/// present, Chromium found.
pub open spec fn auto_fix_plan_spec(enabled: bool, output_exists: bool, chromium_found: bool) -> AutoFixPlan {
    if !enabled {
        AutoFixPlan::Disabled
    } else if !output_exists {
        AutoFixPlan::MissingOutputDirectory
    } else if !chromium_found {
        AutoFixPlan::ChromiumUnavailable
    } else {
        AutoFixPlan::Run
    }
}

impl MermaidFixer {
    /// What `auto_fix_after_output` does, given whether fixing is enabled,
    /// whether the output directory exists and whether Chromium was found.
    pub fn auto_fix_plan(enabled: bool, output_exists: bool, chromium_found: bool) -> (r: AutoFixPlan)
        ensures
            r == auto_fix_plan_spec(enabled, output_exists, chromium_found),
    {
        if !enabled {
            AutoFixPlan::Disabled
        } else if !output_exists {
            AutoFixPlan::MissingOutputDirectory
        } else if !chromium_found {
            AutoFixPlan::ChromiumUnavailable
        } else {
            AutoFixPlan::Run
        }
    }

    /// The model used for fixing: the one configured for the fixer, else the
    /// powerful model of the LLM configuration.
    pub fn fixer_model(configured: Option<String>, model_powerful: &str) -> (r: String)
        ensures
            r@ == match configured {
                Some(m) => m@,
                None => model_powerful@,
            },
    {
        match configured {
            Some(m) => m,
            None => model_powerful.to_owned(),
        }
    }

    /// The message shown when fixing fails: the language's mermaid-error
    /// message with "{}" replaced by the error.
    pub fn error_message(language: &TargetLanguage, error: &str) -> (r: String)
        ensures
            r@ == replace_all("⚠️ Error occurred during mermaid diagram repair: {}"@, "{}"@, error@),
    {
        let msg = language.msg_mermaid_error();
        replace_str(msg, "{}", error)
    }
}

} // verus!
