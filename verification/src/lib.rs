pub mod text;
pub mod utils;
pub mod i18n;
pub mod directory_scoring;
pub mod mermaid_validator;
pub mod markdown_scanner;
pub mod browser;
pub mod ai_fixer;
pub mod processor;
pub mod fixer;
