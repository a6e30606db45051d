use deepwiki_rs::browser::{interpret_render_output, render_script, trim_quotes, CompileError};

#[test]
fn browser_render_script_escapes_input() {
    assert_eq!(render_script("graph TB\na-->b"), "render('graph\\ TB\\na-->b')");
    assert_eq!(render_script("a\\b\t"), "render('a\\\\b\\t')");
    assert_eq!(render_script(""), "render('')");
}

#[test]
fn browser_output_null_is_compile_error() {
    assert_eq!(interpret_render_output("null"), Err(CompileError));
    assert_eq!(interpret_render_output("\"null\""), Err(CompileError));
    assert_eq!(CompileError.to_string(), "CompileError");
    assert_eq!(
        CompileError.description(),
        "Error occurred while compiling the diagram!"
    );
}

#[test]
fn browser_output_unescaped() {
    assert_eq!(
        interpret_render_output("\"<svg id=\\\"x\\\">\\n</svg>\""),
        Ok("<svg id=\"x\">\n</svg>".to_string())
    );
    assert_eq!(interpret_render_output("\"\\q\""), Ok(String::new()));
    assert_eq!(trim_quotes("\"\"a\"b\"\""), "a\"b");
}
