//! The text that goes to the headless browser to render a diagram, and the
//! reading of what comes back.
use vstd::prelude::*;
use crate::text::{chars_of, concat_str, str_eq, string_of_range};

verus! {

/// Error thrown when Mermaid is unable to compile the diagram.
#[derive(Debug, Clone, Copy, PartialEq, Eq, Structural)]
pub struct CompileError;

impl CompileError {
    /// "Error occurred while compiling the diagram!"
    pub fn description(&self) -> (r: &'static str)
        ensures
            r@ == "Error occurred while compiling the diagram!"@,
    {
        "Error occurred while compiling the diagram!"
    }

    /// "CompileError" (the `Display` form).
    pub fn to_string(&self) -> (r: String)
        ensures
            r@ == "CompileError"@,
    {
        "CompileError".to_owned()
    }
}

/// The character that follows a backslash in the escaped form of `c`, for
/// the characters that `escape_string::escape` escapes.
pub open spec fn escape_code(c: char) -> Option<char> {
    if c == '\u{07}' {
        Some('a')
    } else if c == '\u{08}' {
        Some('b')
    } else if c == '\t' {
        Some('t')
    } else if c == '\n' {
        Some('n')
    } else if c == '\u{0B}' {
        Some('v')
    } else if c == '\u{0C}' {
        Some('f')
    } else if c == '\r' {
        Some('r')
    } else if c == ' ' {
        Some(' ')
    } else if c == '\\' {
        Some('\\')
    } else {
        None
    }
}

/// `s` with each escaped character written as a backslash and its code.
pub open spec fn escaped(s: Seq<char>) -> Seq<char>
    decreases s.len(),
{
    if s.len() == 0 {
        Seq::empty()
    } else {
        escaped(s.drop_last()) + match escape_code(s.last()) {
            Some(code) => seq!['\\', code],
            None => seq![s.last()],
        }
    }
}

/// The escaped text holds no line break, carriage return or tab: the render
/// script built from it is a single line.
pub proof fn law_escaped_single_line(s: Seq<char>)
    ensures
        forall|k: int|
            0 <= k < escaped(s).len() ==> #[trigger] escaped(s)[k] != '\n' && escaped(s)[k] != '\r'
                && escaped(s)[k] != '\t',
    decreases s.len(),
{
    if s.len() > 0 {
        law_escaped_single_line(s.drop_last());
        let prev = escaped(s.drop_last());
        let piece = match escape_code(s.last()) {
            Some(code) => seq!['\\', code],
            None => seq![s.last()],
        };
        assert(escaped(s) == prev + piece);
        assert forall|k: int| 0 <= k < escaped(s).len() implies #[trigger] escaped(s)[k] != '\n'
            && escaped(s)[k] != '\r' && escaped(s)[k] != '\t' by {
            if k < prev.len() {
                assert(escaped(s)[k] == prev[k]);
            } else {
                assert(escaped(s)[k] == piece[k - prev.len()]);
            }
        }
    }
}

/// `escape_string::escape`: each BEL, BS, TAB, LF, VT, FF, CR, space and
/// backslash becomes a backslash followed by a, b, t, n, v, f, r, space and
/// backslash; every other character is kept.
#[verifier::external_body]
fn escape(text: &str) -> (r: String)
    ensures
        r@ == escaped(text@),
{
    escape_string::escape(text).into_owned()
}

/// What `unescape::unescape` returns for a text: its backslash escapes
/// resolved, or `None` when one is malformed.
pub uninterp spec fn unescape_result(s: Seq<char>) -> Option<Seq<char>>;

/// `unescape::unescape`. Its source copies every character other than a
/// backslash unchanged, so a text without backslash comes back as it is.
#[verifier::external_body]
fn unescape(text: &str) -> (r: Option<String>)
    ensures
        match r {
            Some(x) => unescape_result(text@) == Some(x@),
            None => unescape_result(text@) is None,
        },
        !text@.contains('\u{5C}') ==> r is Some && r->0@ == text@,
{
    unescape::unescape(text)
}

/// The script that renders `input`: `render('<input, escaped>')`.
pub open spec fn render_script_text(input: Seq<char>) -> Seq<char> {
    "render('"@ + escaped(input) + "')"@
}

/// Number of leading '"' of `s`.
pub open spec fn lead_quotes(s: Seq<char>) -> nat
    decreases s.len(),
{
    if s.len() > 0 && s[0] == '"' {
        1 + lead_quotes(s.drop_first())
    } else {
        0
    }
}

/// Number of trailing '"' of `s`.
pub open spec fn trail_quotes(s: Seq<char>) -> nat
    decreases s.len(),
{
    if s.len() > 0 && s.last() == '"' {
        1 + trail_quotes(s.drop_last())
    } else {
        0
    }
}

/// `s` without its leading and trailing '"' (`str::trim_matches('"')`).
pub open spec fn strip_quotes(s: Seq<char>) -> Seq<char> {
    let t = s.subrange(lead_quotes(s) as int, s.len() as int);
    t.subrange(0, t.len() - trail_quotes(t))
}

/// What a render returned, read from the text of the value the page gave
/// back: the text without its surrounding quotes and with its escapes
/// resolved (empty when they are malformed) is the output, unless it is
/// "null", which means the diagram did not compile.
pub open spec fn render_output(raw: Seq<char>) -> Result<Seq<char>, CompileError> {
    let slice = match unescape_result(strip_quotes(raw)) {
        Some(x) => x,
        None => Seq::empty(),
    };
    if slice == "null"@ {
        Err(CompileError)
    } else {
        Ok(slice)
    }
}

/// The script that renders a diagram.
pub fn render_script(input: &str) -> (r: String)
    ensures
        r@ == render_script_text(input@),
{
    let e = escape(input);
    let a = concat_str("render('", e.as_str());
    concat_str(a.as_str(), "')")
}

/// `s` without its leading and trailing '"'.
pub fn trim_quotes(s: &str) -> (r: String)
    ensures
        r@ == strip_quotes(s@),
{
    let cs = chars_of(s);
    let ghost t = cs@;
    let mut a: usize = 0;
    assert(t.subrange(0, t.len() as int) =~= t);
    while a < cs.len() && cs[a] == '"'
        invariant
            a <= cs@.len(),
            t == cs@,
            lead_quotes(t) == a + lead_quotes(t.subrange(a as int, t.len() as int)),
        decreases cs@.len() - a,
    {
        assert(t.subrange(a as int, t.len() as int).drop_first() =~= t.subrange(a + 1, t.len() as int));
        a = a + 1;
    }
    let ghost mid = t.subrange(a as int, t.len() as int);
    let mut b = cs.len();
    assert(mid.subrange(0, mid.len() as int) =~= mid);
    while b > a && cs[b - 1] == '"'
        invariant
            a <= b <= cs@.len(),
            t == cs@,
            mid == t.subrange(a as int, t.len() as int),
            trail_quotes(mid) == (cs@.len() - b) + trail_quotes(t.subrange(a as int, b as int)),
        decreases b - a,
    {
        assert(t.subrange(a as int, b as int).drop_last() =~= t.subrange(a as int, b - 1));
        b = b - 1;
    }
    assert(mid.subrange(0, mid.len() - trail_quotes(mid)) =~= t.subrange(a as int, b as int));
    string_of_range(cs.as_slice(), a, b)
}

/// Reads the text of the value that the page returned for a render.
pub fn interpret_render_output(raw: &str) -> (r: Result<String, CompileError>)
    ensures
        match r {
            Ok(x) => render_output(raw@) == Ok::<Seq<char>, CompileError>(x@),
            Err(e) => render_output(raw@) == Err::<Seq<char>, CompileError>(e),
        },
{
    let trimmed = trim_quotes(raw);
    let slice = match unescape(trimmed.as_str()) {
        Some(x) => x,
        None => String::new(),
    };
    if str_eq(slice.as_str(), "null") {
        return Err(CompileError);
    }
    Ok(slice)
}

} // verus!
