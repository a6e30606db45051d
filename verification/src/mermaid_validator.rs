//! Validation of mermaid code: the checks and clean-up before rendering, the
//! classification of render errors, and the retry decisions around a render.
use vstd::prelude::*;
use crate::text::{
    ascii_lowercase, is_ascii_text, chars_of, concat_str, contains, is_trimmed_line, join, join_ranges, lemma_lines_no_nl,
    lemma_lines_of_joined, lemma_trim_fixed, lemma_trim_shape, line_ranges, lines, lowercase,
    no_nl, range_contains, range_starts_with, ranges_view, starts_with, to_lowercase, trim,
    trim_bounds,
};

verus! {

#[derive(Debug, Clone, Copy, PartialEq, Eq, Structural)]
pub enum MermaidErrorType {
    SyntaxError,
    NodeError,
    EdgeError,
    GraphStructureError,
    StyleError,
    Unknown,
}

#[derive(Debug, Clone)]
pub enum MermaidValidationError {
    EmptyCode,
    RenderError { message: String, error_type: MermaidErrorType, original_code: String },
}

/// What the renderer reported for one attempt.
pub enum RenderOutcome {
    /// The renderer could not be started; the text of its error.
    StartFailed(String),
    /// The diagram rendered.
    Rendered,
    /// The diagram did not render; the text of the error.
    RenderFailed(String),
}

/// What to do after an attempt.
pub enum RetryDecision {
    /// Pause, then try again; the error of this attempt.
    Retry { last_error: String },
    /// Stop with this result.
    Finish(Result<(), MermaidValidationError>),
}

pub struct MermaidValidator {
    pub timeout_seconds: u64,
}

/// The name of an error type, as `Debug` prints it.
pub open spec fn error_type_name(t: MermaidErrorType) -> Seq<char> {
    match t {
        MermaidErrorType::SyntaxError => "SyntaxError"@,
        MermaidErrorType::NodeError => "NodeError"@,
        MermaidErrorType::EdgeError => "EdgeError"@,
        MermaidErrorType::GraphStructureError => "GraphStructureError"@,
        MermaidErrorType::StyleError => "StyleError"@,
        MermaidErrorType::Unknown => "Unknown"@,
    }
}

/// The message of a validation error (its `Display` form).
pub open spec fn validation_error_text(e: MermaidValidationError) -> Seq<char> {
    match e {
        MermaidValidationError::EmptyCode => "Mermaid code is empty"@,
        MermaidValidationError::RenderError { message, error_type, .. } => "Mermaid render error ("@
            + error_type_name(error_type) + "): "@ + message@,
    }
}

/// The error type that an already lowercased error message indicates.
pub open spec fn classify_lowered_spec(lower: Seq<char>) -> MermaidErrorType {
    if contains(lower, "syntax"@) || contains(lower, "parse"@) {
        MermaidErrorType::SyntaxError
    } else if contains(lower, "node"@) || contains(lower, "vertex"@) {
        MermaidErrorType::NodeError
    } else if contains(lower, "edge"@) || contains(lower, "arrow"@) || contains(lower, "link"@) {
        MermaidErrorType::EdgeError
    } else if contains(lower, "graph"@) || contains(lower, "diagram"@) {
        MermaidErrorType::GraphStructureError
    } else if contains(lower, "style"@) || contains(lower, "class"@) {
        MermaidErrorType::StyleError
    } else {
        MermaidErrorType::Unknown
    }
}

/// The trimmed lines that are kept for rendering: non-empty and not a
/// "%%" comment.
pub open spec fn code_lines(ls: Seq<Seq<char>>) -> Seq<Seq<char>>
    decreases ls.len(),
{
    if ls.len() == 0 {
        Seq::empty()
    } else {
        let rest = code_lines(ls.drop_last());
        let t = trim(ls.last());
        if t.len() > 0 && !starts_with(t, "%%"@) {
            rest.push(t)
        } else {
            rest
        }
    }
}

/// The code as it is handed to the renderer.
pub open spec fn preprocessed(code: Seq<char>) -> Seq<char> {
    join(code_lines(lines(code)), seq!['\n'])
}

/// A line that preprocessing keeps as it is.
pub open spec fn is_code_line(t: Seq<char>) -> bool {
    is_trimmed_line(t) && !starts_with(t, "%%"@)
}

/// The lines that preprocessing keeps from lines without line feeds are
/// lines that it would keep as they are.
proof fn lemma_code_lines_clean(ls: Seq<Seq<char>>)
    requires
        forall|q: int| 0 <= q < ls.len() ==> no_nl(#[trigger] ls[q]),
    ensures
        forall|q: int| 0 <= q < code_lines(ls).len() ==> is_code_line(#[trigger] code_lines(ls)[q]),
    decreases ls.len(),
{
    if ls.len() > 0 {
        let init = ls.drop_last();
        assert forall|q: int| 0 <= q < init.len() implies no_nl(#[trigger] init[q]) by {
            assert(init[q] == ls[q]);
        }
        lemma_code_lines_clean(init);
        let t = trim(ls.last());
        if t.len() > 0 && !starts_with(t, "%%"@) {
            lemma_trim_shape(ls.last());
            let rest = code_lines(init);
            assert forall|q: int| 0 <= q < rest.push(t).len() implies is_code_line(
                #[trigger] rest.push(t)[q],
            ) by {
                if q < rest.len() {
                    assert(rest.push(t)[q] == rest[q]);
                }
            }
        }
    }
}

/// Lines that preprocessing keeps as they are pass through it unchanged.
proof fn lemma_code_lines_fixed(ls: Seq<Seq<char>>)
    requires
        forall|q: int| 0 <= q < ls.len() ==> is_code_line(#[trigger] ls[q]),
    ensures
        code_lines(ls) == ls,
    decreases ls.len(),
{
    if ls.len() > 0 {
        let init = ls.drop_last();
        assert forall|q: int| 0 <= q < init.len() implies is_code_line(#[trigger] init[q]) by {
            assert(init[q] == ls[q]);
        }
        lemma_code_lines_fixed(init);
        assert(is_code_line(ls.last()));
        lemma_trim_fixed(ls.last());
        assert(init.push(ls.last()) =~= ls);
    }
}

/// Preprocessing is idempotent: code that was preprocessed once comes out
/// of a second preprocessing unchanged.
pub proof fn law_preprocess_idempotent(code: Seq<char>)
    ensures
        preprocessed(preprocessed(code)) == preprocessed(code),
{
    let ls = lines(code);
    lemma_lines_no_nl(code, 0);
    assert forall|q: int| 0 <= q < ls.len() implies no_nl(#[trigger] ls[q]) by {}
    lemma_code_lines_clean(ls);
    let kept = code_lines(ls);
    assert forall|q: int| 0 <= q < kept.len() implies is_trimmed_line(#[trigger] kept[q]) by {
        assert(is_code_line(kept[q]));
    }
    lemma_lines_of_joined(kept);
    lemma_code_lines_fixed(kept);
}

/// A render error that says the browser connection was lost.
pub open spec fn is_connection_closed(message: Seq<char>) -> bool {
    contains(message, "underlying connection is closed"@)
}

/// `r` is the failure of a render of `original` with this message and type.
pub open spec fn is_render_failure(
    r: Result<(), MermaidValidationError>,
    message: Seq<char>,
    t: MermaidErrorType,
    original: Seq<char>,
) -> bool {
    match r {
        Err(MermaidValidationError::RenderError { message: m, error_type, original_code }) => m@
            == message && error_type == t && original_code@ == original,
        _ => false,
    }
}

/// The decision after an attempt numbered `attempt` (from 0) of
/// `max_attempts`: a renderer that could not start, or a lost connection, is
/// retried while attempts remain; a render that succeeds ends with success;
/// any other failure ends with a render error, classified from its message
/// (an unclassified one when the renderer could not start).
pub open spec fn is_retry_decision(
    d: RetryDecision,
    attempt: int,
    max_attempts: int,
    outcome: RenderOutcome,
    original: Seq<char>,
) -> bool {
    match outcome {
        RenderOutcome::StartFailed(e) => if attempt + 1 < max_attempts {
            d matches RetryDecision::Retry { last_error } && last_error@ == e@
        } else {
            d matches RetryDecision::Finish(r) && is_render_failure(r, e@, MermaidErrorType::Unknown, original)
        },
        RenderOutcome::Rendered => d matches RetryDecision::Finish(r) && r is Ok,
        RenderOutcome::RenderFailed(e) => if is_connection_closed(e@) && attempt + 1 < max_attempts {
            d matches RetryDecision::Retry { last_error } && last_error@ == e@
        } else {
            d matches RetryDecision::Finish(r) && is_render_failure(
                r,
                e@,
                classify_lowered_spec(lowercase(e@)),
                original,
            )
        },
    }
}

impl MermaidValidationError {
    /// Mermaid code is empty / Mermaid render error (<type>): <message>
    pub fn to_string(&self) -> (r: String)
        ensures
            r@ == validation_error_text(*self),
    {
        match self {
            MermaidValidationError::EmptyCode => "Mermaid code is empty".to_owned(),
            MermaidValidationError::RenderError { message, error_type, .. } => {
                let name: &str = match error_type {
                    MermaidErrorType::SyntaxError => "SyntaxError",
                    MermaidErrorType::NodeError => "NodeError",
                    MermaidErrorType::EdgeError => "EdgeError",
                    MermaidErrorType::GraphStructureError => "GraphStructureError",
                    MermaidErrorType::StyleError => "StyleError",
                    MermaidErrorType::Unknown => "Unknown",
                };
                let a = concat_str("Mermaid render error (", name);
                let b = concat_str(a.as_str(), "): ");
                concat_str(b.as_str(), message.as_str())
            },
        }
    }
}

impl MermaidValidator {
    /// A validator whose renders time out after `timeout_seconds` (30 when
    /// not given); `chromium_found` tells whether a Chromium/Chrome
    /// executable was located, without which no validator is made.
    pub fn with_config(chromium_found: bool, timeout_seconds: Option<u64>) -> (r: Result<Self, String>)
        ensures
            chromium_found ==> (r matches Ok(v) && v.timeout_seconds == match timeout_seconds {
                Some(t) => t,
                None => 30,
            }),
            !chromium_found ==> (r matches Err(e) && e@ == "Chromium/Chrome executable not found"@),
    {
        if !chromium_found {
            return Err("Chromium/Chrome executable not found".to_owned());
        }
        let timeout = match timeout_seconds {
            Some(t) => t,
            None => 30,
        };
        Ok(MermaidValidator { timeout_seconds: timeout })
    }

    /// Kept for API compatibility; each validation already uses an isolated Chrome session.
    pub fn reset_connection(&self)
        ensures
            true,
    {
    }

    /// The checks made before rendering: code that is empty once trimmed is
    /// refused; otherwise the code to render is returned.
    pub fn prepare(&self, mermaid_code: &str) -> (r: Result<String, MermaidValidationError>)
        ensures
            trim(mermaid_code@).len() == 0 ==> r matches Err(MermaidValidationError::EmptyCode),
            trim(mermaid_code@).len() > 0 ==> (r matches Ok(c) && c@ == preprocessed(mermaid_code@)),
    {
        let chars = chars_of(mermaid_code);
        let (a, b) = trim_bounds(chars.as_slice(), 0, chars.len());
        assert(chars@.subrange(0, chars@.len() as int) =~= chars@);
        if a == b {
            return Err(MermaidValidationError::EmptyCode);
        }
        Ok(self.preprocess_code(mermaid_code))
    }

    /// Preprocess mermaid code: trimmed lines, without empty lines and "%%"
    /// comments, joined by "\n".
    pub fn preprocess_code(&self, code: &str) -> (r: String)
        ensures
            r@ == preprocessed(code@),
    {
        let chars = chars_of(code);
        let ranges = line_ranges(chars.as_slice());
        let comment = chars_of("%%");
        let ghost s = chars@;
        let ghost ls = lines(s);
        let mut kept: Vec<(usize, usize)> = Vec::new();
        let mut i: usize = 0;
        assert(ls.take(0) =~= Seq::<Seq<char>>::empty());
        assert(ranges_view(s, kept@) =~= Seq::<Seq<char>>::empty());
        while i < ranges.len()
            invariant
                i <= ranges@.len() == ls.len(),
                s == chars@,
                ls == lines(s),
                comment@ == "%%"@,
                ranges_view(s, ranges@) == ls,
                forall|q: int| #![trigger ranges@[q]] 0 <= q < ranges@.len() ==> ranges@[q].0 <= ranges@[q].1 <= s.len(),
                forall|q: int| #![trigger kept@[q]] 0 <= q < kept@.len() ==> kept@[q].0 <= kept@[q].1 <= s.len(),
                ranges_view(s, kept@) == code_lines(ls.take(i as int)),
            decreases ranges@.len() - i,
        {
            let (la, lb) = ranges[i];
            let (a, b) = trim_bounds(chars.as_slice(), la, lb);
            proof {
                assert(ls[i as int] == s.subrange(la as int, lb as int));
                assert(ls.take(i + 1).drop_last() =~= ls.take(i as int));
                assert(ls.take(i + 1).last() == ls[i as int]);
                assert(s.subrange(a as int, b as int).subrange(0, (b - a) as int) =~= s.subrange(a as int, b as int));
            }
            let ghost old_kept = kept@;
            if a < b && !range_starts_with(chars.as_slice(), a, b, comment.as_slice()) {
                kept.push((a, b));
                assert(ranges_view(s, kept@) =~= ranges_view(s, old_kept).push(s.subrange(a as int, b as int)));
            }
            i = i + 1;
        }
        assert(ls.take(ranges@.len() as int) =~= ls);
        let r = join_ranges(chars.as_slice(), &kept, 0, kept.len(), '\n');
        assert(ranges_view(s, kept@).subrange(0, kept@.len() as int) =~= ranges_view(s, kept@));
        r
    }

    /// Whether a render error says that the browser connection was lost.
    pub fn is_connection_closed_error(message: &str) -> (r: bool)
        ensures
            r == is_connection_closed(message@),
    {
        let chars = chars_of(message);
        let pat = chars_of("underlying connection is closed");
        let r = range_contains(chars.as_slice(), 0, chars.len(), pat.as_slice());
        assert(chars@.subrange(0, chars@.len() as int) =~= chars@);
        r
    }

    /// Classify error type: by the words of the lowercased message.
    pub fn classify_error(&self, error_message: &str) -> (r: MermaidErrorType)
        ensures
            r == classify_lowered_spec(lowercase(error_message@)),
            is_ascii_text(error_message@) ==> r == classify_lowered_spec(ascii_lowercase(error_message@)),
    {
        let lower = to_lowercase(error_message);
        classify_lowered(lower.as_str())
    }

    /// The decision after attempt `attempt` (from 0) of `max_attempts` to
    /// render `original_code`, given what the renderer reported.
    pub fn retry_step(&self, attempt: usize, max_attempts: usize, outcome: RenderOutcome, original_code: &str) -> (d: RetryDecision)
        requires
            attempt < max_attempts,
        ensures
            is_retry_decision(d, attempt as int, max_attempts as int, outcome, original_code@),
    {
        match outcome {
            RenderOutcome::StartFailed(e) => {
                if attempt + 1 < max_attempts {
                    RetryDecision::Retry { last_error: e }
                } else {
                    RetryDecision::Finish(
                        Err(
                            MermaidValidationError::RenderError {
                                message: e,
                                error_type: MermaidErrorType::Unknown,
                                original_code: original_code.to_owned(),
                            },
                        ),
                    )
                }
            },
            RenderOutcome::Rendered => RetryDecision::Finish(Ok(())),
            RenderOutcome::RenderFailed(e) => {
                if Self::is_connection_closed_error(e.as_str()) && attempt + 1 < max_attempts {
                    RetryDecision::Retry { last_error: e }
                } else {
                    let t = self.classify_error(e.as_str());
                    RetryDecision::Finish(
                        Err(
                            MermaidValidationError::RenderError {
                                message: e,
                                error_type: t,
                                original_code: original_code.to_owned(),
                            },
                        ),
                    )
                }
            },
        }
    }

    /// The result when every attempt was used up without a decision.
    pub fn attempts_exhausted(&self, last_error: String, original_code: &str) -> (r: Result<(), MermaidValidationError>)
        ensures
            is_render_failure(r, last_error@, MermaidErrorType::Unknown, original_code@),
    {
        Err(
            MermaidValidationError::RenderError {
                message: last_error,
                error_type: MermaidErrorType::Unknown,
                original_code: original_code.to_owned(),
            },
        )
    }
}

/// Whether `p` occurs in `s`.
fn str_contains(s: &str, p: &str) -> (r: bool)
    ensures
        r == contains(s@, p@),
{
    let cs = chars_of(s);
    let cp = chars_of(p);
    let r = range_contains(cs.as_slice(), 0, cs.len(), cp.as_slice());
    assert(cs@.subrange(0, cs@.len() as int) =~= cs@);
    r
}

/// The error type that an already lowercased error message indicates.
pub fn classify_lowered(lower: &str) -> (r: MermaidErrorType)
    ensures
        r == classify_lowered_spec(lower@),
{
    if str_contains(lower, "syntax") || str_contains(lower, "parse") {
        MermaidErrorType::SyntaxError
    } else if str_contains(lower, "node") || str_contains(lower, "vertex") {
        MermaidErrorType::NodeError
    } else if str_contains(lower, "edge") || str_contains(lower, "arrow") || str_contains(lower, "link") {
        MermaidErrorType::EdgeError
    } else if str_contains(lower, "graph") || str_contains(lower, "diagram") {
        MermaidErrorType::GraphStructureError
    } else if str_contains(lower, "style") || str_contains(lower, "class") {
        MermaidErrorType::StyleError
    } else {
        MermaidErrorType::Unknown
    }
}

} // verus!
