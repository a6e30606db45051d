//! The text work around a model-assisted mermaid fix: the prompt, and the
//! reading of the model's reply.
use vstd::prelude::*;
use crate::text::{
    chars_of, concat_str, contains, ends_with, lemma_replace_all_contains, join, join_ranges, line_ranges, lines, range_eq,
    range_starts_with, ranges_view, replace_all, replace_str, starts_with, string_of_range, trim,
    trim_bounds,
};

verus! {

/// The prompt for a piece of mermaid code: the template with each
/// "{{MERMAID_CODE}}" replaced by the code.
pub open spec fn prompt_text(template: Seq<char>, code: Seq<char>) -> Seq<char> {
    replace_all(template, "{{MERMAID_CODE}}"@, code)
}

/// A reply with a fence around it loses the fence lines: when the trimmed
/// reply begins and ends with "```" and has more than two lines, its inner
/// lines joined by "\n"; otherwise the trimmed reply.
pub open spec fn cleaned_text(response: Seq<char>) -> Seq<char> {
    let r = trim(response);
    let ls = lines(r);
    if starts_with(r, "```"@) && ends_with(r, "```"@) && ls.len() > 2 {
        join(ls.subrange(1, ls.len() - 1), seq!['\n'])
    } else {
        r
    }
}

/// A line that opens a mermaid block: trimmed, it begins with "```mermaid".
pub open spec fn is_mermaid_opener(line: Seq<char>) -> bool {
    starts_with(trim(line), "```mermaid"@)
}

/// A line that closes a block: trimmed, it is "```".
pub open spec fn is_fence(line: Seq<char>) -> bool {
    trim(line) == "```"@
}

/// Index of the first opener among `ls[i..]`, or `ls.len()`.
pub open spec fn first_opener(ls: Seq<Seq<char>>, i: int) -> int
    decreases ls.len() + 1 - i,
{
    if i < 0 || i >= ls.len() {
        ls.len() as int
    } else if is_mermaid_opener(ls[i]) {
        i
    } else {
        first_opener(ls, i + 1)
    }
}

/// Index of the first fence among `ls[i..]`, or `ls.len()`.
pub open spec fn first_fence(ls: Seq<Seq<char>>, i: int) -> int
    decreases ls.len() + 1 - i,
{
    if i < 0 || i >= ls.len() {
        ls.len() as int
    } else if is_fence(ls[i]) {
        i
    } else {
        first_fence(ls, i + 1)
    }
}

/// The lines of `ls` that are not openers.
pub open spec fn non_openers(ls: Seq<Seq<char>>) -> Seq<Seq<char>>
    decreases ls.len(),
{
    if ls.len() == 0 {
        Seq::empty()
    } else if is_mermaid_opener(ls.last()) {
        non_openers(ls.drop_last())
    } else {
        non_openers(ls.drop_last()).push(ls.last())
    }
}

/// The lines of the first mermaid block of a reply: those after its first
/// opener, up to its first fence after that, openers left out.
pub open spec fn code_block_lines(ls: Seq<Seq<char>>) -> Seq<Seq<char>> {
    let s = first_opener(ls, 0);
    if s >= ls.len() {
        Seq::empty()
    } else {
        non_openers(ls.subrange(s + 1, first_fence(ls, s + 1)))
    }
}

/// The code of the first mermaid block of a reply, when it has any lines.
pub open spec fn code_block(response: Seq<char>) -> Option<Seq<char>> {
    let c = code_block_lines(lines(response));
    if c.len() > 0 {
        Some(join(c, seq!['\n']))
    } else {
        None
    }
}

/// The fixed code read from a reply: the "fixed_code" of the reply when it
/// parsed as a fix description, else the code of its first mermaid block,
/// else the trimmed reply.
pub open spec fn fixed_code_text(parsed: Option<Seq<char>>, response: Seq<char>) -> Seq<char> {
    match parsed {
        Some(c) => c,
        None => match code_block(response) {
            Some(c) => c,
            None => trim(response),
        },
    }
}

/// When the template holds the placeholder, the prompt holds the code.
pub proof fn law_prompt_holds_code(template: Seq<char>, code: Seq<char>)
    requires
        contains(template, "{{MERMAID_CODE}}"@),
    ensures
        contains(prompt_text(template, code), code),
{
    reveal_strlit("{{MERMAID_CODE}}");
    lemma_replace_all_contains(template, "{{MERMAID_CODE}}"@, code);
}

pub proof fn lemma_first_opener_bounds(ls: Seq<Seq<char>>, i: int)
    requires
        0 <= i <= ls.len(),
    ensures
        i <= first_opener(ls, i) <= ls.len(),
    decreases ls.len() + 1 - i,
{
    if i < ls.len() && !is_mermaid_opener(ls[i]) {
        lemma_first_opener_bounds(ls, i + 1);
    }
}

pub proof fn lemma_first_fence_bounds(ls: Seq<Seq<char>>, i: int)
    requires
        0 <= i <= ls.len(),
    ensures
        i <= first_fence(ls, i) <= ls.len(),
    decreases ls.len() + 1 - i,
{
    if i < ls.len() && !is_fence(ls[i]) {
        lemma_first_fence_bounds(ls, i + 1);
    }
}

/// Refuses an empty API key.
pub fn check_api_key(api_key: &str) -> (r: Result<(), String>)
    ensures
        api_key@.len() == 0 ==> (r matches Err(e) && e@ == "LLM API key is required for mermaid fixing"@),
        api_key@.len() > 0 ==> r is Ok,
{
    if api_key.is_empty() {
        return Err("LLM API key is required for mermaid fixing".to_owned());
    }
    Ok(())
}

/// The prompt for `mermaid_code`, from the prompt template.
pub fn build_prompt(template: &str, mermaid_code: &str) -> (r: String)
    ensures
        r@ == prompt_text(template@, mermaid_code@),
{
    replace_str(template, "{{MERMAID_CODE}}", mermaid_code)
}

/// The error for a request that the API refused, with the text it returned.
pub fn request_failed_message(error_text: &str) -> (r: String)
    ensures
        r@ == "LLM API request failed: "@ + error_text@,
{
    concat_str("LLM API request failed: ", error_text)
}

/// The content of the first choice of a reply, or the error for a reply
/// without any.
pub fn first_choice_content(choices: Vec<String>) -> (r: Result<String, String>)
    ensures
        choices@.len() == 0 ==> (r matches Err(e) && e@ == "LLM API returned an empty response"@),
        choices@.len() > 0 ==> (r matches Ok(c) && c@ == choices@[0]@),
{
    if choices.len() == 0 {
        return Err("LLM API returned an empty response".to_owned());
    }
    let mut choices = choices;
    let first = choices.swap_remove(0);
    Ok(first)
}

/// Whether line `k` (given by its range) is an opener.
fn line_is_opener(cs: &Vec<char>, ranges: &Vec<(usize, usize)>, k: usize, opener: &Vec<char>) -> (b: bool)
    requires
        forall|q: int| #![trigger ranges@[q]] 0 <= q < ranges@.len() ==> ranges@[q].0 <= ranges@[q].1 <= cs@.len(),
        k < ranges@.len(),
        opener@ == "```mermaid"@,
    ensures
        b == is_mermaid_opener(ranges_view(cs@, ranges@)[k as int]),
{
    let (la, lb) = ranges[k];
    let (a, b) = trim_bounds(cs.as_slice(), la, lb);
    range_starts_with(cs.as_slice(), a, b, opener.as_slice())
}

/// Whether line `k` (given by its range) is a fence.
fn line_is_fence(cs: &Vec<char>, ranges: &Vec<(usize, usize)>, k: usize, fence: &Vec<char>) -> (b: bool)
    requires
        forall|q: int| #![trigger ranges@[q]] 0 <= q < ranges@.len() ==> ranges@[q].0 <= ranges@[q].1 <= cs@.len(),
        k < ranges@.len(),
        fence@ == "```"@,
    ensures
        b == is_fence(ranges_view(cs@, ranges@)[k as int]),
{
    let (la, lb) = ranges[k];
    let (a, b) = trim_bounds(cs.as_slice(), la, lb);
    range_eq(cs.as_slice(), a, b, fence.as_slice())
}

/// The code of the first mermaid block of a reply, when it has any lines.
pub fn extract_code_block(response: &str) -> (r: Option<String>)
    ensures
        match r {
            Some(c) => code_block(response@) == Some(c@),
            None => code_block(response@) is None,
        },
{
    let cs = chars_of(response);
    let ranges = line_ranges(cs.as_slice());
    let opener = chars_of("```mermaid");
    let fence = chars_of("```");
    let ghost ls = lines(cs@);
    let n = ranges.len();
    proof {
        lemma_first_opener_bounds(ls, 0);
    }
    let mut s: usize = 0;
    while s < n && !line_is_opener(&cs, &ranges, s, &opener)
        invariant
            s <= n == ranges@.len() == ls.len(),
            ls == ranges_view(cs@, ranges@),
            forall|q: int| #![trigger ranges@[q]] 0 <= q < ranges@.len() ==> ranges@[q].0 <= ranges@[q].1 <= cs@.len(),
            opener@ == "```mermaid"@,
            first_opener(ls, 0) == first_opener(ls, s as int),
        decreases n - s,
    {
        s = s + 1;
    }
    if s == n {
        assert(code_block_lines(ls) =~= Seq::<Seq<char>>::empty());
        return None;
    }
    proof {
        lemma_first_fence_bounds(ls, s + 1);
    }
    let mut e: usize = s + 1;
    while e < n && !line_is_fence(&cs, &ranges, e, &fence)
        invariant
            s < e <= n == ranges@.len() == ls.len(),
            ls == ranges_view(cs@, ranges@),
            forall|q: int| #![trigger ranges@[q]] 0 <= q < ranges@.len() ==> ranges@[q].0 <= ranges@[q].1 <= cs@.len(),
            fence@ == "```"@,
            first_fence(ls, s + 1) == first_fence(ls, e as int),
        decreases n - e,
    {
        e = e + 1;
    }
    let mut kept: Vec<(usize, usize)> = Vec::new();
    let mut q = s + 1;
    assert(ls.subrange(s + 1, q as int) =~= Seq::<Seq<char>>::empty());
    assert(ranges_view(cs@, kept@) =~= Seq::<Seq<char>>::empty());
    while q < e
        invariant
            s < q <= e <= n == ranges@.len() == ls.len(),
            ls == ranges_view(cs@, ranges@),
            forall|k: int| #![trigger ranges@[k]] 0 <= k < ranges@.len() ==> ranges@[k].0 <= ranges@[k].1 <= cs@.len(),
            forall|k: int| #![trigger kept@[k]] 0 <= k < kept@.len() ==> kept@[k].0 <= kept@[k].1 <= cs@.len(),
            opener@ == "```mermaid"@,
            ranges_view(cs@, kept@) == non_openers(ls.subrange(s + 1, q as int)),
        decreases e - q,
    {
        let ghost sub = ls.subrange(s + 1, q + 1);
        assert(sub.drop_last() =~= ls.subrange(s + 1, q as int));
        assert(sub.last() == ls[q as int]);
        let ghost old_kept = kept@;
        if !line_is_opener(&cs, &ranges, q, &opener) {
            kept.push(ranges[q]);
            assert(ranges_view(cs@, kept@) =~= ranges_view(cs@, old_kept).push(ls[q as int]));
        }
        q = q + 1;
    }
    if kept.len() == 0 {
        return None;
    }
    let out = join_ranges(cs.as_slice(), &kept, 0, kept.len(), '\n');
    assert(ranges_view(cs@, kept@).subrange(0, kept@.len() as int) =~= ranges_view(cs@, kept@));
    Some(out)
}

/// Removes a fence around a reply (see `cleaned_text`).
pub fn clean_response(response: &str) -> (r: String)
    ensures
        r@ == cleaned_text(response@),
{
    let all = chars_of(response);
    let (a, b) = trim_bounds(all.as_slice(), 0, all.len());
    assert(all@.subrange(0, all@.len() as int) =~= all@);
    let trimmed = string_of_range(all.as_slice(), a, b);
    let cs = chars_of(trimmed.as_str());
    let ghost t = cs@;
    let fence = chars_of("```");
    let ranges = line_ranges(cs.as_slice());
    let n = cs.len();
    assert(t.subrange(0, t.len() as int) =~= t);
    let starts = range_starts_with(cs.as_slice(), 0, n, fence.as_slice());
    let ends = n >= fence.len() && range_eq(cs.as_slice(), n - fence.len(), n, fence.as_slice());
    assert(ends == ends_with(t, "```"@));
    if starts && ends && ranges.len() > 2 {
        let out = join_ranges(cs.as_slice(), &ranges, 1, ranges.len() - 1, '\n');
        return out;
    }
    trimmed
}

/// The fixed code of a reply, given the "fixed_code" of the reply when it
/// parsed as a fix description.
pub fn extract_fixed_code(parsed_fixed_code: Option<String>, response: &str) -> (r: String)
    ensures
        r@ == fixed_code_text(
            match parsed_fixed_code {
                Some(c) => Some(c@),
                None => None,
            },
            response@,
        ),
{
    if let Some(code) = parsed_fixed_code {
        return code;
    }
    if let Some(code) = extract_code_block(response) {
        return code;
    }
    let all = chars_of(response);
    let (a, b) = trim_bounds(all.as_slice(), 0, all.len());
    assert(all@.subrange(0, all@.len() as int) =~= all@);
    string_of_range(all.as_slice(), a, b)
}

} // verus!
