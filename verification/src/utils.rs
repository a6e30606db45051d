//! Locating mermaid code blocks in markdown text.
use vstd::prelude::*;
use vstd::utf8::encode_utf8;
use crate::text::{
    byte_positions, chars_of, join, join_ranges, lemma_lines_after_skip, lemma_lines_of_skipped,
    lemma_next_nl_bounds, lemma_skip_lines_add, lemma_skip_lines_bounds, lemma_utf8_bytes_between,
    line_ranges, line_start, lines, lines_from, range_eq, ranges_view, skip_lines, trim, trim_bounds,
    utf8_len,
};

verus! {

/// A line that opens a mermaid block: "```mermaid" once trimmed.
pub open spec fn is_open_fence(line: Seq<char>) -> bool {
    trim(line) == "```mermaid"@
}

/// A line that closes a block: "```" once trimmed.
pub open spec fn is_close_fence(line: Seq<char>) -> bool {
    trim(line) == "```"@
}

/// Index of the first closing fence among `ls[j..]`, or `ls.len()`.
pub open spec fn find_close(ls: Seq<Seq<char>>, j: int) -> int
    decreases ls.len() + 1 - j,
{
    if j < 0 || j >= ls.len() {
        ls.len() as int
    } else if is_close_fence(ls[j]) {
        j
    } else {
        find_close(ls, j + 1)
    }
}

/// The (opening line, closing line) pairs of the mermaid blocks that begin
/// at or after line `i`: each opening fence is paired with the first closing
/// fence after it, the search for the next block resumes after that closing
/// fence, and an opening fence with no closing fence after it ends the search.
pub open spec fn block_spans(ls: Seq<Seq<char>>, i: int) -> Seq<(int, int)>
    decreases ls.len() + 1 - i,
{
    if i < 0 || i >= ls.len() {
        Seq::empty()
    } else if is_open_fence(ls[i]) {
        let e = find_close(ls, i + 1);
        proof {
            lemma_find_close_bounds(ls, i + 1);
        }
        if e < ls.len() {
            seq![(i, e)] + block_spans(ls, e + 1)
        } else {
            Seq::empty()
        }
    } else {
        block_spans(ls, i + 1)
    }
}

/// Byte offset in the UTF-8 encoding of `s` of where line `k` begins
/// (`k` = the number of lines gives the length of the text).
pub open spec fn line_byte_start(s: Seq<char>, k: int) -> nat {
    utf8_len(s.take(line_start(s, k as nat)))
}

/// The mermaid blocks of a markdown text: for each block, the byte offset
/// where its opening line begins, the byte offset just past its closing
/// line and that line's break (the end of the text when none follows), and
/// its body, the lines between the fences joined by "\n".
pub open spec fn mermaid_blocks(content: Seq<char>) -> Seq<(nat, nat, Seq<char>)> {
    let ls = lines(content);
    let sp = block_spans(ls, 0);
    Seq::new(
        sp.len(),
        |k: int|
            (
                line_byte_start(content, sp[k].0),
                line_byte_start(content, sp[k].1 + 1),
                join(ls.subrange(sp[k].0 + 1, sp[k].1), seq!['\n']),
            ),
    )
}

pub proof fn lemma_find_close_bounds(ls: Seq<Seq<char>>, j: int)
    requires
        0 <= j <= ls.len(),
    ensures
        j <= find_close(ls, j) <= ls.len(),
        find_close(ls, j) < ls.len() ==> is_close_fence(ls[find_close(ls, j)]),
    decreases ls.len() + 1 - j,
{
    if j < ls.len() && !is_close_fence(ls[j]) {
        lemma_find_close_bounds(ls, j + 1);
    }
}

/// Every block span lies within the lines, in increasing order.
pub proof fn lemma_block_spans_bounds(ls: Seq<Seq<char>>, i: int)
    requires
        0 <= i,
    ensures
        forall|k: int|
            0 <= k < block_spans(ls, i).len() ==> i <= #[trigger] block_spans(ls, i)[k].0
                < block_spans(ls, i)[k].1 < ls.len(),
    decreases ls.len() + 1 - i,
{
    if i < ls.len() {
        if is_open_fence(ls[i]) {
            lemma_find_close_bounds(ls, i + 1);
            let e = find_close(ls, i + 1);
            if e < ls.len() {
                lemma_block_spans_bounds(ls, e + 1);
                let rest = block_spans(ls, e + 1);
                assert(block_spans(ls, i) == seq![(i, e)] + rest);
                assert forall|k: int|
                    0 <= k < block_spans(ls, i).len() implies i <= #[trigger] block_spans(ls, i)[k].0
                        < block_spans(ls, i)[k].1 < ls.len() by {
                    if k > 0 {
                        assert(block_spans(ls, i)[k] == rest[k - 1]);
                    }
                }
            } else {
                assert(block_spans(ls, i) =~= Seq::<(int, int)>::empty());
            }
        } else {
            lemma_block_spans_bounds(ls, i + 1);
            assert(block_spans(ls, i) == block_spans(ls, i + 1));
            assert forall|k: int|
                0 <= k < block_spans(ls, i).len() implies i <= #[trigger] block_spans(ls, i)[k].0
                    < block_spans(ls, i)[k].1 < ls.len() by {
                assert(block_spans(ls, i)[k] == block_spans(ls, i + 1)[k]);
            }
        }
    } else {
        assert(block_spans(ls, i) =~= Seq::<(int, int)>::empty());
    }
}

/// Each span opens on an opening fence and closes on the first closing
/// fence after it, and the spans follow one another without overlap.
pub proof fn lemma_block_spans_shape(ls: Seq<Seq<char>>, i: int)
    requires
        0 <= i,
    ensures
        forall|k: int|
            0 <= k < block_spans(ls, i).len() ==> {
                let sp = #[trigger] block_spans(ls, i)[k];
                &&& i <= sp.0 < sp.1 < ls.len()
                &&& is_open_fence(ls[sp.0])
                &&& is_close_fence(ls[sp.1])
                &&& forall|j: int| sp.0 < j < sp.1 ==> !is_close_fence(#[trigger] ls[j])
            },
        forall|k: int|
            0 <= k < block_spans(ls, i).len() - 1 ==> #[trigger] block_spans(ls, i)[k].1 < block_spans(
                ls,
                i,
            )[k + 1].0,
    decreases ls.len() + 1 - i,
{
    if i < ls.len() {
        if is_open_fence(ls[i]) {
            lemma_find_close_bounds(ls, i + 1);
            lemma_find_close_first(ls, i + 1);
            let e = find_close(ls, i + 1);
            if e < ls.len() {
                lemma_block_spans_shape(ls, e + 1);
                lemma_block_spans_bounds(ls, e + 1);
                let rest = block_spans(ls, e + 1);
                let all = block_spans(ls, i);
                assert(all == seq![(i, e)] + rest);
                assert forall|k: int| 0 <= k < all.len() implies {
                    let sp = #[trigger] all[k];
                    &&& i <= sp.0 < sp.1 < ls.len()
                    &&& is_open_fence(ls[sp.0])
                    &&& is_close_fence(ls[sp.1])
                    &&& forall|j: int| sp.0 < j < sp.1 ==> !is_close_fence(#[trigger] ls[j])
                } by {
                    if k > 0 {
                        assert(all[k] == rest[k - 1]);
                    }
                }
                assert forall|k: int| 0 <= k < all.len() - 1 implies #[trigger] all[k].1 < all[k + 1].0 by {
                    assert(all[k + 1] == rest[k]);
                    if k > 0 {
                        assert(all[k] == rest[k - 1]);
                    } else {
                        assert(rest[0].0 >= e + 1);
                    }
                }
            } else {
                assert(block_spans(ls, i) =~= Seq::<(int, int)>::empty());
            }
        } else {
            lemma_block_spans_shape(ls, i + 1);
            lemma_block_spans_bounds(ls, i + 1);
            assert(block_spans(ls, i) == block_spans(ls, i + 1));
        }
    } else {
        assert(block_spans(ls, i) =~= Seq::<(int, int)>::empty());
    }
}

/// No closing fence lies between `j` and the one `find_close` finds.
pub proof fn lemma_find_close_first(ls: Seq<Seq<char>>, j: int)
    requires
        0 <= j <= ls.len(),
    ensures
        forall|m: int| j <= m < find_close(ls, j) ==> !is_close_fence(#[trigger] ls[m]),
    decreases ls.len() + 1 - j,
{
    if j < ls.len() && !is_close_fence(ls[j]) {
        lemma_find_close_first(ls, j + 1);
    }
}

/// Line `i` lies inside one of the spans `sp` (fences included).
pub open spec fn covered(sp: Seq<(int, int)>, i: int) -> bool {
    exists|k: int| 0 <= k < sp.len() && #[trigger] sp[k].0 <= i && i <= sp[k].1
}

/// A closing fence exists at or after `j`, so the search finds one.
proof fn lemma_find_close_found(ls: Seq<Seq<char>>, j: int, c: int)
    requires
        0 <= j <= c < ls.len(),
        is_close_fence(ls[c]),
    ensures
        find_close(ls, j) <= c,
{
    lemma_find_close_bounds(ls, j);
    lemma_find_close_first(ls, j);
    if find_close(ls, j) > c {
        assert(!is_close_fence(ls[c]));
    }
}

/// An opening fence at or after `start`, outside the spans found from
/// `start` and with a closing fence after it, begins one of those spans.
proof fn lemma_open_fence_found(ls: Seq<Seq<char>>, start: int, i: int, c: int)
    requires
        0 <= start <= i < c < ls.len(),
        is_open_fence(ls[i]),
        is_close_fence(ls[c]),
        !covered(block_spans(ls, start), i),
    ensures
        exists|k: int| 0 <= k < block_spans(ls, start).len() && #[trigger] block_spans(ls, start)[k].0 == i,
    decreases i - start,
{
    let sp = block_spans(ls, start);
    if is_open_fence(ls[start]) {
        lemma_find_close_found(ls, start + 1, c);
        lemma_find_close_bounds(ls, start + 1);
        let e = find_close(ls, start + 1);
        let rest = block_spans(ls, e + 1);
        assert(sp == seq![(start, e)] + rest);
        if start == i {
            assert(sp[0].0 == i);
        } else {
            assert(sp[0] == (start, e));
            if i <= e {
                assert(sp[0].0 <= i && i <= sp[0].1);
                assert(covered(sp, i));
            }
            assert(!covered(rest, i)) by {
                if covered(rest, i) {
                    let k = choose|k: int| 0 <= k < rest.len() && #[trigger] rest[k].0 <= i && i <= rest[k].1;
                    assert(sp[k + 1] == rest[k]);
                    assert(covered(sp, i));
                }
            }
            lemma_open_fence_found(ls, e + 1, i, c);
            let k = choose|k: int| 0 <= k < rest.len() && #[trigger] rest[k].0 == i;
            assert(sp[k + 1] == rest[k]);
        }
    } else {
        assert(sp == block_spans(ls, start + 1));
        lemma_open_fence_found(ls, start + 1, i, c);
    }
}

/// No fenced block is missed: every opening fence that lies outside the
/// blocks found and has a closing fence somewhere after it begins a block,
/// and that block ends at the first closing fence after it.
pub proof fn law_every_fenced_block_found(content: Seq<char>, i: int, c: int)
    requires
        0 <= i < c < lines(content).len(),
        is_open_fence(lines(content)[i]),
        is_close_fence(lines(content)[c]),
        !covered(block_spans(lines(content), 0), i),
    ensures
        exists|k: int|
            0 <= k < mermaid_blocks(content).len() && #[trigger] block_spans(lines(content), 0)[k].0 == i
                && block_spans(lines(content), 0)[k].1 == find_close(lines(content), i + 1)
                && mermaid_blocks(content)[k].2 == join(
                lines(content).subrange(i + 1, find_close(lines(content), i + 1)),
                seq!['\n'],
            ),
{
    let ls = lines(content);
    lemma_open_fence_found(ls, 0, i, c);
    lemma_block_spans_shape(ls, 0);
    let k = choose|k: int| 0 <= k < block_spans(ls, 0).len() && #[trigger] block_spans(ls, 0)[k].0 == i;
    let sp = block_spans(ls, 0)[k];
    lemma_find_close_found(ls, i + 1, sp.1);
    lemma_find_close_bounds(ls, i + 1);
    let e = find_close(ls, i + 1);
    if e < sp.1 {
        assert(!is_close_fence(ls[e]));
    }
    assert(sp.1 == e);
}

/// The blocks found in a text: each lies between an opening fence and the
/// first closing fence after it, no closing fence lies inside one, and the
/// body is the text of the lines between the two fences.
pub proof fn law_blocks_are_fenced(content: Seq<char>)
    ensures
        forall|k: int|
            0 <= k < block_spans(lines(content), 0).len() ==> {
                let sp = #[trigger] block_spans(lines(content), 0)[k];
                &&& 0 <= sp.0 < sp.1 < lines(content).len()
                &&& is_open_fence(lines(content)[sp.0])
                &&& is_close_fence(lines(content)[sp.1])
                &&& forall|j: int| sp.0 < j < sp.1 ==> !is_close_fence(#[trigger] lines(content)[j])
                &&& mermaid_blocks(content)[k].2 == join(lines(content).subrange(sp.0 + 1, sp.1), seq!['\n'])
            },
        mermaid_blocks(content).len() == block_spans(lines(content), 0).len(),
{
    lemma_block_spans_shape(lines(content), 0);
}

/// Where lines begin: the positions are in order, the one of a line that
/// exists lies before the end of the text, the one past the last line is the
/// end of the text, and each follows a line break unless it is the start.
pub proof fn lemma_line_start_order(s: Seq<char>, a: int, b: int)
    requires
        0 <= a <= b <= lines(s).len(),
    ensures
        0 <= line_start(s, a as nat) <= line_start(s, b as nat) <= s.len(),
        a < b ==> line_start(s, a as nat) < line_start(s, b as nat),
        b == lines(s).len() ==> line_start(s, b as nat) == s.len(),
        line_start(s, b as nat) == 0 || s[line_start(s, b as nat) - 1] == '\n'
            || line_start(s, b as nat) == s.len(),
        lines_from(s, line_start(s, a as nat)) == lines(s).skip(a),
        line_start(s, b as nat) == skip_lines(s, line_start(s, a as nat), (b - a) as nat),
{
    let x = line_start(s, a as nat);
    lemma_skip_lines_bounds(s, 0, a as nat);
    lemma_skip_lines_bounds(s, 0, b as nat);
    lemma_lines_after_skip(s, 0, a as nat);
    lemma_lines_after_skip(s, 0, b as nat);
    lemma_skip_lines_add(s, 0, a as nat, (b - a) as nat);
    assert((a + (b - a)) as nat == b as nat);
    lemma_skip_lines_bounds(s, x, (b - a) as nat);
    if a < b {
        assert(lines(s).skip(a).len() > 0);
        if x >= s.len() {
            assert(lines_from(s, x) =~= Seq::<Seq<char>>::empty());
        }
    }
    if b == lines(s).len() {
        assert(lines(s).skip(b) =~= Seq::<Seq<char>>::empty());
        let y = line_start(s, b as nat);
        if y < s.len() {
            lemma_next_nl_bounds(s, y);
            assert(lines_from(s, y).len() > 0);
        }
    }
}

/// The offsets of the blocks found in a text increase and stay within it:
/// each block ends after it starts and no later than the next one starts,
/// and no block ends past the end of the text.
pub proof fn law_block_offsets_ordered(content: Seq<char>)
    ensures
        forall|k: int|
            0 <= k < mermaid_blocks(content).len() ==> {
                &&& #[trigger] mermaid_blocks(content)[k].0 < mermaid_blocks(content)[k].1
                &&& mermaid_blocks(content)[k].1 <= utf8_len(content)
            },
        forall|k: int|
            0 <= k < mermaid_blocks(content).len() - 1 ==> #[trigger] mermaid_blocks(content)[k].1
                <= mermaid_blocks(content)[k + 1].0,
{
    let ls = lines(content);
    let sp = block_spans(ls, 0);
    lemma_block_spans_shape(ls, 0);
    assert(content.take(content.len() as int) =~= content);
    assert forall|k: int| 0 <= k < mermaid_blocks(content).len() implies {
        &&& #[trigger] mermaid_blocks(content)[k].0 < mermaid_blocks(content)[k].1
        &&& mermaid_blocks(content)[k].1 <= utf8_len(content)
    } by {
        let t = sp[k];
        lemma_line_start_order(content, t.0, t.1 + 1);
        lemma_utf8_bytes_between(content, line_start(content, t.0 as nat), line_start(content, (t.1 + 1) as nat));
    }
    assert forall|k: int| 0 <= k < mermaid_blocks(content).len() - 1 implies #[trigger] mermaid_blocks(
        content,
    )[k].1 <= mermaid_blocks(content)[k + 1].0 by {
        let t = sp[k];
        let u = sp[k + 1];
        assert(t.1 < u.0);
        lemma_line_start_order(content, t.1 + 1, u.0);
        lemma_utf8_bytes_between(content, line_start(content, (t.1 + 1) as nat), line_start(content, u.0 as nat));
    }
}

/// Block `k` of `content` is located by its offsets: the bytes between them
/// are the characters from the start of its opening line to just past its
/// closing line's break (or the end of the text); that text begins at the
/// start of a line, ends after a line break or at the end of the text, and
/// splits into exactly the block's lines, fences included.
pub open spec fn block_located(content: Seq<char>, k: int) -> bool {
    let sp = block_spans(lines(content), 0)[k];
    let x = line_start(content, sp.0 as nat);
    let y = line_start(content, (sp.1 + 1) as nat);
    &&& 0 <= x < y <= content.len()
    &&& mermaid_blocks(content)[k].0 == utf8_len(content.take(x))
    &&& mermaid_blocks(content)[k].1 == utf8_len(content.take(y))
    &&& encode_utf8(content).subrange(
        mermaid_blocks(content)[k].0 as int,
        mermaid_blocks(content)[k].1 as int,
    ) == encode_utf8(content.subrange(x, y))
    &&& x == 0 || content[x - 1] == '\n'
    &&& y == content.len() || content[y - 1] == '\n'
    &&& lines(content.subrange(x, y)) == lines(content).subrange(sp.0, sp.1 + 1)
}

/// Every block found is located by its offsets: the bytes between them are
/// exactly the block's whole lines with their line breaks.
pub proof fn law_block_offsets_locate_text(content: Seq<char>)
    ensures
        forall|k: int| 0 <= k < mermaid_blocks(content).len() ==> #[trigger] block_located(content, k),
{
    let ls = lines(content);
    lemma_block_spans_shape(ls, 0);
    assert forall|k: int| 0 <= k < mermaid_blocks(content).len() implies #[trigger] block_located(content, k) by {
        let sp = block_spans(ls, 0)[k];
        let a = sp.0;
        let b = sp.1 + 1;
        let x = line_start(content, a as nat);
        let y = line_start(content, b as nat);
        lemma_line_start_order(content, a, b);
        lemma_line_start_order(content, a, a);
        lemma_utf8_bytes_between(content, x, y);
        lemma_lines_of_skipped(content, x, (b - a) as nat);
        assert(ls.skip(a).take(b - a) =~= ls.subrange(a, b));
    }
}

/// The block found for the line span `sp` of `ls`.
pub open spec fn block_matches(b: (usize, usize, String), s: Seq<char>, ls: Seq<Seq<char>>, sp: (int, int)) -> bool {
    &&& b.0 == line_byte_start(s, sp.0)
    &&& b.1 == line_byte_start(s, sp.1 + 1)
    &&& b.2@ == join(ls.subrange(sp.0 + 1, sp.1), seq!['\n'])
}

/// The ranges `r` are the lines of `s`.
pub open spec fn lines_of(s: Seq<char>, r: Seq<(usize, usize)>) -> bool {
    &&& forall|q: int| #![trigger r[q]] 0 <= q < r.len() ==> r[q].0 <= r[q].1 <= s.len()
    &&& ranges_view(s, r) == lines(s)
}

/// `o[k]` is the byte offset where line `k` begins, for every `k` up to the
/// number of lines (the last one being the length of the text).
fn line_offsets(chars: &Vec<char>, ranges: &Vec<(usize, usize)>) -> (o: Vec<usize>)
    requires
        lines_of(chars@, ranges@),
        forall|k: int| #![trigger ranges@[k]] 0 <= k < ranges@.len() ==> ranges@[k].0 == line_start(chars@, k as nat),
        utf8_len(chars@) < usize::MAX,
    ensures
        o@.len() == ranges@.len() + 1,
        forall|q: int| 0 <= q <= ranges@.len() ==> #[trigger] o@[q] == line_byte_start(chars@, q),
{
    let bytes = byte_positions(chars.as_slice());
    let ghost s = chars@;
    let n = ranges.len();
    let mut offsets: Vec<usize> = Vec::new();
    let mut k: usize = 0;
    while k < n
        invariant
            k <= n == ranges@.len() == lines(s).len(),
            s == chars@,
            lines_of(s, ranges@),
            forall|q: int| #![trigger ranges@[q]] 0 <= q < ranges@.len() ==> ranges@[q].0 == line_start(s, q as nat),
            bytes@.len() == s.len() + 1,
            forall|i: int| 0 <= i <= s.len() ==> #[trigger] bytes@[i] == utf8_len(s.take(i)),
            offsets@.len() == k,
            forall|q: int| 0 <= q < k ==> #[trigger] offsets@[q] == line_byte_start(s, q),
        decreases n - k,
    {
        let (a, _b) = ranges[k];
        offsets.push(bytes[a]);
        k = k + 1;
    }
    proof {
        lemma_line_start_order(s, n as int, n as int);
    }
    offsets.push(bytes[chars.len()]);
    offsets
}

/// Whether line `k`, once trimmed, equals `p`.
fn line_trimmed_eq(chars: &Vec<char>, ranges: &Vec<(usize, usize)>, k: usize, p: &Vec<char>) -> (b: bool)
    requires
        lines_of(chars@, ranges@),
        k < ranges@.len(),
    ensures
        b == (trim(lines(chars@)[k as int]) == p@),
{
    let (la, lb) = ranges[k];
    assert(lines(chars@)[k as int] == ranges_view(chars@, ranges@)[k as int]);
    let (a, b) = trim_bounds(chars.as_slice(), la, lb);
    range_eq(chars.as_slice(), a, b, p.as_slice())
}

/// Index of the first closing fence among the lines from `from` on, or the
/// number of lines.
fn find_close_line(chars: &Vec<char>, ranges: &Vec<(usize, usize)>, from: usize, close: &Vec<char>) -> (e: usize)
    requires
        lines_of(chars@, ranges@),
        from <= ranges@.len(),
        close@ == "```"@,
    ensures
        e == find_close(lines(chars@), from as int),
{
    let ghost ls = lines(chars@);
    proof {
        lemma_find_close_bounds(ls, from as int);
    }
    let mut i = from;
    while i < ranges.len()
        invariant
            from <= i <= ranges@.len() == ls.len(),
            ls == lines(chars@),
            close@ == "```"@,
            lines_of(chars@, ranges@),
            find_close(ls, from as int) == find_close(ls, i as int),
        decreases ranges@.len() - i,
    {
        if line_trimmed_eq(chars, ranges, i, close) {
            return i;
        }
        i = i + 1;
    }
    i
}

/// The lines `from..to` joined with "\n".
fn join_lines(chars: &Vec<char>, ranges: &Vec<(usize, usize)>, from: usize, to: usize) -> (code: String)
    requires
        lines_of(chars@, ranges@),
        from <= to <= ranges@.len(),
    ensures
        code@ == join(lines(chars@).subrange(from as int, to as int), seq!['\n']),
{
    join_ranges(chars.as_slice(), ranges, from, to, '\n')
}

/// Extract mermaid code blocks from markdown content.
/// Returns a list of tuples: (start position, end position, code content).
pub fn extract_mermaid_blocks(content: &str) -> (blocks: Vec<(usize, usize, String)>)
    requires
        utf8_len(content@) < usize::MAX,
    ensures
        blocks@.len() == mermaid_blocks(content@).len(),
        forall|k: int|
            0 <= k < blocks@.len() ==> {
                &&& #[trigger] blocks@[k].0 == mermaid_blocks(content@)[k].0
                &&& blocks@[k].1 == mermaid_blocks(content@)[k].1
                &&& blocks@[k].2@ == mermaid_blocks(content@)[k].2
            },
{
    let chars = chars_of(content);
    let ranges = line_ranges(chars.as_slice());
    let open = chars_of("```mermaid");
    let close = chars_of("```");
    let ghost s = chars@;
    let ghost ls = lines(s);
    let n = ranges.len();
    let offsets = line_offsets(&chars, &ranges);

    let mut blocks: Vec<(usize, usize, String)> = Vec::new();
    let ghost mut done: Seq<(int, int)> = Seq::empty();
    let mut i: usize = 0;
    while i < n
        invariant
            i <= n == ranges@.len() == ls.len(),
            ls == lines(s),
            s == chars@,
            s == content@,
            open@ == "```mermaid"@,
            close@ == "```"@,
            lines_of(s, ranges@),
            offsets@.len() == n + 1,
            forall|q: int| 0 <= q <= n ==> #[trigger] offsets@[q] == line_byte_start(s, q),
            block_spans(ls, 0) == done + block_spans(ls, i as int),
            blocks@.len() == done.len(),
            forall|q: int| 0 <= q < done.len() ==> block_matches(#[trigger] blocks@[q], s, ls, done[q]),
        decreases n + 1 - i,
    {
        if line_trimmed_eq(&chars, &ranges, i, &open) {
            let end_line = find_close_line(&chars, &ranges, i + 1, &close);
            proof {
                lemma_find_close_bounds(ls, i + 1);
            }
            if end_line < n {
                let code = join_lines(&chars, &ranges, i + 1, end_line);
                let ghost old_blocks = blocks@;
                let ghost prev = done;
                blocks.push((offsets[i], offsets[end_line + 1], code));
                proof {
                    done = done.push((i as int, end_line as int));
                    assert forall|q: int| 0 <= q < done.len() implies block_matches(#[trigger] blocks@[q], s, ls, done[q]) by {
                        if q < prev.len() {
                            assert(blocks@[q] == old_blocks[q]);
                            assert(done[q] == prev[q]);
                        } else {
                            assert(q == prev.len());
                            assert(done[q] == (i as int, end_line as int));
                        }
                    }
                    assert(block_spans(ls, i as int) == seq![(i as int, end_line as int)]
                        + block_spans(ls, end_line + 1));
                    assert(block_spans(ls, 0) =~= done + block_spans(ls, end_line + 1));
                }
                i = end_line + 1;
            } else {
                proof {
                    assert(block_spans(ls, i as int) =~= Seq::<(int, int)>::empty());
                    assert(block_spans(ls, n as int) =~= Seq::<(int, int)>::empty());
                    assert(block_spans(ls, 0) =~= done + block_spans(ls, n as int));
                }
                i = n;
            }
        } else {
            i = i + 1;
        }
    }
    proof {
        assert(block_spans(ls, i as int) =~= Seq::<(int, int)>::empty());
        assert(done =~= block_spans(ls, 0));
    }
    blocks
}

} // verus!
