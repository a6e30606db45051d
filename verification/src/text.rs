//! Text primitives over character sequences: the model of `str::lines`,
//! `str::trim`, `contains`, `starts_with`, joining and replacing, each with
//! a spec function and an executable counterpart proved against it.
use vstd::prelude::*;
use vstd::utf8::*;

verus! {

// ---------------------------------------------------------------------------
// Specifications
// ---------------------------------------------------------------------------

/// Unicode `White_Space` property, as used by `char::is_whitespace`.
pub open spec fn is_ws(c: char) -> bool {
    ||| c == '\t'
    ||| c == '\n'
    ||| c == '\u{0B}'
    ||| c == '\u{0C}'
    ||| c == '\r'
    ||| c == ' '
    ||| c == '\u{85}'
    ||| c == '\u{A0}'
    ||| c == '\u{1680}'
    ||| ('\u{2000}' <= c && c <= '\u{200A}')
    ||| c == '\u{2028}'
    ||| c == '\u{2029}'
    ||| c == '\u{202F}'
    ||| c == '\u{205F}'
    ||| c == '\u{3000}'
}

/// Number of leading whitespace characters of `s`.
pub open spec fn lead_ws(s: Seq<char>) -> nat
    decreases s.len(),
{
    if s.len() > 0 && is_ws(s[0]) {
        1 + lead_ws(s.drop_first())
    } else {
        0
    }
}

/// Number of trailing whitespace characters of `s`.
pub open spec fn trail_ws(s: Seq<char>) -> nat
    decreases s.len(),
{
    if s.len() > 0 && is_ws(s.last()) {
        1 + trail_ws(s.drop_last())
    } else {
        0
    }
}

/// The counts of leading and trailing whitespace are within the length.
pub proof fn lemma_ws_bounds(s: Seq<char>)
    ensures
        lead_ws(s) <= s.len(),
        trail_ws(s) <= s.len(),
    decreases s.len(),
{
    if s.len() > 0 {
        lemma_ws_bounds(s.drop_first());
        lemma_ws_bounds(s.drop_last());
    }
}

/// `s` without its leading whitespace (`str::trim_start`).
pub open spec fn trim_start(s: Seq<char>) -> Seq<char> {
    s.subrange(lead_ws(s) as int, s.len() as int)
}

/// The index found by `next_nl` lies between `i` and `s.len()` and holds a
/// `'\n'` unless it is `s.len()`; no `'\n'` lies before it.
pub proof fn lemma_next_nl_bounds(s: Seq<char>, i: int)
    requires
        0 <= i <= s.len(),
    ensures
        i <= next_nl(s, i) <= s.len(),
        next_nl(s, i) < s.len() ==> s[next_nl(s, i)] == '\n',
        forall|k: int| i <= k < next_nl(s, i) ==> s[k] != '\n',
    decreases s.len() - i,
{
    if i < s.len() && s[i] != '\n' {
        lemma_next_nl_bounds(s, i + 1);
    }
}

/// `s` without its trailing whitespace (`str::trim_end`).
pub open spec fn trim_end(s: Seq<char>) -> Seq<char> {
    s.subrange(0, s.len() - trail_ws(s))
}

/// `s` without leading and trailing whitespace (`str::trim`).
pub open spec fn trim(s: Seq<char>) -> Seq<char> {
    trim_end(trim_start(s))
}

/// `s` begins with `p`.
pub open spec fn starts_with(s: Seq<char>, p: Seq<char>) -> bool {
    p.len() <= s.len() && s.subrange(0, p.len() as int) == p
}

/// `s` ends with `p`.
pub open spec fn ends_with(s: Seq<char>, p: Seq<char>) -> bool {
    p.len() <= s.len() && s.subrange(s.len() - p.len(), s.len() as int) == p
}

/// `p` occurs in `s` at position `i`.
pub open spec fn occurs_at(s: Seq<char>, p: Seq<char>, i: int) -> bool {
    0 <= i && i + p.len() <= s.len() && s.subrange(i, i + p.len()) == p
}

/// `p` occurs somewhere in `s` (`str::contains`).
pub open spec fn contains(s: Seq<char>, p: Seq<char>) -> bool {
    exists|i: int| occurs_at(s, p, i)
}

/// Index of the first `'\n'` at or after `i`, or `s.len()` when there is none.
pub open spec fn next_nl(s: Seq<char>, i: int) -> int
    decreases s.len() - i,
{
    if i < 0 || i >= s.len() {
        s.len() as int
    } else if s[i] == '\n' {
        i
    } else {
        next_nl(s, i + 1)
    }
}

/// A line as `str::lines` yields it: the text before a `'\n'`, with one
/// trailing `'\r'` removed when a `'\n'` followed.
pub open spec fn strip_cr(line: Seq<char>, had_newline: bool) -> Seq<char> {
    if had_newline && line.len() > 0 && line.last() == '\r' {
        line.drop_last()
    } else {
        line
    }
}

/// The lines of `s[i..]` (`str::lines`).
pub open spec fn lines_from(s: Seq<char>, i: int) -> Seq<Seq<char>>
    decreases s.len() + 1 - i,
{
    if i < 0 || i >= s.len() {
        Seq::empty()
    } else {
        proof {
            lemma_next_nl_bounds(s, i);
        }
        let j = next_nl(s, i);
        seq![strip_cr(s.subrange(i, j), j < s.len())] + lines_from(s, j + 1)
    }
}

/// The lines of `s` (`str::lines`).
pub open spec fn lines(s: Seq<char>) -> Seq<Seq<char>> {
    lines_from(s, 0)
}

/// The parts joined with `sep` between consecutive parts (`[T]::join`).
pub open spec fn join(parts: Seq<Seq<char>>, sep: Seq<char>) -> Seq<char>
    decreases parts.len(),
{
    if parts.len() == 0 {
        Seq::empty()
    } else if parts.len() == 1 {
        parts[0]
    } else {
        join(parts.drop_last(), sep) + sep + parts.last()
    }
}

/// `s` with every non-overlapping occurrence of `p`, scanning left to right,
/// replaced by `r` (`str::replace`); an empty `p` occurs before every
/// character and at the end.
pub open spec fn replace_all(s: Seq<char>, p: Seq<char>, r: Seq<char>) -> Seq<char>
    decreases s.len(),
{
    if p.len() == 0 {
        if s.len() == 0 {
            r
        } else {
            r + seq![s[0]] + replace_all(s.drop_first(), p, r)
        }
    } else if s.len() == 0 {
        s
    } else if starts_with(s, p) {
        r + replace_all(s.subrange(p.len() as int, s.len() as int), p, r)
    } else {
        seq![s[0]] + replace_all(s.drop_first(), p, r)
    }
}

/// Number of bytes of the UTF-8 encoding of `s` (`str::len`).
pub open spec fn utf8_len(s: Seq<char>) -> nat {
    encode_utf8(s).len()
}

/// Number of bytes of the UTF-8 encoding of one character.
pub open spec fn char_utf8_len(c: char) -> nat {
    encode_scalar(c as u32).len()
}

// ---------------------------------------------------------------------------
// Lemmas
// ---------------------------------------------------------------------------

/// UTF-8 length is additive over concatenation.
pub proof fn lemma_utf8_len_concat(a: Seq<char>, b: Seq<char>)
    ensures
        utf8_len(a + b) == utf8_len(a) + utf8_len(b),
        encode_utf8(a + b) == encode_utf8(a) + encode_utf8(b),
    decreases a.len(),
{
    if a.len() == 0 {
        assert(a + b =~= b);
        assert(encode_utf8(a) =~= Seq::<u8>::empty());
        assert(encode_utf8(a) + encode_utf8(b) =~= encode_utf8(b));
    } else {
        assert((a + b).drop_first() =~= a.drop_first() + b);
        lemma_utf8_len_concat(a.drop_first(), b);
        assert((a + b)[0] == a[0]);
        assert(encode_utf8(a + b) =~= encode_scalar(a[0] as u32) + encode_utf8(a.drop_first() + b));
        assert(encode_utf8(a + b) =~= encode_utf8(a) + encode_utf8(b));
    }
}

/// Joining one more part adds the separator and the part.
pub proof fn lemma_join_push(parts: Seq<Seq<char>>, x: Seq<char>, sep: Seq<char>)
    ensures
        parts.len() > 0 ==> join(parts.push(x), sep) == join(parts, sep) + sep + x,
        parts.len() == 0 ==> join(parts.push(x), sep) == x,
{
    assert(parts.push(x).drop_last() =~= parts);
}

/// Joining two non-empty lists of parts puts the separator between them.
pub proof fn lemma_join_concat(a: Seq<Seq<char>>, b: Seq<Seq<char>>, sep: Seq<char>)
    requires
        a.len() > 0,
        b.len() > 0,
    ensures
        join(a + b, sep) == join(a, sep) + sep + join(b, sep),
    decreases b.len(),
{
    if b.len() == 1 {
        assert(a + b =~= a.push(b[0]));
        lemma_join_push(a, b[0], sep);
    } else {
        let b1 = b.drop_last();
        lemma_join_concat(a, b1, sep);
        assert(a + b =~= (a + b1).push(b.last()));
        assert(b =~= b1.push(b.last()));
        lemma_join_push(a + b1, b.last(), sep);
        lemma_join_push(b1, b.last(), sep);
        assert(join(a + b, sep) =~= join(a, sep) + sep + join(b, sep));
    }
}

/// A text without line feeds.
pub open spec fn no_nl(s: Seq<char>) -> bool {
    forall|k: int| 0 <= k < s.len() ==> s[k] != '\n'
}

/// A line as trimming leaves it: non-empty, with no whitespace at either
/// end and no line feed inside.
pub open spec fn is_trimmed_line(t: Seq<char>) -> bool {
    &&& t.len() > 0
    &&& !is_ws(t[0])
    &&& !is_ws(t.last())
    &&& no_nl(t)
}

/// The first character after the leading whitespace is not whitespace.
pub proof fn lemma_lead_ws_stop(s: Seq<char>)
    ensures
        lead_ws(s) < s.len() ==> !is_ws(s[lead_ws(s) as int]),
    decreases s.len(),
{
    lemma_ws_bounds(s);
    if s.len() > 0 && is_ws(s[0]) {
        lemma_lead_ws_stop(s.drop_first());
    }
}

/// The last character before the trailing whitespace is not whitespace.
pub proof fn lemma_trail_ws_stop(s: Seq<char>)
    ensures
        trail_ws(s) < s.len() ==> !is_ws(s[s.len() - trail_ws(s) - 1]),
    decreases s.len(),
{
    lemma_ws_bounds(s);
    if s.len() > 0 && is_ws(s.last()) {
        lemma_trail_ws_stop(s.drop_last());
    }
}

/// A non-empty trimmed text of a line without line feeds is a trimmed line.
pub proof fn lemma_trim_shape(s: Seq<char>)
    requires
        no_nl(s),
        trim(s).len() > 0,
    ensures
        is_trimmed_line(trim(s)),
{
    let u = trim_start(s);
    lemma_ws_bounds(s);
    lemma_ws_bounds(u);
    lemma_lead_ws_stop(s);
    lemma_trail_ws_stop(u);
    let t = trim(s);
    assert(t =~= u.subrange(0, u.len() - trail_ws(u)));
    assert(t[0] == u[0]);
    assert(u[0] == s[lead_ws(s) as int]);
    assert(t.last() == u[u.len() - trail_ws(u) - 1]);
    assert forall|k: int| 0 <= k < t.len() implies t[k] != '\n' by {
        assert(t[k] == s[lead_ws(s) + k]);
    }
}

/// Trimming a trimmed line leaves it as it is.
pub proof fn lemma_trim_fixed(t: Seq<char>)
    requires
        is_trimmed_line(t),
    ensures
        trim(t) == t,
{
    assert(lead_ws(t) == 0);
    assert(trim_start(t) =~= t);
    assert(trail_ws(t) == 0);
    assert(trim_end(t) =~= t);
}

/// Where the text is `x + y`, the next line feed at or after a position in
/// `y` is found as in `y` alone.
pub proof fn lemma_next_nl_shift(x: Seq<char>, y: Seq<char>, k: int)
    requires
        0 <= k <= y.len(),
    ensures
        next_nl(x + y, x.len() + k) == x.len() + next_nl(y, k),
    decreases y.len() - k,
{
    if k < y.len() {
        assert((x + y)[x.len() + k] == y[k]);
        if y[k] != '\n' {
            lemma_next_nl_shift(x, y, k + 1);
        }
    }
}

/// Where the text is `a + y` and `a` holds no line feed, the next line feed
/// from a position in `a` is the first one of `y`.
pub proof fn lemma_next_nl_skip(a: Seq<char>, y: Seq<char>, i: int)
    requires
        no_nl(a),
        0 <= i <= a.len(),
    ensures
        next_nl(a + y, i) == a.len() + next_nl(y, 0),
    decreases a.len() - i,
{
    if i == a.len() {
        lemma_next_nl_shift(a, y, 0);
    } else {
        assert((a + y)[i] == a[i]);
        lemma_next_nl_skip(a, y, i + 1);
    }
}

/// The lines of `x + y` from a position in `y` are those of `y`.
pub proof fn lemma_lines_shift(x: Seq<char>, y: Seq<char>, k: int)
    requires
        0 <= k,
    ensures
        lines_from(x + y, x.len() + k) == lines_from(y, k),
    decreases y.len() + 1 - k,
{
    if k < y.len() {
        lemma_next_nl_shift(x, y, k);
        lemma_next_nl_bounds(y, k);
        let j = next_nl(y, k);
        assert((x + y).subrange(x.len() + k, x.len() + j) =~= y.subrange(k, j));
        lemma_lines_shift(x, y, j + 1);
    }
}

/// Each line of a text holds no line feed.
pub proof fn lemma_lines_no_nl(s: Seq<char>, i: int)
    requires
        0 <= i,
    ensures
        forall|q: int| 0 <= q < lines_from(s, i).len() ==> no_nl(#[trigger] lines_from(s, i)[q]),
    decreases s.len() + 1 - i,
{
    if i < s.len() {
        lemma_next_nl_bounds(s, i);
        let j = next_nl(s, i);
        lemma_lines_no_nl(s, j + 1);
        let rest = lines_from(s, j + 1);
        let line = strip_cr(s.subrange(i, j), j < s.len());
        assert(lines_from(s, i) == seq![line] + rest);
        assert(no_nl(line));
        assert forall|q: int| 0 <= q < lines_from(s, i).len() implies no_nl(
            #[trigger] lines_from(s, i)[q],
        ) by {
            if q > 0 {
                assert(lines_from(s, i)[q] == rest[q - 1]);
            }
        }
    }
}

/// Trimmed lines joined with "\n" split back into the same lines.
pub proof fn lemma_lines_of_joined(ls: Seq<Seq<char>>)
    requires
        forall|q: int| 0 <= q < ls.len() ==> is_trimmed_line(#[trigger] ls[q]),
    ensures
        lines(join(ls, seq!['\n'])) == ls,
    decreases ls.len(),
{
    let nl = seq!['\n'];
    if ls.len() == 0 {
        assert(lines(join(ls, nl)) =~= ls);
    } else {
        let a = ls[0];
        let rest = ls.drop_first();
        assert(is_trimmed_line(a));
        assert(a.last() != '\r');
        lemma_next_nl_bounds(a, 0);
        if rest.len() == 0 {
            assert(join(ls, nl) == a);
            assert(next_nl(a, 0) == a.len()) by {
                lemma_next_nl_skip(a, Seq::<char>::empty(), 0);
                assert(a + Seq::<char>::empty() =~= a);
            }
            assert(a.subrange(0, a.len() as int) =~= a);
            assert(lines_from(a, a.len() + 1int) =~= Seq::<Seq<char>>::empty());
            assert(lines(a) == seq![a] + lines_from(a, a.len() + 1int));
            assert(lines(a) =~= ls);
        } else {
            assert forall|q: int| 0 <= q < rest.len() implies is_trimmed_line(#[trigger] rest[q]) by {
                assert(rest[q] == ls[q + 1]);
            }
            lemma_lines_of_joined(rest);
            assert(ls =~= seq![a] + rest);
            lemma_join_concat(seq![a], rest, nl);
            assert(join(seq![a], nl) == a);
            let b = join(rest, nl);
            let s = a + nl + b;
            assert(join(ls, nl) == s);
            assert(next_nl(s, 0) == a.len()) by {
                assert(s =~= a + (nl + b));
                lemma_next_nl_skip(a, nl + b, 0);
            }
            assert(s.subrange(0, a.len() as int) =~= a);
            assert(s =~= (a + nl) + b);
            lemma_lines_shift(a + nl, b, 0);
            assert(lines(s) =~= seq![a] + lines(b));
        }
    }
}

/// The position reached from `i` after `c` lines of `s`: each line ends
/// past its line break, or at the end of `s` when none follows.
pub open spec fn skip_lines(s: Seq<char>, i: int, c: nat) -> int
    decreases c,
{
    if c == 0 || i >= s.len() {
        if i > s.len() {
            s.len() as int
        } else {
            i
        }
    } else {
        skip_lines(s, next_nl(s, i) + 1, (c - 1) as nat)
    }
}

/// Where line `k` of `s` begins, or `s.len()` for `k` = the number of lines.
pub open spec fn line_start(s: Seq<char>, k: nat) -> int {
    skip_lines(s, 0, k)
}

/// Skipping lines stays within the text and never goes back.
pub proof fn lemma_skip_lines_bounds(s: Seq<char>, i: int, c: nat)
    requires
        0 <= i <= s.len(),
    ensures
        i <= skip_lines(s, i, c) <= s.len(),
        c > 0 && i < s.len() ==> i < skip_lines(s, i, c),
        skip_lines(s, i, c) == s.len() || s[skip_lines(s, i, c) - 1] == '\n' || skip_lines(s, i, c) == i,
    decreases c,
{
    if c > 0 && i < s.len() {
        lemma_next_nl_bounds(s, i);
        let j = next_nl(s, i);
        assert(skip_lines(s, i, c) == skip_lines(s, j + 1, (c - 1) as nat));
        if j < s.len() {
            lemma_skip_lines_bounds(s, j + 1, (c - 1) as nat);
        } else {
            assert(skip_lines(s, j + 1, (c - 1) as nat) == s.len());
        }
    }
}

/// Skipping `c` and then `d` lines skips `c + d` lines.
pub proof fn lemma_skip_lines_add(s: Seq<char>, i: int, c: nat, d: nat)
    requires
        0 <= i,
    ensures
        skip_lines(s, skip_lines(s, i, c), d) == skip_lines(s, i, c + d),
    decreases c,
{
    if c > 0 && i < s.len() {
        lemma_next_nl_bounds(s, i);
        lemma_skip_lines_add(s, next_nl(s, i) + 1, (c - 1) as nat, d);
        assert((c + d - 1) as nat == (c - 1) as nat + d);
    } else if c > 0 {
        assert(skip_lines(s, i, c) == s.len());
    }
}

/// The lines from the position `c` lines past `i` are the lines from `i`
/// without their first `c`.
pub proof fn lemma_lines_after_skip(s: Seq<char>, i: int, c: nat)
    requires
        0 <= i <= s.len(),
        c <= lines_from(s, i).len(),
    ensures
        lines_from(s, skip_lines(s, i, c)) == lines_from(s, i).skip(c as int),
    decreases c,
{
    if c == 0 {
        assert(lines_from(s, i).skip(0) =~= lines_from(s, i));
    } else {
        lemma_next_nl_bounds(s, i);
        let j = next_nl(s, i);
        let line = strip_cr(s.subrange(i, j), j < s.len());
        let rest = lines_from(s, j + 1);
        assert(lines_from(s, i) == seq![line] + rest);
        if j < s.len() {
            lemma_lines_after_skip(s, j + 1, (c - 1) as nat);
            assert(lines_from(s, i).skip(c as int) =~= rest.skip(c - 1));
        } else {
            assert(rest =~= Seq::<Seq<char>>::empty());
            assert(c == 1);
            assert(skip_lines(s, i, c) == skip_lines(s, j + 1, 0));
            assert(skip_lines(s, i, c) == s.len());
            assert(lines_from(s, i).skip(1) =~= Seq::<Seq<char>>::empty());
        }
    }
}

/// The text from `i` to the position `c` lines further splits into exactly
/// those `c` lines.
pub proof fn lemma_lines_of_skipped(s: Seq<char>, i: int, c: nat)
    requires
        0 <= i <= s.len(),
        c <= lines_from(s, i).len(),
    ensures
        lines(s.subrange(i, skip_lines(s, i, c))) == lines_from(s, i).take(c as int),
    decreases c,
{
    lemma_skip_lines_bounds(s, i, c);
    if c == 0 {
        assert(lines(s.subrange(i, i)) =~= Seq::<Seq<char>>::empty());
        assert(lines_from(s, i).take(0) =~= Seq::<Seq<char>>::empty());
    } else {
        lemma_next_nl_bounds(s, i);
        let j = next_nl(s, i);
        let a = s.subrange(i, j);
        let line = strip_cr(a, j < s.len());
        let rest = lines_from(s, j + 1);
        assert(lines_from(s, i) == seq![line] + rest);
        assert(no_nl(a));
        let y = skip_lines(s, i, c);
        let t = s.subrange(i, y);
        if j < s.len() {
            lemma_skip_lines_bounds(s, j + 1, (c - 1) as nat);
            lemma_lines_of_skipped(s, j + 1, (c - 1) as nat);
            let nl = seq!['\n'];
            let r = s.subrange(j + 1, y);
            assert(t =~= a + (nl + r));
            lemma_next_nl_skip(a, nl + r, 0);
            assert(t.subrange(0, a.len() as int) =~= a);
            assert(t =~= (a + nl) + r);
            lemma_lines_shift(a + nl, r, 0);
            assert(lines(t) == seq![line] + lines(r));
            assert(lines_from(s, i).take(c as int) =~= seq![line] + rest.take(c - 1));
        } else {
            assert(rest =~= Seq::<Seq<char>>::empty());
            assert(c == 1);
            assert(y == s.len());
            assert(t =~= a);
            lemma_next_nl_skip(a, Seq::<char>::empty(), 0);
            assert(a + Seq::<char>::empty() =~= a);
            assert(a.subrange(0, a.len() as int) =~= a);
            assert(lines_from(a, a.len() + 1int) =~= Seq::<Seq<char>>::empty());
            assert(lines(a) == seq![line] + lines_from(a, a.len() + 1int));
            assert(lines_from(s, i).take(1) =~= seq![line]);
        }
    }
}

/// Every character takes at least one byte in UTF-8.
pub proof fn lemma_utf8_len_ge(s: Seq<char>)
    ensures
        utf8_len(s) >= s.len(),
    decreases s.len(),
{
    if s.len() > 0 {
        lemma_utf8_len_ge(s.drop_last());
        assert(s =~= s.drop_last().push(s.last()));
        lemma_utf8_len_push(s.drop_last(), s.last());
    }
}

/// The UTF-8 bytes between the byte offsets of two positions are the
/// encoding of the characters between them.
pub proof fn lemma_utf8_bytes_between(s: Seq<char>, x: int, y: int)
    requires
        0 <= x <= y <= s.len(),
    ensures
        utf8_len(s.take(x)) <= utf8_len(s.take(y)) <= utf8_len(s),
        x < y ==> utf8_len(s.take(x)) < utf8_len(s.take(y)),
        encode_utf8(s).subrange(utf8_len(s.take(x)) as int, utf8_len(s.take(y)) as int) == encode_utf8(
            s.subrange(x, y),
        ),
{
    let a = s.take(x);
    let m = s.subrange(x, y);
    let b = s.subrange(y, s.len() as int);
    assert(s =~= (a + m) + b);
    assert(s.take(y) =~= a + m);
    lemma_utf8_len_concat(a + m, b);
    lemma_utf8_len_concat(a, m);
    lemma_utf8_len_ge(m);
    assert(encode_utf8(s).subrange(utf8_len(a) as int, utf8_len(a + m) as int) =~= encode_utf8(m));
}

/// UTF-8 length of a one-character sequence.
pub proof fn lemma_utf8_len_single(c: char)
    ensures
        utf8_len(seq![c]) == char_utf8_len(c),
{
    assert(seq![c].drop_first() =~= Seq::<char>::empty());
    assert(encode_utf8(Seq::<char>::empty()) =~= Seq::<u8>::empty());
    assert(encode_utf8(seq![c]) =~= encode_scalar(c as u32) + encode_utf8(Seq::<char>::empty()));
}

/// UTF-8 length after appending a character.
pub proof fn lemma_utf8_len_push(s: Seq<char>, c: char)
    ensures
        utf8_len(s.push(c)) == utf8_len(s) + char_utf8_len(c),
{
    assert(s.push(c) =~= s + seq![c]);
    lemma_utf8_len_concat(s, seq![c]);
    lemma_utf8_len_single(c);
}

/// A subrange is no longer, in UTF-8 bytes, than the whole sequence.
pub proof fn lemma_utf8_subrange_le(s: Seq<char>, a: int, b: int)
    requires
        0 <= a <= b <= s.len(),
    ensures
        utf8_len(s.subrange(a, b)) <= utf8_len(s),
        utf8_len(s.take(b)) <= utf8_len(s),
{
    assert(s =~= s.take(a) + s.subrange(a, b) + s.subrange(b, s.len() as int));
    lemma_utf8_len_concat(s.take(a) + s.subrange(a, b), s.subrange(b, s.len() as int));
    lemma_utf8_len_concat(s.take(a), s.subrange(a, b));
    assert(s.take(b) =~= s.take(a) + s.subrange(a, b));
}

/// Replacing a pattern that occurs leaves the replacement in the result.
pub proof fn lemma_replace_all_contains(s: Seq<char>, p: Seq<char>, r: Seq<char>)
    requires
        p.len() > 0,
        contains(s, p),
    ensures
        contains(replace_all(s, p, r), r),
    decreases s.len(),
{
    let i = choose|i: int| occurs_at(s, p, i);
    if starts_with(s, p) {
        let res = replace_all(s, p, r);
        assert(res.subrange(0, r.len() as int) =~= r);
        assert(occurs_at(res, r, 0));
    } else {
        if i == 0 {
            assert(s.subrange(0, p.len() as int) == p);
        }
        let rest = s.drop_first();
        assert(rest.subrange(i - 1, i - 1 + p.len()) =~= s.subrange(i, i + p.len()));
        assert(occurs_at(rest, p, i - 1));
        lemma_replace_all_contains(rest, p, r);
        let t = replace_all(rest, p, r);
        let j = choose|j: int| occurs_at(t, r, j);
        let res = replace_all(s, p, r);
        assert(res == seq![s[0]] + t);
        assert(res.subrange(j + 1, j + 1 + r.len()) =~= t.subrange(j, j + r.len()));
        assert(occurs_at(res, r, j + 1));
    }
}

// ---------------------------------------------------------------------------
// Executable functions
// ---------------------------------------------------------------------------

/// The characters of a string slice, in order.
pub fn chars_of(s: &str) -> (v: Vec<char>)
    ensures
        v@ == s@,
{
    let mut v: Vec<char> = Vec::new();
    for c in it: s.chars()
        invariant
            v@ == it.seq().take(it.index() as int),
            it.seq() == s@,
    {
        v.push(c);
    }
    v
}

/// `String::push`: appends one character.
#[verifier::external_body]
fn push_char(s: &mut String, c: char)
    ensures
        final(s)@ == old(s)@.push(c),
{
    s.push(c);
}

/// The string made of the characters `s[from..to]`.
pub fn string_of_range(s: &[char], from: usize, to: usize) -> (r: String)
    requires
        from <= to <= s@.len(),
    ensures
        r@ == s@.subrange(from as int, to as int),
{
    let mut r = String::new();
    let mut i = from;
    while i < to
        invariant
            from <= i <= to <= s@.len(),
            r@ == s@.subrange(from as int, i as int),
        decreases to - i,
    {
        push_char(&mut r, s[i]);
        assert(s@.subrange(from as int, i + 1) =~= s@.subrange(from as int, i as int).push(s@[i as int]));
        i = i + 1;
    }
    r
}

/// Appends the characters `s[from..to]` to `out`.
pub fn append_range(out: &mut String, s: &[char], from: usize, to: usize)
    requires
        from <= to <= s@.len(),
    ensures
        final(out)@ == old(out)@ + s@.subrange(from as int, to as int),
{
    let mut i = from;
    while i < to
        invariant
            from <= i <= to <= s@.len(),
            out@ == old(out)@ + s@.subrange(from as int, i as int),
        decreases to - i,
    {
        push_char(out, s[i]);
        assert(s@.subrange(from as int, i + 1) =~= s@.subrange(from as int, i as int).push(s@[i as int]));
        i = i + 1;
    }
}

/// `char::is_whitespace`.
pub fn is_whitespace(c: char) -> (b: bool)
    ensures
        b == is_ws(c),
{
    c == '\t' || c == '\n' || c == '\u{0B}' || c == '\u{0C}' || c == '\r' || c == ' '
        || c == '\u{85}' || c == '\u{A0}' || c == '\u{1680}' || ('\u{2000}' <= c && c
        <= '\u{200A}') || c == '\u{2028}' || c == '\u{2029}' || c == '\u{202F}' || c
        == '\u{205F}' || c == '\u{3000}'
}

/// Number of bytes of the UTF-8 encoding of `c` (`char::len_utf8`).
pub fn char_len_utf8(c: char) -> (n: usize)
    ensures
        n == char_utf8_len(c),
        1 <= n <= 4,
{
    let u = c as u32;
    if u <= 0x7F {
        1
    } else if u <= 0x7FF {
        2
    } else if u <= 0xFFFF {
        3
    } else {
        4
    }
}

/// Bounds `(a, b)` such that `s[a..b]` is `s[from..to]` trimmed.
pub fn trim_bounds(s: &[char], from: usize, to: usize) -> (r: (usize, usize))
    requires
        from <= to <= s@.len(),
    ensures
        from <= r.0 <= r.1 <= to,
        s@.subrange(r.0 as int, r.1 as int) == trim(s@.subrange(from as int, to as int)),
        s@.subrange(r.0 as int, to as int) == trim_start(s@.subrange(from as int, to as int)),
{
    let ghost whole = s@.subrange(from as int, to as int);
    let mut a = from;
    while a < to && is_whitespace(s[a])
        invariant
            from <= a <= to <= s@.len(),
            whole == s@.subrange(from as int, to as int),
            lead_ws(whole) == (a - from) + lead_ws(s@.subrange(a as int, to as int)),
        decreases to - a,
    {
        let ghost t = s@.subrange(a as int, to as int);
        assert(t.drop_first() =~= s@.subrange(a + 1, to as int));
        a = a + 1;
    }
    assert(trim_start(whole) =~= s@.subrange(a as int, to as int));
    let ghost mid = s@.subrange(a as int, to as int);
    let mut b = to;
    while b > a && is_whitespace(s[b - 1])
        invariant
            from <= a <= b <= to <= s@.len(),
            mid == s@.subrange(a as int, to as int),
            trail_ws(mid) == (to - b) + trail_ws(s@.subrange(a as int, b as int)),
        decreases b - a,
    {
        let ghost t = s@.subrange(a as int, b as int);
        assert(t.drop_last() =~= s@.subrange(a as int, b - 1));
        b = b - 1;
    }
    assert(trim_end(mid) =~= s@.subrange(a as int, b as int));
    (a, b)
}

/// Whether `s[from..to]` equals `p`.
pub fn range_eq(s: &[char], from: usize, to: usize, p: &[char]) -> (b: bool)
    requires
        from <= to <= s@.len(),
    ensures
        b == (s@.subrange(from as int, to as int) == p@),
{
    if to - from != p.len() {
        return false;
    }
    let mut i: usize = 0;
    while i < p.len()
        invariant
            from <= to <= s@.len(),
            to - from == p@.len(),
            i <= p@.len(),
            forall|k: int| 0 <= k < i ==> s@[from + k] == p@[k],
        decreases p.len() - i,
    {
        if s[from + i] != p[i] {
            assert(s@.subrange(from as int, to as int)[i as int] != p@[i as int]);
            return false;
        }
        i = i + 1;
    }
    assert(s@.subrange(from as int, to as int) =~= p@);
    true
}

/// Whether `s[from..to]` begins with `p`.
pub fn range_starts_with(s: &[char], from: usize, to: usize, p: &[char]) -> (b: bool)
    requires
        from <= to <= s@.len(),
    ensures
        b == starts_with(s@.subrange(from as int, to as int), p@),
{
    if to - from < p.len() {
        return false;
    }
    let r = range_eq(s, from, from + p.len(), p);
    assert(s@.subrange(from as int, to as int).subrange(0, p@.len() as int) =~= s@.subrange(
        from as int,
        from + p@.len(),
    ));
    r
}

/// Whether `p` occurs in `s[from..to]`.
pub fn range_contains(s: &[char], from: usize, to: usize, p: &[char]) -> (b: bool)
    requires
        from <= to <= s@.len(),
    ensures
        b == contains(s@.subrange(from as int, to as int), p@),
{
    let ghost t = s@.subrange(from as int, to as int);
    if to - from < p.len() {
        assert forall|i: int| !occurs_at(t, p@, i) by {}
        return false;
    }
    if p.len() == 0 {
        assert(t.subrange(0, 0) =~= p@);
        assert(occurs_at(t, p@, 0));
        return true;
    }
    let last = to - p.len();
    let mut i = from;
    while i <= last
        invariant
            from <= i <= last + 1,
            last + p@.len() == to,
            p@.len() >= 1,
            to <= s@.len(),
            t == s@.subrange(from as int, to as int),
            forall|k: int| 0 <= k < i - from ==> !occurs_at(t, p@, k),
        decreases last + 1 - i,
    {
        if range_eq(s, i, i + p.len(), p) {
            assert(t.subrange(i - from, i - from + p@.len()) =~= s@.subrange(i as int, i + p@.len()));
            assert(occurs_at(t, p@, i - from));
            return true;
        }
        assert(t.subrange(i - from, i - from + p@.len()) =~= s@.subrange(i as int, i + p@.len()));
        i = i + 1;
    }
    assert forall|k: int| !occurs_at(t, p@, k) by {
        if 0 <= k < i - from {
        }
    }
    false
}

/// The sequence of subranges of `s` named by `r`.
pub open spec fn ranges_view(s: Seq<char>, r: Seq<(usize, usize)>) -> Seq<Seq<char>> {
    Seq::new(r.len(), |k: int| s.subrange(r[k].0 as int, r[k].1 as int))
}

/// Index of the first `'\n'` in `s` at or after `from`, or `s.len()`.
pub fn find_newline(s: &[char], from: usize) -> (j: usize)
    requires
        from <= s@.len(),
    ensures
        j == next_nl(s@, from as int),
        from <= j <= s@.len(),
{
    proof {
        lemma_next_nl_bounds(s@, from as int);
    }
    let mut j = from;
    while j < s.len() && s[j] != '\n'
        invariant
            from <= j <= s@.len(),
            next_nl(s@, j as int) == next_nl(s@, from as int),
        decreases s@.len() - j,
    {
        j = j + 1;
    }
    j
}

/// The lines of `s` (`str::lines`), as ranges of positions.
pub fn line_ranges(s: &[char]) -> (r: Vec<(usize, usize)>)
    ensures
        forall|k: int| #![trigger r@[k]] 0 <= k < r@.len() ==> r@[k].0 <= r@[k].1 <= s@.len(),
        forall|k: int| #![trigger r@[k]] 0 <= k < r@.len() ==> r@[k].0 == line_start(s@, k as nat),
        ranges_view(s@, r@) == lines(s@),
{
    let mut r: Vec<(usize, usize)> = Vec::new();
    let mut pos: usize = 0;
    while pos < s.len()
        invariant
            pos <= s@.len(),
            forall|k: int| #![trigger r@[k]] 0 <= k < r@.len() ==> r@[k].0 <= r@[k].1 <= s@.len(),
            forall|k: int| #![trigger r@[k]] 0 <= k < r@.len() ==> r@[k].0 == line_start(s@, k as nat),
            pos == line_start(s@, r@.len()),
            lines(s@) == ranges_view(s@, r@) + lines_from(s@, pos as int),
        decreases s@.len() - pos,
    {
        let j = find_newline(s, pos);
        let mut end = j;
        if j < s.len() && j > pos && s[j - 1] == '\r' {
            end = j - 1;
        }
        let ghost old_r = r@;
        r.push((pos, end));
        let ghost line = s@.subrange(pos as int, end as int);
        assert(line == strip_cr(s@.subrange(pos as int, j as int), j < s@.len()));
        assert(lines_from(s@, pos as int) == seq![line] + lines_from(s@, j + 1));
        assert(ranges_view(s@, r@) =~= ranges_view(s@, old_r).push(line));
        assert forall|k: int| #![trigger r@[k]] 0 <= k < r@.len() implies r@[k].0 == line_start(s@, k as nat) by {
            if k < old_r.len() {
                assert(r@[k] == old_r[k]);
            }
        }
        if j == s.len() {
            assert(lines_from(s@, j + 1) =~= Seq::<Seq<char>>::empty());
            assert(lines(s@) =~= ranges_view(s@, r@));
            return r;
        }
        proof {
            lemma_skip_lines_add(s@, 0, old_r.len(), 1);
            assert(skip_lines(s@, pos as int, 1) == skip_lines(s@, j + 1, 0));
        }
        assert(lines(s@) =~= ranges_view(s@, r@) + lines_from(s@, j + 1));
        pos = j + 1;
    }
    assert(lines_from(s@, pos as int) =~= Seq::<Seq<char>>::empty());
    assert(lines(s@) =~= ranges_view(s@, r@));
    r
}

/// `v[i]` is the byte offset of character `i` of `s` in its UTF-8 encoding,
/// for every `i` up to `s.len()`.
pub fn byte_positions(s: &[char]) -> (v: Vec<usize>)
    requires
        utf8_len(s@) <= usize::MAX,
    ensures
        v@.len() == s@.len() + 1,
        forall|i: int| 0 <= i <= s@.len() ==> #[trigger] v@[i] == utf8_len(s@.take(i)),
{
    let mut v: Vec<usize> = Vec::new();
    let mut acc: usize = 0;
    assert(s@.take(0) =~= Seq::<char>::empty());
    assert(utf8_len(Seq::<char>::empty()) == 0) by {
        assert(encode_utf8(Seq::<char>::empty()) =~= Seq::<u8>::empty());
    }
    v.push(0);
    let mut i: usize = 0;
    while i < s.len()
        invariant
            i <= s@.len(),
            utf8_len(s@) <= usize::MAX,
            acc == utf8_len(s@.take(i as int)),
            v@.len() == i + 1,
            forall|k: int| 0 <= k <= i ==> #[trigger] v@[k] == utf8_len(s@.take(k)),
        decreases s@.len() - i,
    {
        proof {
            assert(s@.take(i + 1) =~= s@.take(i as int).push(s@[i as int]));
            lemma_utf8_len_push(s@.take(i as int), s@[i as int]);
            lemma_utf8_subrange_le(s@, 0, i + 1);
        }
        acc = acc + char_len_utf8(s[i]);
        v.push(acc);
        i = i + 1;
    }
    v
}

/// Whether two string slices hold the same characters.
pub fn str_eq(a: &str, b: &str) -> (r: bool)
    ensures
        r == (a@ == b@),
{
    let ca = chars_of(a);
    let cb = chars_of(b);
    let r = range_eq(ca.as_slice(), 0, ca.len(), cb.as_slice());
    assert(ca@.subrange(0, ca@.len() as int) =~= ca@);
    r
}

/// `a` followed by `b`, as a new string.
pub fn concat_str(a: &str, b: &str) -> (r: String)
    ensures
        r@ == a@ + b@,
{
    let mut r = a.to_owned();
    let cb = chars_of(b);
    append_range(&mut r, cb.as_slice(), 0, cb.len());
    assert(cb@.subrange(0, cb@.len() as int) =~= cb@);
    r
}

/// Whether `a[a0..a1]` equals `b[b0..b1]`.
pub fn sub_eq(a: &[char], a0: usize, a1: usize, b: &[char], b0: usize, b1: usize) -> (r: bool)
    requires
        a0 <= a1 <= a@.len(),
        b0 <= b1 <= b@.len(),
    ensures
        r == (a@.subrange(a0 as int, a1 as int) == b@.subrange(b0 as int, b1 as int)),
{
    if a1 - a0 != b1 - b0 {
        assert(a@.subrange(a0 as int, a1 as int).len() != b@.subrange(b0 as int, b1 as int).len());
        return false;
    }
    let mut i: usize = 0;
    while i < a1 - a0
        invariant
            a0 <= a1 <= a@.len(),
            b0 <= b1 <= b@.len(),
            a1 - a0 == b1 - b0,
            i <= a1 - a0,
            forall|k: int| 0 <= k < i ==> #[trigger] a@.subrange(a0 as int, a1 as int)[k] == b@.subrange(b0 as int, b1 as int)[k],
        decreases a1 - a0 - i,
    {
        if a[a0 + i] != b[b0 + i] {
            assert(a@.subrange(a0 as int, a1 as int)[i as int] != b@.subrange(b0 as int, b1 as int)[i as int]);
            return false;
        }
        i = i + 1;
    }
    assert(a@.subrange(a0 as int, a1 as int) =~= b@.subrange(b0 as int, b1 as int));
    true
}

/// The ranges `r[from..to]` of `s` joined with `sep`.
pub fn join_ranges(s: &[char], r: &Vec<(usize, usize)>, from: usize, to: usize, sep: char) -> (out: String)
    requires
        forall|q: int| #![trigger r@[q]] 0 <= q < r@.len() ==> r@[q].0 <= r@[q].1 <= s@.len(),
        from <= to <= r@.len(),
    ensures
        out@ == join(ranges_view(s@, r@).subrange(from as int, to as int), seq![sep]),
{
    let ghost parts = ranges_view(s@, r@);
    let mut out = String::new();
    let mut q = from;
    assert(parts.subrange(from as int, q as int) =~= Seq::<Seq<char>>::empty());
    while q < to
        invariant
            from <= q <= to <= r@.len(),
            parts == ranges_view(s@, r@),
            forall|k: int| #![trigger r@[k]] 0 <= k < r@.len() ==> r@[k].0 <= r@[k].1 <= s@.len(),
            out@ == join(parts.subrange(from as int, q as int), seq![sep]),
        decreases to - q,
    {
        let ghost before = parts.subrange(from as int, q as int);
        let (ca, cb) = r[q];
        if q > from {
            push_char(&mut out, sep);
            assert(out@ =~= join(before, seq![sep]) + seq![sep]);
        }
        append_range(&mut out, s, ca, cb);
        proof {
            let after = parts.subrange(from as int, q + 1);
            assert(after.drop_last() =~= before);
            assert(after.last() == s@.subrange(ca as int, cb as int));
            if q == from {
                assert(out@ =~= after[0]);
            }
        }
        q = q + 1;
    }
    out
}

/// `s` with every occurrence of `p` replaced by `r` (`str::replace`).
pub fn replace_str(s: &str, p: &str, r: &str) -> (out: String)
    ensures
        out@ == replace_all(s@, p@, r@),
{
    let cs = chars_of(s);
    let cp = chars_of(p);
    let cr = chars_of(r);
    let ghost t = cs@;
    let mut out = String::new();
    let mut i: usize = 0;
    assert(t.subrange(0, t.len() as int) =~= t);
    assert(cr@.subrange(0, cr@.len() as int) =~= cr@);
    while i < cs.len()
        invariant
            i <= cs@.len(),
            t == cs@,
            cp@ == p@,
            cr@ == r@,
            cr@.subrange(0, cr@.len() as int) == cr@,
            replace_all(t, p@, r@) == out@ + replace_all(t.subrange(i as int, t.len() as int), p@, r@),
        decreases cs@.len() - i,
    {
        let ghost rest = t.subrange(i as int, t.len() as int);
        let ghost before = out@;
        if cp.len() == 0 {
            append_range(&mut out, cr.as_slice(), 0, cr.len());
            push_char(&mut out, cs[i]);
            assert(rest.drop_first() =~= t.subrange(i + 1, t.len() as int));
            assert(out@ =~= before + r@ + seq![rest[0]]);
            i = i + 1;
        } else if range_starts_with(cs.as_slice(), i, cs.len(), cp.as_slice()) {
            append_range(&mut out, cr.as_slice(), 0, cr.len());
            assert(rest.subrange(p@.len() as int, rest.len() as int) =~= t.subrange(i + p@.len(), t.len() as int));
            i = i + cp.len();
        } else {
            push_char(&mut out, cs[i]);
            assert(rest.drop_first() =~= t.subrange(i + 1, t.len() as int));
            assert(out@ =~= before + seq![rest[0]]);
            i = i + 1;
        }
    }
    if cp.len() == 0 {
        append_range(&mut out, cr.as_slice(), 0, cr.len());
    }
    assert(t.subrange(i as int, t.len() as int) =~= Seq::<char>::empty());
    out
}

/// The parts joined with `sep` (`[String]::join`).
pub fn join_strings(parts: &Vec<String>, sep: &str) -> (out: String)
    ensures
        out@ == join(parts@.map_values(|p: String| p@), sep@),
{
    let ghost ps = parts@.map_values(|p: String| p@);
    let csep = chars_of(sep);
    let mut out = String::new();
    let mut q: usize = 0;
    assert(ps.take(0) =~= Seq::<Seq<char>>::empty());
    assert(csep@.subrange(0, csep@.len() as int) =~= csep@);
    while q < parts.len()
        invariant
            q <= parts@.len(),
            ps == parts@.map_values(|p: String| p@),
            csep@ == sep@,
            csep@.subrange(0, csep@.len() as int) == csep@,
            out@ == join(ps.take(q as int), sep@),
        decreases parts@.len() - q,
    {
        let ghost before = ps.take(q as int);
        if q > 0 {
            append_range(&mut out, csep.as_slice(), 0, csep.len());
        }
        let cp = chars_of(parts[q].as_str());
        append_range(&mut out, cp.as_slice(), 0, cp.len());
        proof {
            assert(cp@.subrange(0, cp@.len() as int) =~= cp@);
            let after = ps.take(q + 1);
            assert(after.drop_last() =~= before);
            assert(after.last() == parts@[q as int]@);
            if q == 0 {
                assert(out@ =~= after[0]);
            }
        }
        q = q + 1;
    }
    assert(ps.take(parts@.len() as int) =~= ps);
    out
}

/// The decimal digit for `d` (0 to 9).
pub open spec fn digit_char(d: int) -> char {
    if d == 0 {
        '0'
    } else if d == 1 {
        '1'
    } else if d == 2 {
        '2'
    } else if d == 3 {
        '3'
    } else if d == 4 {
        '4'
    } else if d == 5 {
        '5'
    } else if d == 6 {
        '6'
    } else if d == 7 {
        '7'
    } else if d == 8 {
        '8'
    } else {
        '9'
    }
}

/// The decimal form of `n`, without leading zeros (`usize`'s `Display`).
pub open spec fn decimal(n: nat) -> Seq<char>
    decreases n,
{
    if n < 10 {
        seq![digit_char(n as int)]
    } else {
        decimal(n / 10).push(digit_char((n % 10) as int))
    }
}

/// Appends the decimal form of `n`.
pub fn push_decimal(out: &mut String, n: usize)
    ensures
        final(out)@ == old(out)@ + decimal(n as nat),
    decreases n,
{
    if n >= 10 {
        push_decimal(out, n / 10);
    }
    let d = n % 10;
    let c = if d == 0 {
        '0'
    } else if d == 1 {
        '1'
    } else if d == 2 {
        '2'
    } else if d == 3 {
        '3'
    } else if d == 4 {
        '4'
    } else if d == 5 {
        '5'
    } else if d == 6 {
        '6'
    } else if d == 7 {
        '7'
    } else if d == 8 {
        '8'
    } else {
        '9'
    };
    push_char(out, c);
    if n < 10 {
        assert(old(out)@ + decimal(n as nat) =~= old(out)@.push(c));
    } else {
        assert(decimal(n as nat) == decimal((n / 10) as nat).push(c));
    }
}

/// A text of ASCII characters only.
pub open spec fn is_ascii_text(s: Seq<char>) -> bool {
    forall|k: int| 0 <= k < s.len() ==> (s[k] as u32) < 128
}

/// `c` with 'A'..='Z' turned into 'a'..='z' (`char::to_ascii_lowercase`).
pub open spec fn ascii_lower_char(c: char) -> char {
    if 'A' <= c && c <= 'Z' {
        ((c as u32) + 32) as char
    } else {
        c
    }
}

/// `c` with 'a'..='z' turned into 'A'..='Z' (`char::to_ascii_uppercase`).
pub open spec fn ascii_upper_char(c: char) -> char {
    if 'a' <= c && c <= 'z' {
        ((c as u32) - 32) as char
    } else {
        c
    }
}

/// `s` with its ASCII capitals lowercased.
pub open spec fn ascii_lowercase(s: Seq<char>) -> Seq<char> {
    s.map_values(|c: char| ascii_lower_char(c))
}

/// `s` with its ASCII small letters capitalized.
pub open spec fn ascii_uppercase(s: Seq<char>) -> Seq<char> {
    s.map_values(|c: char| ascii_upper_char(c))
}

/// What `str::to_lowercase` returns for the given characters: the Unicode
/// lowercase mapping, which takes tables to state.
pub uninterp spec fn lowercase(s: Seq<char>) -> Seq<char>;

/// `str::to_lowercase`: the Unicode lowercase mapping of the text, which on
/// ASCII text turns 'A'..='Z' into 'a'..='z' and keeps every other
/// character. Beyond ASCII the mapping is left to the name `lowercase`.
#[verifier::external_body]
pub(crate) fn to_lowercase(s: &str) -> (r: String)
    ensures
        r@ == lowercase(s@),
        is_ascii_text(s@) ==> r@ == ascii_lowercase(s@),
{
    s.to_lowercase()
}

} // verus!
