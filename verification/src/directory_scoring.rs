//! Directory scoring: the keys by which a directory is matched against the
//! path-keyed scores that a language model returns.
use vstd::prelude::*;
use crate::text::{
    append_range, chars_of, concat_str, decimal, join, join_ranges, join_strings, push_decimal,
    is_ws, lead_ws, lemma_ws_bounds, ranges_view, sub_eq, trail_ws, trim, trim_bounds, trim_end, trim_start,
};

verus! {

// ---------------------------------------------------------------------------
// Normalizing path keys
// ---------------------------------------------------------------------------

/// `s` with every `'\\'` turned into `'/'`.
pub open spec fn unify_separators(s: Seq<char>) -> Seq<char> {
    s.map_values(|c: char| if c == '\\' { '/' } else { c })
}

/// `s` with every leading "./" removed (`trim_start_matches("./")`).
pub open spec fn strip_dot_slash(s: Seq<char>) -> Seq<char>
    decreases s.len(),
{
    if s.len() >= 2 && s[0] == '.' && s[1] == '/' {
        strip_dot_slash(s.subrange(2, s.len() as int))
    } else {
        s
    }
}

/// `s` with every leading `'/'` removed (`trim_start_matches('/')`).
pub open spec fn strip_leading_slashes(s: Seq<char>) -> Seq<char>
    decreases s.len(),
{
    if s.len() >= 1 && s[0] == '/' {
        strip_leading_slashes(s.drop_first())
    } else {
        s
    }
}

/// `s` with every trailing `'/'` removed (`trim_end_matches('/')`).
pub open spec fn strip_trailing_slashes(s: Seq<char>) -> Seq<char>
    decreases s.len(),
{
    if s.len() >= 1 && s.last() == '/' {
        strip_trailing_slashes(s.drop_last())
    } else {
        s
    }
}

/// The comparison key of a path: trimmed, with `'/'` as the only separator,
/// and without leading "./", leading `'/'` or trailing `'/'`.
pub open spec fn normalize_key(path: Seq<char>) -> Seq<char> {
    strip_trailing_slashes(strip_leading_slashes(strip_dot_slash(unify_separators(trim(path)))))
}

proof fn lemma_lead_ws_unify(s: Seq<char>)
    ensures
        lead_ws(unify_separators(s)) == lead_ws(s),
    decreases s.len(),
{
    if s.len() > 0 {
        assert(unify_separators(s).drop_first() =~= unify_separators(s.drop_first()));
        lemma_lead_ws_unify(s.drop_first());
    }
}

proof fn lemma_trail_ws_unify(s: Seq<char>)
    ensures
        trail_ws(unify_separators(s)) == trail_ws(s),
    decreases s.len(),
{
    if s.len() > 0 {
        assert(unify_separators(s).drop_last() =~= unify_separators(s.drop_last()));
        lemma_trail_ws_unify(s.drop_last());
    }
}

/// Trimming and unifying separators commute.
proof fn lemma_trim_unify(s: Seq<char>)
    ensures
        trim(unify_separators(s)) == unify_separators(trim(s)),
{
    lemma_lead_ws_unify(s);
    lemma_ws_bounds(s);
    lemma_ws_bounds(trim_start(s));
    assert(trim_start(unify_separators(s)) =~= unify_separators(trim_start(s)));
    lemma_trail_ws_unify(trim_start(s));
    assert(trim_end(unify_separators(trim_start(s))) =~= unify_separators(trim_end(trim_start(s))));
}

/// A path written with '\\' as separator has the same key as the path
/// written with '/': the key does not depend on the separator style.
pub proof fn law_key_ignores_separator_style(p: Seq<char>)
    ensures
        normalize_key(unify_separators(p)) == normalize_key(p),
{
    lemma_trim_unify(p);
    assert(unify_separators(unify_separators(trim(p))) =~= unify_separators(trim(p)));
}

/// Trailing whitespace of `a + b` is that of `b` when `b` is not all
/// whitespace.
proof fn lemma_trail_ws_concat(a: Seq<char>, b: Seq<char>)
    requires
        trail_ws(b) < b.len(),
    ensures
        trail_ws(a + b) == trail_ws(b),
    decreases b.len(),
{
    lemma_ws_bounds(b);
    assert((a + b).last() == b.last());
    if is_ws(b.last()) {
        assert((a + b).drop_last() =~= a + b.drop_last());
        lemma_trail_ws_concat(a, b.drop_last());
    }
}

/// A text whose first character is not whitespace is not all whitespace.
proof fn lemma_trail_ws_short(s: Seq<char>)
    requires
        s.len() > 0,
        !is_ws(s[0]),
    ensures
        trail_ws(s) < s.len(),
    decreases s.len(),
{
    if s.len() > 1 && is_ws(s.last()) {
        assert(s.drop_last()[0] == s[0]);
        lemma_trail_ws_short(s.drop_last());
    }
}

/// A leading "./" before a path without leading whitespace does not change
/// its key.
pub proof fn law_key_ignores_leading_dot_slash(p: Seq<char>)
    requires
        trim_start(p) == p,
    ensures
        normalize_key("./"@ + p) == normalize_key(p),
{
    let dp = "./"@ + p;
    reveal_strlit("./");
    lemma_ws_bounds(p);
    lemma_ws_bounds(dp);
    assert(lead_ws(p) == 0) by {
        assert(trim_start(p).len() == p.len() - lead_ws(p));
    }
    assert(lead_ws(dp) == 0);
    assert(trim_start(dp) =~= dp);
    if p.len() == 0 {
        assert(dp =~= seq!['.', '/']);
        assert(trim_end(dp) =~= dp);
        assert(unify_separators(dp) =~= seq!['.', '/']);
        let e = seq!['.', '/'];
        assert(e.len() == 2 && e[0] == '.' && e[1] == '/');
        assert(e.subrange(2, 2) =~= Seq::<char>::empty());
        assert(strip_dot_slash(e) == strip_dot_slash(e.subrange(2, 2)));
        assert(strip_dot_slash(Seq::<char>::empty()) == Seq::<char>::empty());
        assert(trim(p) =~= p);
        assert(unify_separators(p) =~= Seq::<char>::empty());
    } else {
        assert(!is_ws(p[0]));
        lemma_trail_ws_short(p);
        lemma_trail_ws_concat("./"@, p);
        assert(trim_start(p) =~= p);
        let tp = trim(p);
        assert(trim(dp) =~= "./"@ + tp);
        let u = unify_separators(tp);
        assert(unify_separators("./"@ + tp) =~= "./"@ + u);
        assert(("./"@ + u).subrange(2, ("./"@ + u).len() as int) =~= u);
        assert(strip_dot_slash("./"@ + u) == strip_dot_slash(u));
    }
}

/// Normalizing a key again changes nothing, unless the key has surrounding
/// whitespace or begins with "./" (which a first pass can uncover, as in
/// "/./a" or "/ a").
pub proof fn law_key_idempotent(p: Seq<char>)
    requires
        trim(normalize_key(p)) == normalize_key(p),
        !(normalize_key(p).len() >= 2 && normalize_key(p)[0] == '.' && normalize_key(p)[1] == '/'),
    ensures
        normalize_key(normalize_key(p)) == normalize_key(p),
{
    let n = normalize_key(p);
    lemma_key_shape(p);
    assert(unify_separators(n) =~= n);
    if n.len() > 0 {
        assert(strip_leading_slashes(n) == n);
        assert(strip_trailing_slashes(n) == n);
    } else {
        assert(strip_dot_slash(n) == n);
    }
}

/// A key has no '\\' and neither begins nor ends with '/'.
pub proof fn lemma_key_shape(p: Seq<char>)
    ensures
        forall|k: int| 0 <= k < normalize_key(p).len() ==> normalize_key(p)[k] != '\\',
        normalize_key(p).len() > 0 ==> normalize_key(p)[0] != '/' && normalize_key(p).last() != '/',
{
    let u = unify_separators(trim(p));
    let a = strip_dot_slash(u);
    let b = strip_leading_slashes(a);
    let c = strip_trailing_slashes(b);
    lemma_strip_dot_slash_suffix(u);
    lemma_strip_leading_suffix(a);
    lemma_strip_trailing_prefix(b);
    assert forall|k: int| 0 <= k < c.len() implies c[k] != '\\' by {
        assert(c[k] == b[k]);
        assert(b[k] == a[k + a.len() - b.len()]);
        assert(a[k + a.len() - b.len()] == u[k + a.len() - b.len() + u.len() - a.len()]);
    }
    if c.len() > 0 {
        lemma_strip_leading_first(a);
        lemma_strip_trailing_last(b);
        assert(c[0] == b[0]);
    }
}

proof fn lemma_strip_dot_slash_suffix(s: Seq<char>)
    ensures
        strip_dot_slash(s) == s.subrange(s.len() - strip_dot_slash(s).len(), s.len() as int),
        strip_dot_slash(s).len() <= s.len(),
    decreases s.len(),
{
    if s.len() >= 2 && s[0] == '.' && s[1] == '/' {
        let t = s.subrange(2, s.len() as int);
        lemma_strip_dot_slash_suffix(t);
        assert(t.subrange(t.len() - strip_dot_slash(t).len(), t.len() as int) =~= s.subrange(
            s.len() - strip_dot_slash(t).len(),
            s.len() as int,
        ));
    } else {
        assert(s.subrange(0, s.len() as int) =~= s);
    }
}

proof fn lemma_strip_leading_suffix(s: Seq<char>)
    ensures
        strip_leading_slashes(s) == s.subrange(s.len() - strip_leading_slashes(s).len(), s.len() as int),
        strip_leading_slashes(s).len() <= s.len(),
    decreases s.len(),
{
    if s.len() >= 1 && s[0] == '/' {
        let t = s.drop_first();
        lemma_strip_leading_suffix(t);
        assert(t.subrange(t.len() - strip_leading_slashes(t).len(), t.len() as int) =~= s.subrange(
            s.len() - strip_leading_slashes(t).len(),
            s.len() as int,
        ));
    } else {
        assert(s.subrange(0, s.len() as int) =~= s);
    }
}

proof fn lemma_strip_trailing_prefix(s: Seq<char>)
    ensures
        strip_trailing_slashes(s) == s.subrange(0, strip_trailing_slashes(s).len() as int),
        strip_trailing_slashes(s).len() <= s.len(),
    decreases s.len(),
{
    if s.len() >= 1 && s.last() == '/' {
        let t = s.drop_last();
        lemma_strip_trailing_prefix(t);
        assert(t.subrange(0, strip_trailing_slashes(t).len() as int) =~= s.subrange(
            0,
            strip_trailing_slashes(t).len() as int,
        ));
    } else {
        assert(s.subrange(0, s.len() as int) =~= s);
    }
}

proof fn lemma_strip_leading_first(s: Seq<char>)
    ensures
        strip_leading_slashes(s).len() > 0 ==> strip_leading_slashes(s)[0] != '/',
    decreases s.len(),
{
    if s.len() >= 1 && s[0] == '/' {
        lemma_strip_leading_first(s.drop_first());
    }
}

proof fn lemma_strip_trailing_last(s: Seq<char>)
    ensures
        strip_trailing_slashes(s).len() > 0 ==> strip_trailing_slashes(s).last() != '/',
        strip_trailing_slashes(s).len() > 0 && s.len() > 0 && s[0] != '/' ==> strip_trailing_slashes(s)[0] != '/',
    decreases s.len(),
{
    if s.len() >= 1 && s.last() == '/' {
        lemma_strip_trailing_last(s.drop_last());
        if s.len() > 1 {
            assert(s.drop_last()[0] == s[0]);
        }
    }
}

/// The trimmed text of `path` with `'/'` as its only separator.
fn unified_trimmed(path: &str) -> (u: Vec<char>)
    ensures
        u@ == unify_separators(trim(path@)),
{
    let chars = chars_of(path);
    let (a, b) = trim_bounds(chars.as_slice(), 0, chars.len());
    assert(chars@.subrange(0, chars@.len() as int) =~= chars@);
    let mut u: Vec<char> = Vec::new();
    let mut i = a;
    while i < b
        invariant
            a <= i <= b <= chars@.len(),
            u@ == unify_separators(chars@.subrange(a as int, i as int)),
        decreases b - i,
    {
        let c = chars[i];
        if c == '\\' {
            u.push('/');
        } else {
            u.push(c);
        }
        assert(unify_separators(chars@.subrange(a as int, i + 1)) =~= unify_separators(
            chars@.subrange(a as int, i as int),
        ).push(if c == '\\' { '/' } else { c }));
        i = i + 1;
    }
    u
}

/// Position in `u` after every leading "./" from `lo` on.
fn skip_dot_slash(u: &Vec<char>, lo: usize) -> (r: usize)
    requires
        lo <= u@.len(),
    ensures
        lo <= r <= u@.len(),
        strip_dot_slash(u@.subrange(lo as int, u@.len() as int)) == u@.subrange(r as int, u@.len() as int),
{
    let ghost t = u@;
    let mut i = lo;
    while u.len() - i >= 2 && u[i] == '.' && u[i + 1] == '/'
        invariant
            lo <= i <= u@.len(),
            t == u@,
            strip_dot_slash(t.subrange(lo as int, t.len() as int)) == strip_dot_slash(t.subrange(i as int, t.len() as int)),
        decreases u@.len() - i,
    {
        assert(t.subrange(i as int, t.len() as int).subrange(2, t.len() - i) =~= t.subrange(
            i + 2,
            t.len() as int,
        ));
        i = i + 2;
    }
    i
}

/// Position in `u` after every leading `'/'` from `lo` on.
fn skip_slashes(u: &Vec<char>, lo: usize) -> (r: usize)
    requires
        lo <= u@.len(),
    ensures
        lo <= r <= u@.len(),
        strip_leading_slashes(u@.subrange(lo as int, u@.len() as int)) == u@.subrange(r as int, u@.len() as int),
        r < u@.len() ==> u@[r as int] != '/',
{
    let ghost t = u@;
    let mut i = lo;
    while i < u.len() && u[i] == '/'
        invariant
            lo <= i <= u@.len(),
            t == u@,
            strip_leading_slashes(t.subrange(lo as int, t.len() as int)) == strip_leading_slashes(t.subrange(i as int, t.len() as int)),
        decreases u@.len() - i,
    {
        assert(t.subrange(i as int, t.len() as int).drop_first() =~= t.subrange(i + 1, t.len() as int));
        i = i + 1;
    }
    i
}

/// End position in `u[lo..]` before every trailing `'/'`.
fn trailing_slashes_start(u: &Vec<char>, lo: usize) -> (r: usize)
    requires
        lo <= u@.len(),
    ensures
        lo <= r <= u@.len(),
        strip_trailing_slashes(u@.subrange(lo as int, u@.len() as int)) == u@.subrange(lo as int, r as int),
        r > lo ==> u@[r - 1] != '/',
{
    let ghost t = u@;
    let mut hi = u.len();
    while hi > lo && u[hi - 1] == '/'
        invariant
            lo <= hi <= u@.len(),
            t == u@,
            strip_trailing_slashes(t.subrange(lo as int, t.len() as int)) == strip_trailing_slashes(t.subrange(lo as int, hi as int)),
        decreases hi - lo,
    {
        assert(t.subrange(lo as int, hi as int).drop_last() =~= t.subrange(lo as int, hi - 1));
        hi = hi - 1;
    }
    hi
}

/// Normalize a path string for comparison: trim, unify separators, strip `./` and leading `/`.
pub fn normalize_path_key(path: &str) -> (r: String)
    ensures
        r@ == normalize_key(path@),
        !r@.contains('\\'),
        r@.len() > 0 ==> r@[0] != '/' && r@.last() != '/',
{
    let u = unified_trimmed(path);
    let ghost t = u@;
    assert(t.subrange(0, t.len() as int) =~= t);
    let lo1 = skip_dot_slash(&u, 0);
    let lo = skip_slashes(&u, lo1);
    let hi = trailing_slashes_start(&u, lo);
    let mut r = String::new();
    append_range(&mut r, u.as_slice(), lo, hi);
    proof {
        let res = t.subrange(lo as int, hi as int);
        assert(r@ =~= res);
        assert(forall|k: int| 0 <= k < t.len() ==> t[k] != '\\');
        if res.contains('\\') {
            let k = choose|k: int| 0 <= k < res.len() && res[k] == '\\';
            assert(t[lo + k] == '\\');
        }
    }
    r
}

// ---------------------------------------------------------------------------
// Path components
// ---------------------------------------------------------------------------

/// A path separator: `'/'` or `'\\'`, so that paths written on either
/// system compare alike.
pub open spec fn is_sep(c: char) -> bool {
    c == '/' || c == '\\'
}

/// Index of the first separator at or after `i`, or `s.len()`.
pub open spec fn next_sep(s: Seq<char>, i: int) -> int
    decreases s.len() - i,
{
    if i < 0 || i >= s.len() {
        s.len() as int
    } else if is_sep(s[i]) {
        i
    } else {
        next_sep(s, i + 1)
    }
}

pub proof fn lemma_next_sep_bounds(s: Seq<char>, i: int)
    requires
        0 <= i <= s.len(),
    ensures
        i <= next_sep(s, i) <= s.len(),
    decreases s.len() - i,
{
    if i < s.len() && !is_sep(s[i]) {
        lemma_next_sep_bounds(s, i + 1);
    }
}

/// A piece between separators is a component unless it is empty, or is "."
/// anywhere but at the very start of a relative path.
pub open spec fn keep_component(piece: Seq<char>, first: bool) -> bool {
    piece.len() > 0 && (piece != seq!['.'] || first)
}

/// The components among the pieces of `s[i..]`.
pub open spec fn components_from(s: Seq<char>, i: int, first: bool) -> Seq<Seq<char>>
    decreases s.len() + 1 - i,
{
    if i < 0 || i > s.len() {
        Seq::empty()
    } else {
        proof {
            lemma_next_sep_bounds(s, i);
        }
        let j = next_sep(s, i);
        let piece = s.subrange(i, j);
        let rest = components_from(s, j + 1, false);
        if keep_component(piece, first) {
            seq![piece] + rest
        } else {
            rest
        }
    }
}

/// A path that begins with a separator.
pub open spec fn is_rooted(s: Seq<char>) -> bool {
    s.len() > 0 && is_sep(s[0])
}

/// The components of a path: an empty component standing for the root when
/// the path begins with a separator, then its non-empty pieces between
/// separators, leaving out "." except as the first piece of a relative path
/// (as `Path::components` does, with both separators).
pub open spec fn path_components(s: Seq<char>) -> Seq<Seq<char>> {
    if is_rooted(s) {
        seq![Seq::<char>::empty()] + components_from(s, 1, false)
    } else {
        components_from(s, 0, true)
    }
}

/// The components of `d` after those of `b`, when `b`'s are a prefix of `d`'s.
pub open spec fn strip_components(d: Seq<Seq<char>>, b: Seq<Seq<char>>) -> Option<Seq<Seq<char>>> {
    if b.len() <= d.len() && d.take(b.len() as int) == b {
        Some(d.skip(b.len() as int))
    } else {
        None
    }
}

/// `dir` relative to `base`, when `base` is a prefix of `dir` component by
/// component: the remaining components joined with `'/'` (`Path::strip_prefix`).
pub open spec fn lexical_relative(dir: Seq<char>, base: Seq<char>) -> Option<Seq<char>> {
    match strip_components(path_components(dir), path_components(base)) {
        Some(rest) => Some(join(rest, seq!['/'])),
        None => None,
    }
}

/// Index of the first separator in `s` at or after `from`, or `s.len()`.
fn find_sep(s: &[char], from: usize) -> (j: usize)
    requires
        from <= s@.len(),
    ensures
        j == next_sep(s@, from as int),
        from <= j <= s@.len(),
{
    proof {
        lemma_next_sep_bounds(s@, from as int);
    }
    let mut j = from;
    while j < s.len() && !(s[j] == '/' || s[j] == '\\')
        invariant
            from <= j <= s@.len(),
            next_sep(s@, j as int) == next_sep(s@, from as int),
        decreases s@.len() - j,
    {
        j = j + 1;
    }
    j
}

/// The components of the path `s`, as ranges of positions (an empty range
/// stands for the root).
pub fn component_ranges(s: &[char]) -> (r: Vec<(usize, usize)>)
    ensures
        forall|q: int| #![trigger r@[q]] 0 <= q < r@.len() ==> r@[q].0 <= r@[q].1 <= s@.len(),
        ranges_view(s@, r@) == path_components(s@),
{
    let mut r: Vec<(usize, usize)> = Vec::new();
    let mut i: usize = 0;
    let mut first = true;
    if s.len() > 0 && (s[0] == '/' || s[0] == '\\') {
        r.push((0, 0));
        i = 1;
        first = false;
        assert(s@.subrange(0, 0) =~= Seq::<char>::empty());
        assert(ranges_view(s@, r@) =~= seq![Seq::<char>::empty()]);
    } else {
        assert(ranges_view(s@, r@) =~= Seq::<Seq<char>>::empty());
    }
    while i <= s.len()
        invariant
            i <= s@.len() + 1,
            forall|q: int| #![trigger r@[q]] 0 <= q < r@.len() ==> r@[q].0 <= r@[q].1 <= s@.len(),
            path_components(s@) == ranges_view(s@, r@) + components_from(s@, i as int, first),
        decreases s@.len() + 1 - i,
    {
        let j = find_sep(s, i);
        let ghost piece = s@.subrange(i as int, j as int);
        let keep = j > i && (first || !(j - i == 1 && s[i] == '.'));
        assert(keep == keep_component(piece, first)) by {
            if j - i == 1 {
                if s@[i as int] == '.' {
                    assert(piece =~= seq!['.']);
                } else {
                    assert(piece[0] != seq!['.'][0]);
                }
            } else {
                assert(piece.len() != seq!['.'].len());
            }
        }
        let ghost old_r = r@;
        if keep {
            r.push((i, j));
            assert(ranges_view(s@, r@) =~= ranges_view(s@, old_r).push(piece));
        }
        assert(path_components(s@) =~= ranges_view(s@, r@) + components_from(s@, j + 1, false));
        if j == s.len() {
            assert(components_from(s@, j + 1, false) =~= Seq::<Seq<char>>::empty());
            assert(path_components(s@) =~= ranges_view(s@, r@));
            return r;
        }
        i = j + 1;
        first = false;
    }
    assert(components_from(s@, i as int, first) =~= Seq::<Seq<char>>::empty());
    assert(path_components(s@) =~= ranges_view(s@, r@));
    r
}

/// `dir` relative to `base` when `base`'s components begin `dir`'s.
pub fn lexical_relative_path(dir: &str, base: &str) -> (r: Option<String>)
    ensures
        match r {
            Some(x) => lexical_relative(dir@, base@) == Some(x@),
            None => lexical_relative(dir@, base@) is None,
        },
{
    let dc = chars_of(dir);
    let bc = chars_of(base);
    let dr = component_ranges(dc.as_slice());
    let br = component_ranges(bc.as_slice());
    let ghost d = path_components(dc@);
    let ghost b = path_components(bc@);
    if br.len() > dr.len() {
        assert(strip_components(d, b) is None);
        return None;
    }
    let mut k: usize = 0;
    while k < br.len()
        invariant
            k <= br@.len() <= dr@.len(),
            dc@ == dir@,
            bc@ == base@,
            d == path_components(dc@),
            b == path_components(bc@),
            d == ranges_view(dc@, dr@),
            b == ranges_view(bc@, br@),
            forall|q: int| #![trigger dr@[q]] 0 <= q < dr@.len() ==> dr@[q].0 <= dr@[q].1 <= dc@.len(),
            forall|q: int| #![trigger br@[q]] 0 <= q < br@.len() ==> br@[q].0 <= br@[q].1 <= bc@.len(),
            forall|q: int| 0 <= q < k ==> #[trigger] d[q] == b[q],
        decreases br@.len() - k,
    {
        let (da, db) = dr[k];
        let (ba, bb) = br[k];
        if !sub_eq(dc.as_slice(), da, db, bc.as_slice(), ba, bb) {
            assert(d[k as int] == dc@.subrange(da as int, db as int));
            assert(b[k as int] == bc@.subrange(ba as int, bb as int));
            assert(d.take(b.len() as int)[k as int] != b[k as int]);
            assert(d.take(b.len() as int) != b);
            assert(strip_components(d, b) is None);
            assert(lexical_relative(dir@, base@) is None);
            return None;
        }
        k = k + 1;
    }
    assert(d.take(b.len() as int) =~= b);
    let out = join_ranges(dc.as_slice(), &dr, br.len(), dr.len(), '/');
    assert(d.subrange(b.len() as int, d.len() as int) =~= d.skip(b.len() as int));
    Some(out)
}

// ---------------------------------------------------------------------------
// Directories and their lookup keys
// ---------------------------------------------------------------------------

/// A directory of the scanned project.
#[derive(Debug, Clone)]
pub struct DirectoryInfo {
    pub path: String,
    pub name: String,
    pub file_count: usize,
    pub subdirectory_count: usize,
    pub total_size: u64,
}

/// Directory scorer — uses LLM to score directories by business value
pub struct DirectoryScorer;

impl DirectoryScorer {
    pub fn new() -> (r: Self)
        ensures
            r == DirectoryScorer,
    {
        DirectoryScorer
    }
}

/// What `pathdiff::diff_paths` returns for two paths: the relative path that
/// leads from `base` to `path`, if there is one.
pub uninterp spec fn diff_paths_result(path: Seq<char>, base: Seq<char>) -> Option<Seq<char>>;

/// `pathdiff::diff_paths` on two paths given as text; the result is given as
/// text too. Nothing is claimed of it beyond its being a function of the two
/// paths.
#[verifier::external_body]
fn diff_paths(path: &str, base: &str) -> (r: Option<String>)
    ensures
        match r {
            Some(x) => diff_paths_result(path@, base@) == Some(x@),
            None => diff_paths_result(path@, base@) is None,
        },
{
    pathdiff::diff_paths(std::path::Path::new(path), std::path::Path::new(base)).map(
        |p| p.to_string_lossy().into_owned(),
    )
}

/// The canonical forms of a directory and of the project root, when both
/// could be resolved on disk.
pub open spec fn canonical_view(c: Option<(&str, &str)>) -> Option<(Seq<char>, Seq<char>)> {
    match c {
        Some((d, b)) => Some((d@, b@)),
        None => None,
    }
}

/// The key of a directory relative to the project root: the normalized
/// lexical remainder when the root's components begin the directory's and
/// something remains; otherwise the normalized difference of the canonical
/// paths, when they are known and pathdiff finds one.
pub open spec fn relative_key(
    dir_path: Seq<char>,
    project: Seq<char>,
    canonical: Option<(Seq<char>, Seq<char>)>,
) -> Option<Seq<char>> {
    let lex = lexical_relative(dir_path, project);
    if lex is Some && normalize_key(lex->0).len() > 0 {
        Some(normalize_key(lex->0))
    } else {
        match canonical {
            Some((d, b)) => match diff_paths_result(d, b) {
                Some(x) => Some(normalize_key(x)),
                None => None,
            },
            None => None,
        }
    }
}

/// Candidate lookup keys of a directory, most specific first: its relative
/// key when there is one, then its normalized path, then its normalized name.
pub open spec fn lookup_keys(
    dir_path: Seq<char>,
    dir_name: Seq<char>,
    project: Seq<char>,
    canonical: Option<(Seq<char>, Seq<char>)>,
) -> Seq<Seq<char>> {
    let tail = seq![normalize_key(dir_path), normalize_key(dir_name)];
    match relative_key(dir_path, project, canonical) {
        Some(k) => seq![k] + tail,
        None => tail,
    }
}

/// Resolve a directory path relative to the project root. `canonical` holds
/// the canonicalized directory and project root, when both exist on disk.
pub fn relative_path_key(dir: &DirectoryInfo, project_path: &str, canonical: Option<(&str, &str)>) -> (r: Option<String>)
    ensures
        match r {
            Some(k) => relative_key(dir.path@, project_path@, canonical_view(canonical)) == Some(k@),
            None => relative_key(dir.path@, project_path@, canonical_view(canonical)) is None,
        },
{
    if let Some(relative) = lexical_relative_path(dir.path.as_str(), project_path) {
        let key = normalize_path_key(relative.as_str());
        if !key.as_str().is_empty() {
            return Some(key);
        }
    }
    match canonical {
        Some((dir_abs, base)) => match diff_paths(dir_abs, base) {
            Some(relative) => Some(normalize_path_key(relative.as_str())),
            None => None,
        },
        None => None,
    }
}

/// Candidate lookup keys for a directory, ordered from most to least specific.
pub fn directory_lookup_keys(dir: &DirectoryInfo, project_path: &str, canonical: Option<(&str, &str)>) -> (keys: Vec<String>)
    ensures
        keys@.map_values(|k: String| k@) == lookup_keys(dir.path@, dir.name@, project_path@, canonical_view(canonical)),
{
    let mut keys: Vec<String> = Vec::new();
    let rel = relative_path_key(dir, project_path, canonical);
    let ghost head: Seq<Seq<char>> = if rel is Some {
        seq![rel->0@]
    } else {
        Seq::empty()
    };
    if let Some(relative) = rel {
        keys.push(relative);
    }
    assert(keys@.map_values(|k: String| k@) =~= head);
    let p = normalize_path_key(dir.path.as_str());
    keys.push(p);
    let n = normalize_path_key(dir.name.as_str());
    keys.push(n);
    assert(keys@.map_values(|k: String| k@) =~= head + seq![normalize_key(dir.path@), normalize_key(dir.name@)]);
    keys
}

// ---------------------------------------------------------------------------
// Matching directories against path-keyed scores
// ---------------------------------------------------------------------------

/// Index of the last entry of `ps` equal to `k`, or -1.
pub open spec fn last_index_of(ps: Seq<Seq<char>>, k: Seq<char>) -> int
    decreases ps.len(),
{
    if ps.len() == 0 {
        -1
    } else if ps.last() == k {
        ps.len() - 1
    } else {
        last_index_of(ps.drop_last(), k)
    }
}

/// The score entry that a key selects in a map filled, in order, from the
/// normalized response paths `ps`, empty keys left out: a later entry for
/// the same key replaces an earlier one.
pub open spec fn score_entry(ps: Seq<Seq<char>>, k: Seq<char>) -> Option<int> {
    if k.len() > 0 && last_index_of(ps, k) >= 0 {
        Some(last_index_of(ps, k))
    } else {
        None
    }
}

/// The entry selected by the first key, in order, that selects one.
pub open spec fn first_score(keys: Seq<Seq<char>>, ps: Seq<Seq<char>>) -> Option<int>
    decreases keys.len(),
{
    if keys.len() == 0 {
        None
    } else {
        match score_entry(ps, keys[0]) {
            Some(j) => Some(j),
            None => first_score(keys.drop_first(), ps),
        }
    }
}

/// The normalized keys of the paths that the scoring response names.
pub open spec fn normalized_paths(paths: Seq<String>) -> Seq<Seq<char>> {
    paths.map_values(|p: String| normalize_key(p@))
}

pub proof fn lemma_last_index_of_bounds(ps: Seq<Seq<char>>, k: Seq<char>)
    ensures
        -1 <= last_index_of(ps, k) < ps.len(),
        last_index_of(ps, k) >= 0 ==> ps[last_index_of(ps, k)] == k,
        forall|j: int| last_index_of(ps, k) < j < ps.len() ==> ps[j] != k,
    decreases ps.len(),
{
    if ps.len() > 0 && ps.last() != k {
        lemma_last_index_of_bounds(ps.drop_last(), k);
        assert forall|j: int| last_index_of(ps, k) < j < ps.len() implies ps[j] != k by {
            if j < ps.len() - 1 {
                assert(ps[j] == ps.drop_last()[j]);
            }
        }
    }
}

/// A directory whose relative key the response names (among the
/// normalized response paths `ps`) is scored by the last entry naming it,
/// whatever other entries the response holds.
pub proof fn law_relative_key_wins(
    dir_path: Seq<char>,
    dir_name: Seq<char>,
    project: Seq<char>,
    canonical: Option<(Seq<char>, Seq<char>)>,
    ps: Seq<Seq<char>>,
    j: int,
)
    requires
        relative_key(dir_path, project, canonical) is Some,
        relative_key(dir_path, project, canonical)->0.len() > 0,
        0 <= j < ps.len(),
        ps[j] == relative_key(dir_path, project, canonical)->0,
    ensures
        first_score(lookup_keys(dir_path, dir_name, project, canonical), ps) == Some(
            last_index_of(ps, relative_key(dir_path, project, canonical)->0),
        ),
        j <= last_index_of(ps, relative_key(dir_path, project, canonical)->0),
        ps[last_index_of(ps, relative_key(dir_path, project, canonical)->0)] == relative_key(
            dir_path,
            project,
            canonical,
        )->0,
{
    let k = relative_key(dir_path, project, canonical)->0;
    lemma_last_index_of_bounds(ps, k);
    let keys = lookup_keys(dir_path, dir_name, project, canonical);
    assert(keys[0] == k);
}

/// Index of the last entry of `ps` equal to the non-empty key `k`.
fn score_index(ps: &Vec<String>, k: &String) -> (r: Option<usize>)
    ensures
        match r {
            Some(j) => score_entry(ps@.map_values(|p: String| p@), k@) == Some(j as int),
            None => score_entry(ps@.map_values(|p: String| p@), k@) is None,
        },
{
    let ghost v = ps@.map_values(|p: String| p@);
    proof {
        lemma_last_index_of_bounds(v, k@);
    }
    if k.as_str().is_empty() {
        return None;
    }
    let mut j = ps.len();
    assert(v.take(j as int) =~= v);
    while j > 0
        invariant
            k@.len() > 0,
            j <= ps@.len(),
            v == ps@.map_values(|p: String| p@),
            last_index_of(v, k@) == last_index_of(v.take(j as int), k@),
        decreases j,
    {
        let ghost t = v.take(j as int);
        assert(t.last() == ps@[j - 1]@);
        assert(t.drop_last() =~= v.take(j - 1));
        if ps[j - 1].eq(k) {
            assert(last_index_of(t, k@) == j - 1);
            return Some(j - 1);
        }
        j = j - 1;
    }
    assert(v.take(0) =~= Seq::<Seq<char>>::empty());
    None
}

/// The entry of the response that scores `dir`, if one of its lookup keys
/// names one.
fn directory_score_index(
    dir: &DirectoryInfo,
    project_path: &str,
    canonical: Option<(&str, &str)>,
    ps: &Vec<String>,
) -> (r: Option<usize>)
    ensures
        match r {
            Some(j) => first_score(lookup_keys(dir.path@, dir.name@, project_path@, canonical_view(canonical)), ps@.map_values(|p: String| p@)) == Some(j as int),
            None => first_score(lookup_keys(dir.path@, dir.name@, project_path@, canonical_view(canonical)), ps@.map_values(|p: String| p@)) is None,
        },
{
    let keys = directory_lookup_keys(dir, project_path, canonical);
    let ghost ks = keys@.map_values(|k: String| k@);
    let ghost v = ps@.map_values(|p: String| p@);
    let mut i: usize = 0;
    assert(ks.skip(0) =~= ks);
    while i < keys.len()
        invariant
            i <= keys@.len(),
            ks == keys@.map_values(|k: String| k@),
            ks == lookup_keys(dir.path@, dir.name@, project_path@, canonical_view(canonical)),
            v == ps@.map_values(|p: String| p@),
            first_score(ks, v) == first_score(ks.skip(i as int), v),
        decreases keys@.len() - i,
    {
        assert(ks.skip(i as int)[0] == keys@[i as int]@);
        assert(ks.skip(i as int).drop_first() =~= ks.skip(i + 1));
        if let Some(j) = score_index(ps, &keys[i]) {
            assert(first_score(ks.skip(i as int), v) == Some(j as int));
            return Some(j);
        }
        i = i + 1;
    }
    assert(ks.skip(i as int) =~= Seq::<Seq<char>>::empty());
    None
}

/// For each directory, the index of the response entry that scores it (the
/// entry named by its first lookup key that names one), or `None` when no
/// entry matches. `response_paths` are the paths of the response's entries,
/// in order; `canonicals[i]` holds the canonical forms for `dirs[i]`.
pub fn match_directory_scores(
    dirs: &Vec<DirectoryInfo>,
    project_path: &str,
    canonicals: &Vec<Option<(String, String)>>,
    response_paths: &Vec<String>,
) -> (r: Vec<Option<usize>>)
    requires
        canonicals@.len() == dirs@.len(),
    ensures
        r@.len() == dirs@.len(),
        forall|i: int|
            0 <= i < r@.len() ==> match #[trigger] r@[i] {
                Some(j) => first_score(
                    lookup_keys(dirs@[i].path@, dirs@[i].name@, project_path@, owned_canonical_view(canonicals@[i])),
                    normalized_paths(response_paths@),
                ) == Some(j as int),
                None => first_score(
                    lookup_keys(dirs@[i].path@, dirs@[i].name@, project_path@, owned_canonical_view(canonicals@[i])),
                    normalized_paths(response_paths@),
                ) is None,
            },
{
    let mut ps: Vec<String> = Vec::new();
    let mut q: usize = 0;
    while q < response_paths.len()
        invariant
            q <= response_paths@.len(),
            ps@.len() == q,
            forall|k: int| 0 <= k < q ==> #[trigger] ps@[k]@ == normalize_key(response_paths@[k]@),
        decreases response_paths@.len() - q,
    {
        ps.push(normalize_path_key(response_paths[q].as_str()));
        q = q + 1;
    }
    assert(ps@.map_values(|p: String| p@) =~= normalized_paths(response_paths@));
    let mut r: Vec<Option<usize>> = Vec::new();
    let mut i: usize = 0;
    while i < dirs.len()
        invariant
            i <= dirs@.len() == canonicals@.len(),
            ps@.map_values(|p: String| p@) == normalized_paths(response_paths@),
            r@.len() == i,
            forall|k: int|
                0 <= k < i ==> match #[trigger] r@[k] {
                    Some(j) => first_score(
                        lookup_keys(dirs@[k].path@, dirs@[k].name@, project_path@, owned_canonical_view(canonicals@[k])),
                        normalized_paths(response_paths@),
                    ) == Some(j as int),
                    None => first_score(
                        lookup_keys(dirs@[k].path@, dirs@[k].name@, project_path@, owned_canonical_view(canonicals@[k])),
                        normalized_paths(response_paths@),
                    ) is None,
                },
        decreases dirs@.len() - i,
    {
        let canonical: Option<(&str, &str)> = match &canonicals[i] {
            Some((d, b)) => Some((d.as_str(), b.as_str())),
            None => None,
        };
        assert(canonical_view(canonical) == owned_canonical_view(canonicals@[i as int]));
        let j = directory_score_index(&dirs[i], project_path, canonical, &ps);
        r.push(j);
        i = i + 1;
    }
    r
}

/// `canonical_view` for owned strings.
pub open spec fn owned_canonical_view(c: Option<(String, String)>) -> Option<(Seq<char>, Seq<char>)> {
    match c {
        Some((d, b)) => Some((d@, b@)),
        None => None,
    }
}

// ---------------------------------------------------------------------------
// The scoring prompt
// ---------------------------------------------------------------------------

/// What `format!("{:?}", s)` gives for a string: it quoted, with its special
/// characters escaped (the escapes depend on Unicode tables).
pub uninterp spec fn debug_text(s: Seq<char>) -> Seq<char>;

/// The cache scope of a project's directory scores: "directory_scoring_"
/// then the project path with each '/', '\\', ':' and '.' turned into '_'.
pub open spec fn cache_scope_text(project: Seq<char>) -> Seq<char> {
    "directory_scoring_"@ + project.map_values(
        |c: char| if c == '/' || c == '\\' || c == ':' || c == '.' { '_' } else { c },
    )
}

/// The cache scope of a project's directory scores.
pub fn cache_scope(project_path: &str) -> (r: String)
    ensures
        r@ == cache_scope_text(project_path@),
{
    let cs = chars_of(project_path);
    let mut mapped: Vec<char> = Vec::new();
    let mut i: usize = 0;
    while i < cs.len()
        invariant
            i <= cs@.len(),
            mapped@ == cs@.take(i as int).map_values(
                |c: char| if c == '/' || c == '\\' || c == ':' || c == '.' { '_' } else { c },
            ),
        decreases cs@.len() - i,
    {
        let c = cs[i];
        if c == '/' || c == '\\' || c == ':' || c == '.' {
            mapped.push('_');
        } else {
            mapped.push(c);
        }
        assert(cs@.take(i + 1) =~= cs@.take(i as int).push(c));
        assert(mapped@ =~= cs@.take(i + 1).map_values(
            |c: char| if c == '/' || c == '\\' || c == ':' || c == '.' { '_' } else { c },
        ));
        i = i + 1;
    }
    assert(cs@.take(cs@.len() as int) =~= cs@);
    let mut r = "directory_scoring_".to_owned();
    append_range(&mut r, mapped.as_slice(), 0, mapped.len());
    assert(mapped@.subrange(0, mapped@.len() as int) =~= mapped@);
    r
}

/// Whether there is anything to score: an empty list of directories gets an
/// empty score map without asking the model.
pub fn has_directories_to_score(dirs: &Vec<DirectoryInfo>) -> (r: bool)
    ensures
        r == (dirs@.len() > 0),
{
    dirs.len() > 0
}

/// The key under which a directory is logged: its relative key, or else
/// the normalized name.
pub open spec fn log_key(
    dir_path: Seq<char>,
    dir_name: Seq<char>,
    project: Seq<char>,
    canonical: Option<(Seq<char>, Seq<char>)>,
) -> Seq<char> {
    match relative_key(dir_path, project, canonical) {
        Some(k) => k,
        None => normalize_key(dir_name),
    }
}

/// How many directories the log tag names.
pub open spec fn logged_count(n: int) -> int {
    if n < 5 {
        n
    } else {
        5
    }
}

/// The log tag of a scoring request: the project name, the number of
/// directories, the keys of the first five, and how many more there are.
pub open spec fn scoring_log_tag_text(project_name: Seq<char>, shown: Seq<Seq<char>>, total: nat) -> Seq<char> {
    "dir_score("@ + project_name + "): "@ + decimal(total) + " dirs ("@ + join(shown, ", "@) + (if total > 5 {
        ", +"@ + decimal((total - 5) as nat) + " more"@
    } else {
        Seq::<char>::empty()
    }) + ")"@
}

/// The log keys of the first five directories.
pub open spec fn shown_log_keys(
    dirs: Seq<DirectoryInfo>,
    project: Seq<char>,
    canonicals: Seq<Option<(String, String)>>,
) -> Seq<Seq<char>> {
    Seq::new(
        logged_count(dirs.len() as int) as nat,
        |i: int| log_key(dirs[i].path@, dirs[i].name@, project, owned_canonical_view(canonicals[i])),
    )
}

/// The key under which a directory is logged.
pub fn directory_log_key(dir: &DirectoryInfo, project_path: &str, canonical: Option<(&str, &str)>) -> (r: String)
    ensures
        r@ == log_key(dir.path@, dir.name@, project_path@, canonical_view(canonical)),
{
    match relative_path_key(dir, project_path, canonical) {
        Some(k) => k,
        None => normalize_path_key(dir.name.as_str()),
    }
}

/// The log tag of a scoring request for `dirs` of the project named
/// `project_name`.
pub fn scoring_log_tag(
    project_name: &str,
    dirs: &Vec<DirectoryInfo>,
    project_path: &str,
    canonicals: &Vec<Option<(String, String)>>,
) -> (r: String)
    requires
        canonicals@.len() == dirs@.len(),
    ensures
        r@ == scoring_log_tag_text(project_name@, shown_log_keys(dirs@, project_path@, canonicals@), dirs@.len()),
{
    let n = dirs.len();
    let shown_count: usize = if n < 5 { n } else { 5 };
    let ghost want = shown_log_keys(dirs@, project_path@, canonicals@);
    let mut keys: Vec<String> = Vec::new();
    let mut i: usize = 0;
    while i < shown_count
        invariant
            i <= shown_count == logged_count(n as int) <= n == dirs@.len() == canonicals@.len(),
            want == shown_log_keys(dirs@, project_path@, canonicals@),
            keys@.len() == i,
            forall|k: int| 0 <= k < i ==> #[trigger] keys@[k]@ == want[k],
        decreases shown_count - i,
    {
        let canonical: Option<(&str, &str)> = match &canonicals[i] {
            Some((d, b)) => Some((d.as_str(), b.as_str())),
            None => None,
        };
        assert(canonical_view(canonical) == owned_canonical_view(canonicals@[i as int]));
        keys.push(directory_log_key(&dirs[i], project_path, canonical));
        i = i + 1;
    }
    assert(keys@.map_values(|k: String| k@) =~= want);
    let mut tag = concat_str("dir_score(", project_name);
    tag = concat_str(tag.as_str(), "): ");
    push_decimal(&mut tag, n);
    tag = concat_str(tag.as_str(), " dirs (");
    let listed = join_strings(&keys, ", ");
    tag = concat_str(tag.as_str(), listed.as_str());
    if n > 5 {
        tag = concat_str(tag.as_str(), ", +");
        push_decimal(&mut tag, n - 5);
        tag = concat_str(tag.as_str(), " more");
    }
    tag = concat_str(tag.as_str(), ")");
    tag
}

/// `Debug` formatting of a string slice.
#[verifier::external_body]
fn debug_string(s: &str) -> (r: String)
    ensures
        r@ == debug_text(s@),
{
    format!("{:?}", s)
}

/// The entry names that do not begin with '.', in order.
pub open spec fn unhidden(names: Seq<Seq<char>>) -> Seq<Seq<char>>
    decreases names.len(),
{
    if names.len() == 0 {
        Seq::empty()
    } else if names.last().len() > 0 && names.last()[0] == '.' {
        unhidden(names.drop_last())
    } else {
        unhidden(names.drop_last()).push(names.last())
    }
}

/// The file names shown for a directory: the first 20 entries that do not
/// begin with '.'.
pub open spec fn listed_names(names: Seq<Seq<char>>) -> Seq<Seq<char>> {
    let v = unhidden(names);
    if v.len() <= 20 {
        v
    } else {
        v.take(20)
    }
}

/// `Debug` form of a list of strings: "[" then the strings' `Debug` forms
/// separated by ", ", then "]".
pub open spec fn debug_list(xs: Seq<Seq<char>>) -> Seq<char> {
    "["@ + join(xs.map_values(|x: Seq<char>| debug_text(x)), ", "@) + "]"@
}

/// The key a directory is shown with in the prompt: its relative key, else
/// its normalized name.
pub open spec fn prompt_key(
    dir_path: Seq<char>,
    dir_name: Seq<char>,
    project: Seq<char>,
    canonical: Option<(Seq<char>, Seq<char>)>,
) -> Seq<char> {
    match relative_key(dir_path, project, canonical) {
        Some(k) => k,
        None => normalize_key(dir_name),
    }
}

/// The prompt line of one directory.
pub open spec fn directory_line(name: Seq<char>, key: Seq<char>, file_count: nat, subdir_count: nat, files: Seq<Seq<char>>) -> Seq<char> {
    "- "@ + name + " (rel_path: "@ + key + ", "@ + decimal(file_count) + " files, "@ + decimal(subdir_count)
        + " subdirs): "@ + debug_list(files) + "\n"@
}

/// The prompt lines of the directories, in order; `names[i]` are the entry
/// names of `dirs[i]`.
pub open spec fn directory_lines(
    dirs: Seq<DirectoryInfo>,
    project: Seq<char>,
    canonicals: Seq<Option<(String, String)>>,
    names: Seq<Seq<String>>,
) -> Seq<char>
    decreases dirs.len(),
{
    if dirs.len() == 0 || canonicals.len() != dirs.len() || names.len() != dirs.len() {
        Seq::empty()
    } else {
        let d = dirs.last();
        directory_lines(dirs.drop_last(), project, canonicals.drop_last(), names.drop_last())
            + directory_line(
            d.name@,
            prompt_key(d.path@, d.name@, project, owned_canonical_view(canonicals.last())),
            d.file_count as nat,
            d.subdirectory_count as nat,
            listed_names(names.last().map_values(|n: String| n@)),
        )
    }
}

/// The scoring prompt around the directory lines.
pub open spec fn scoring_prompt(directory_list: Seq<char>) -> Seq<char> {
    PROMPT_HEAD@ + directory_list + PROMPT_TAIL@
}

/// Opening of the scoring prompt, before the directory lines.
pub const PROMPT_HEAD: &'static str = "Rate the business importance of each directory for a software project.\n\nRate based on:\n1. Business value - does it contain core business logic, APIs, or data layer?\n2. Code concentration - is it a hub with many imports/exports?\n3. Infrastructure role - is it a core package, main entry, or config layer?\nIMPORTANT: Backend directories (*.py, *.go, *.rs, *.java, *.kt, etc.) should be rated higher than frontend directories (*.ts, *.js, *.tsx, *.vue, *.jsx, etc.) when business value is comparable.\n\nDirectories to rate:\n";

/// Closing of the scoring prompt, after the directory lines.
pub const PROMPT_TAIL: &'static str = "\n\nOutput JSON with a \"scores\" array, each entry with \"path\" (use the exact rel_path shown), \"score\" (0.0-1.0) and \"reasoning\":\n{\"scores\": [{\"path\": \"src\", \"score\": 0.8, \"reasoning\": \"...\"}, {\"path\": \"cmd\", \"score\": 0.7, \"reasoning\": \"...\"}, ...]}\n\nIMPORTANT: Output valid JSON only, no markdown fences.";

/// The entry names shown for a directory.
fn listed_file_names(names: &Vec<String>) -> (r: Vec<String>)
    ensures
        r@.map_values(|n: String| n@) == listed_names(names@.map_values(|n: String| n@)),
{
    let ghost v = names@.map_values(|n: String| n@);
    let mut r: Vec<String> = Vec::new();
    let mut i: usize = 0;
    assert(v.take(0) =~= Seq::<Seq<char>>::empty());
    assert(r@.map_values(|n: String| n@) =~= Seq::<Seq<char>>::empty());
    while i < names.len() && r.len() < 20
        invariant
            i <= names@.len(),
            v == names@.map_values(|n: String| n@),
            r@.len() <= 20,
            r@.map_values(|n: String| n@) == listed_names(v.take(i as int)),
            r@.len() < 20 ==> unhidden(v.take(i as int)).len() == r@.len(),
        decreases names@.len() - i,
    {
        let cs = chars_of(names[i].as_str());
        let ghost t = v.take(i + 1);
        assert(t.drop_last() =~= v.take(i as int));
        assert(t.last() == names@[i as int]@);
        let ghost old_r = r@;
        if !(cs.len() > 0 && cs[0] == '.') {
            r.push(names[i].clone());
            assert(r@.map_values(|n: String| n@) =~= old_r.map_values(|n: String| n@).push(names@[i as int]@));
            assert(unhidden(t) == unhidden(v.take(i as int)).push(names@[i as int]@));
        }
        i = i + 1;
    }
    proof {
        if i < names@.len() {
            // Twenty names are already listed: later entries change nothing.
            lemma_unhidden_prefix(v, i as int);
        } else {
            assert(v.take(i as int) =~= v);
        }
    }
    r
}

/// Once twenty names are listed, the listed names stay the same.
pub proof fn lemma_unhidden_prefix(v: Seq<Seq<char>>, i: int)
    requires
        0 <= i <= v.len(),
        unhidden(v.take(i)).len() >= 20,
    ensures
        listed_names(v.take(i)) == listed_names(v),
    decreases v.len() - i,
{
    if i < v.len() {
        lemma_unhidden_prefix_step(v, i);
        lemma_unhidden_prefix(v, i + 1);
    } else {
        assert(v.take(i) =~= v);
    }
}

/// One more name keeps the first names of the unhidden list.
pub proof fn lemma_unhidden_prefix_step(v: Seq<Seq<char>>, i: int)
    requires
        0 <= i < v.len(),
        unhidden(v.take(i)).len() >= 20,
    ensures
        unhidden(v.take(i + 1)).len() >= 20,
        listed_names(v.take(i)) == listed_names(v.take(i + 1)),
{
    let t = v.take(i + 1);
    assert(t.drop_last() =~= v.take(i));
    let a = unhidden(v.take(i));
    let b = unhidden(t);
    if b.len() > a.len() {
        assert(b == a.push(t.last()));
        assert(a.take(20) =~= b.take(20));
    } else {
        assert(b == a);
    }
}

/// The `Debug` form of a list of strings.
fn debug_list_string(xs: &Vec<String>) -> (r: String)
    ensures
        r@ == debug_list(xs@.map_values(|n: String| n@)),
{
    let mut parts: Vec<String> = Vec::new();
    let mut i: usize = 0;
    while i < xs.len()
        invariant
            i <= xs@.len(),
            parts@.len() == i,
            forall|k: int| 0 <= k < i ==> #[trigger] parts@[k]@ == debug_text(xs@[k]@),
        decreases xs@.len() - i,
    {
        parts.push(debug_string(xs[i].as_str()));
        i = i + 1;
    }
    assert(parts@.map_values(|p: String| p@) =~= xs@.map_values(|n: String| n@).map_values(
        |x: Seq<char>| debug_text(x),
    ));
    let inner = join_strings(&parts, ", ");
    let a = concat_str("[", inner.as_str());
    concat_str(a.as_str(), "]")
}

/// Appends `s`.
fn append_str(out: &mut String, s: &str)
    ensures
        final(out)@ == old(out)@ + s@,
{
    let cs = chars_of(s);
    append_range(out, cs.as_slice(), 0, cs.len());
    assert(cs@.subrange(0, cs@.len() as int) =~= cs@);
}

impl DirectoryScorer {
    /// The prompt that asks for the scores of `directories`. `canonicals[i]`
    /// holds the canonical forms for `directories[i]`, and `entry_names[i]`
    /// the names of its entries, in the order the directory lists them.
    pub fn build_scoring_prompt(
        &self,
        directories: &Vec<DirectoryInfo>,
        project_path: &str,
        canonicals: &Vec<Option<(String, String)>>,
        entry_names: &Vec<Vec<String>>,
    ) -> (r: String)
        requires
            canonicals@.len() == directories@.len(),
            entry_names@.len() == directories@.len(),
        ensures
            r@ == scoring_prompt(
                directory_lines(
                    directories@,
                    project_path@,
                    canonicals@,
                    entry_names@.map_values(|v: Vec<String>| v@),
                ),
            ),
    {
        let ghost names = entry_names@.map_values(|v: Vec<String>| v@);
        let mut list = String::new();
        let mut i: usize = 0;
        assert(directories@.take(0) =~= Seq::<DirectoryInfo>::empty());
        while i < directories.len()
            invariant
                i <= directories@.len() == canonicals@.len() == entry_names@.len(),
                names == entry_names@.map_values(|v: Vec<String>| v@),
                list@ == directory_lines(
                    directories@.take(i as int),
                    project_path@,
                    canonicals@.take(i as int),
                    names.take(i as int),
                ),
            decreases directories@.len() - i,
        {
            let dir = &directories[i];
            let canonical: Option<(&str, &str)> = match &canonicals[i] {
                Some((d, b)) => Some((d.as_str(), b.as_str())),
                None => None,
            };
            let key = match relative_path_key(dir, project_path, canonical) {
                Some(k) => k,
                None => normalize_path_key(dir.name.as_str()),
            };
            let files = listed_file_names(&entry_names[i]);
            let ghost before = list@;
            append_str(&mut list, "- ");
            append_str(&mut list, dir.name.as_str());
            append_str(&mut list, " (rel_path: ");
            append_str(&mut list, key.as_str());
            append_str(&mut list, ", ");
            push_decimal(&mut list, dir.file_count);
            append_str(&mut list, " files, ");
            push_decimal(&mut list, dir.subdirectory_count);
            append_str(&mut list, " subdirs): ");
            let shown = debug_list_string(&files);
            append_str(&mut list, shown.as_str());
            append_str(&mut list, "\n");
            proof {
                let ds = directories@.take(i + 1);
                let cs = canonicals@.take(i + 1);
                let ns = names.take(i + 1);
                assert(ds.drop_last() =~= directories@.take(i as int));
                assert(cs.drop_last() =~= canonicals@.take(i as int));
                assert(ns.drop_last() =~= names.take(i as int));
                assert(ds.last() == directories@[i as int]);
                assert(cs.last() == canonicals@[i as int]);
                assert(ns.last() == entry_names@[i as int]@);
                assert(canonical_view(canonical) == owned_canonical_view(canonicals@[i as int]));
                assert(list@ =~= before + directory_line(
                    dir.name@,
                    prompt_key(dir.path@, dir.name@, project_path@, owned_canonical_view(canonicals@[i as int])),
                    dir.file_count as nat,
                    dir.subdirectory_count as nat,
                    listed_names(entry_names@[i as int]@.map_values(|n: String| n@)),
                ));
            }
            i = i + 1;
        }
        assert(directories@.take(i as int) =~= directories@);
        assert(canonicals@.take(i as int) =~= canonicals@);
        assert(names.take(i as int) =~= names);
        let head = concat_str(PROMPT_HEAD, list.as_str());
        concat_str(head.as_str(), PROMPT_TAIL)
    }
}

} // verus!
