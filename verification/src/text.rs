//! Character-level text processing shared by the shader source parsers.
//!
//! Strings are modelled by their character sequences (`Seq<char>`); the
//! executable helpers work on `Vec<char>` and convert at the edges.

use vstd::prelude::*;

verus! {

/// `String::push` appends one character (std documentation).
pub assume_specification[ String::push ](s: &mut String, ch: char)
    ensures
        final(s)@ == old(s)@.push(ch),
;

// ─── conversions ────────────────────────────────────────────────────────────

/// The characters of a string slice, in order.
pub fn chars_of(s: &str) -> (out: Vec<char>)
    ensures
        out@ == s@,
{
    let mut out: Vec<char> = Vec::new();
    for c in it: s.chars()
        invariant
            out@ == it.seq().take(it.index() as int),
            it.seq() == s@,
    {
        out.push(c);
    }
    out
}

/// A string made of the given characters.
pub fn string_of(cs: &[char]) -> (out: String)
    ensures
        out@ == cs@,
{
    let mut out = String::new();
    let mut i: usize = 0;
    while i < cs.len()
        invariant
            i <= cs@.len(),
            out@ == cs@.take(i as int),
        decreases cs@.len() - i,
    {
        out.push(cs[i]);
        i += 1;
        assert(cs@.take(i as int) == cs@.take(i - 1).push(cs@[i - 1]));
    }
    assert(cs@.take(cs@.len() as int) == cs@);
    out
}

/// Copies a run of characters out of a slice.
pub fn slice_to_vec(cs: &[char], start: usize, end: usize) -> (out: Vec<char>)
    requires
        start <= end <= cs@.len(),
    ensures
        out@ == cs@.subrange(start as int, end as int),
{
    let mut out: Vec<char> = Vec::new();
    let mut i = start;
    while i < end
        invariant
            start <= i <= end <= cs@.len(),
            out@ == cs@.subrange(start as int, i as int),
        decreases end - i,
    {
        out.push(cs[i]);
        i += 1;
    }
    out
}

/// Whether two character slices hold the same characters.
pub fn chars_eq(a: &[char], b: &[char]) -> (r: bool)
    ensures
        r == (a@ == b@),
{
    if a.len() != b.len() {
        return false;
    }
    let mut i: usize = 0;
    while i < a.len()
        invariant
            a@.len() == b@.len(),
            i <= a@.len(),
            forall|j: int| 0 <= j < i ==> a@[j] == b@[j],
        decreases a@.len() - i,
    {
        if a[i] != b[i] {
            return false;
        }
        i += 1;
    }
    assert(a@ =~= b@);
    true
}

// ─── whitespace ─────────────────────────────────────────────────────────────

/// The Unicode `White_Space` property, which `char::is_whitespace` and the
/// `\s` class of regular expressions test.
pub open spec fn is_ws(c: char) -> bool {
    let u = c as u32;
    ||| 0x9 <= u <= 0xD
    ||| u == 0x20
    ||| u == 0x85
    ||| u == 0xA0
    ||| u == 0x1680
    ||| 0x2000 <= u <= 0x200A
    ||| u == 0x2028
    ||| u == 0x2029
    ||| u == 0x202F
    ||| u == 0x205F
    ||| u == 0x3000
}

/// Executable test of the `White_Space` property.
pub fn is_whitespace(c: char) -> (r: bool)
    ensures
        r == is_ws(c),
{
    let u = c as u32;
    (0x9 <= u && u <= 0xD) || u == 0x20 || u == 0x85 || u == 0xA0 || u == 0x1680 || (0x2000
        <= u && u <= 0x200A) || u == 0x2028 || u == 0x2029 || u == 0x202F || u == 0x205F || u
        == 0x3000
}

/// The string with its leading whitespace removed.
pub open spec fn trim_start(s: Seq<char>) -> Seq<char>
    decreases s.len(),
{
    if s.len() > 0 && is_ws(s[0]) {
        trim_start(s.drop_first())
    } else {
        s
    }
}

/// The string with its trailing whitespace removed.
pub open spec fn trim_end(s: Seq<char>) -> Seq<char>
    decreases s.len(),
{
    if s.len() > 0 && is_ws(s.last()) {
        trim_end(s.drop_last())
    } else {
        s
    }
}

/// The string with leading and trailing whitespace removed (`str::trim`).
pub open spec fn trim(s: Seq<char>) -> Seq<char> {
    trim_end(trim_start(s))
}

/// Number of whitespace characters at the start of `s`.
pub open spec fn ws_prefix_len(s: Seq<char>) -> nat
    decreases s.len(),
{
    if s.len() > 0 && is_ws(s[0]) {
        1 + ws_prefix_len(s.drop_first())
    } else {
        0
    }
}

/// Number of whitespace characters at the end of `s`.
pub open spec fn ws_suffix_len(s: Seq<char>) -> nat
    decreases s.len(),
{
    if s.len() > 0 && is_ws(s.last()) {
        1 + ws_suffix_len(s.drop_last())
    } else {
        0
    }
}

pub proof fn lemma_trim_start_skip(s: Seq<char>)
    ensures
        ws_prefix_len(s) <= s.len(),
        trim_start(s) == s.skip(ws_prefix_len(s) as int),
        forall|j: int| 0 <= j < ws_prefix_len(s) ==> is_ws(#[trigger] s[j]),
        ws_prefix_len(s) < s.len() ==> !is_ws(s[ws_prefix_len(s) as int]),
    decreases s.len(),
{
    if s.len() > 0 && is_ws(s[0]) {
        lemma_trim_start_skip(s.drop_first());
        assert(s.drop_first().skip(ws_prefix_len(s.drop_first()) as int) =~= s.skip(
            ws_prefix_len(s) as int,
        ));
        assert forall|j: int| 0 <= j < ws_prefix_len(s) implies is_ws(#[trigger] s[j]) by {
            if j > 0 {
                assert(s[j] == s.drop_first()[j - 1]);
            }
        }
        if ws_prefix_len(s) < s.len() {
            assert(s[ws_prefix_len(s) as int] == s.drop_first()[ws_prefix_len(
                s.drop_first(),
            ) as int]);
        }
    } else {
        assert(s.skip(0) =~= s);
    }
}

pub proof fn lemma_trim_end_take(s: Seq<char>)
    ensures
        ws_suffix_len(s) <= s.len(),
        trim_end(s) == s.take(s.len() - ws_suffix_len(s)),
        forall|j: int| s.len() - ws_suffix_len(s) <= j < s.len() ==> is_ws(#[trigger] s[j]),
        ws_suffix_len(s) < s.len() ==> !is_ws(s[s.len() - ws_suffix_len(s) - 1]),
    decreases s.len(),
{
    if s.len() > 0 && is_ws(s.last()) {
        lemma_trim_end_take(s.drop_last());
        assert(s.drop_last().take(s.drop_last().len() - ws_suffix_len(s.drop_last())) =~= s.take(
            s.len() - ws_suffix_len(s),
        ));
        assert forall|j: int| s.len() - ws_suffix_len(s) <= j < s.len() implies is_ws(
            #[trigger] s[j],
        ) by {
            if j < s.len() - 1 {
                assert(s[j] == s.drop_last()[j]);
            }
        }
        if ws_suffix_len(s) < s.len() {
            assert(s[s.len() - ws_suffix_len(s) - 1] == s.drop_last()[s.drop_last().len()
                - ws_suffix_len(s.drop_last()) - 1]);
        }
    } else {
        assert(s.take(s.len() as int) =~= s);
    }
}

/// Index of the first character of `s[from..to]` that is not whitespace
/// (or `to` when there is none).
pub fn skip_ws_forward(s: &[char], from: usize, to: usize) -> (i: usize)
    requires
        from <= to <= s@.len(),
    ensures
        from <= i <= to,
        i - from == ws_prefix_len(s@.subrange(from as int, to as int)),
{
    let mut i = from;
    while i < to && is_whitespace(s[i])
        invariant
            from <= i <= to <= s@.len(),
            forall|j: int| from <= j < i ==> is_ws(#[trigger] s@[j]),
        decreases to - i,
    {
        i += 1;
    }
    proof {
        let sub = s@.subrange(from as int, to as int);
        lemma_trim_start_skip(sub);
        let k = ws_prefix_len(sub);
        if k < i - from {
            assert(sub[k as int] == s@[from + k]);
        }
        if (i - from) < k {
            assert(sub[i - from] == s@[i as int]);
        }
    }
    i
}

/// One past the last character of `s[from..to]` that is not whitespace
/// (or `from` when there is none).
pub fn skip_ws_backward(s: &[char], from: usize, to: usize) -> (j: usize)
    requires
        from <= to <= s@.len(),
    ensures
        from <= j <= to,
        to - j == ws_suffix_len(s@.subrange(from as int, to as int)),
{
    let mut j = to;
    while j > from && is_whitespace(s[j - 1])
        invariant
            from <= j <= to <= s@.len(),
            forall|k: int| j <= k < to ==> is_ws(#[trigger] s@[k]),
        decreases j - from,
    {
        j -= 1;
    }
    proof {
        let sub = s@.subrange(from as int, to as int);
        lemma_trim_end_take(sub);
        let k = ws_suffix_len(sub);
        if k < to - j {
            assert(sub[sub.len() - k - 1] == s@[to - k - 1]);
        }
        if (to - j) < k {
            assert(sub[j - from - 1] == s@[j - 1]);
        }
    }
    j
}

/// The bounds of `s[from..to]` once whitespace is trimmed from both ends.
pub fn trim_bounds(s: &[char], from: usize, to: usize) -> (r: (usize, usize))
    requires
        from <= to <= s@.len(),
    ensures
        from <= r.0 <= r.1 <= to,
        s@.subrange(r.0 as int, r.1 as int) == trim(s@.subrange(from as int, to as int)),
{
    let a = skip_ws_forward(s, from, to);
    let b = skip_ws_backward(s, a, to);
    proof {
        let sub = s@.subrange(from as int, to as int);
        lemma_trim_start_skip(sub);
        assert(sub.skip((a - from) as int) =~= s@.subrange(a as int, to as int));
        let t = s@.subrange(a as int, to as int);
        lemma_trim_end_take(t);
        assert(t.take(t.len() - ws_suffix_len(t)) =~= s@.subrange(a as int, b as int));
    }
    (a, b)
}

/// `str::trim`: the string without leading and trailing whitespace.
pub fn trim_str(s: &str) -> (out: String)
    ensures
        out@ == trim(s@),
{
    let cs = chars_of(s);
    let (a, b) = trim_bounds(&cs, 0, cs.len());
    assert(cs@.subrange(0, cs@.len() as int) =~= cs@);
    let v = slice_to_vec(&cs, a, b);
    string_of(&v)
}

// ─── prefixes and searching ─────────────────────────────────────────────────

/// Whether `s` begins with `p`.
pub open spec fn has_prefix(s: Seq<char>, p: Seq<char>) -> bool {
    p.len() <= s.len() && s.take(p.len() as int) == p
}

/// Whether `s[at..]` begins with `p`.
pub open spec fn matches_at(s: Seq<char>, at: int, p: Seq<char>) -> bool {
    0 <= at && at + p.len() <= s.len() && s.subrange(at, at + p.len()) == p
}

/// Executable test of `matches_at`.
pub fn matches_at_exec(s: &[char], at: usize, p: &[char]) -> (r: bool)
    ensures
        r == matches_at(s@, at as int, p@),
{
    if at > s.len() || p.len() > s.len() - at {
        return false;
    }
    let mut k: usize = 0;
    while k < p.len()
        invariant
            at <= s@.len(),
            at + p@.len() <= s@.len(),
            s@.len() == s.len(),
            k <= p@.len(),
            forall|j: int| 0 <= j < k ==> s@[at + j] == p@[j],
        decreases p@.len() - k,
    {
        if s[at + k] != p[k] {
            assert(s@.subrange(at as int, at + p@.len())[k as int] == s@[at + k]);
            return false;
        }
        k += 1;
    }
    assert(s@.subrange(at as int, at + p@.len()) =~= p@);
    true
}

/// Position of the first occurrence of `p` in `s` at or after `from`.
pub open spec fn find_from(s: Seq<char>, p: Seq<char>, from: int) -> Option<int>
    decreases s.len() + 1 - from,
{
    if from < 0 || from + p.len() > s.len() {
        None
    } else if matches_at(s, from, p) {
        Some(from)
    } else {
        find_from(s, p, from + 1)
    }
}

/// Position of the first occurrence of `p` in `s` (`str::find`).
pub open spec fn find(s: Seq<char>, p: Seq<char>) -> Option<int> {
    find_from(s, p, 0)
}

pub proof fn lemma_find_from(s: Seq<char>, p: Seq<char>, from: int)
    requires
        0 <= from,
    ensures
        match find_from(s, p, from) {
            Some(i) => from <= i && matches_at(s, i, p) && forall|j: int|
                from <= j < i ==> !matches_at(s, j, p),
            None => forall|j: int| from <= j ==> !matches_at(s, j, p),
        },
    decreases s.len() + 1 - from,
{
    if from + p.len() > s.len() {
    } else if matches_at(s, from, p) {
    } else {
        lemma_find_from(s, p, from + 1);
    }
}

/// Executable search for `p` in `s`, starting at `from`.
pub fn find_from_exec(s: &[char], p: &[char], from: usize) -> (r: Option<usize>)
    requires
        from <= s@.len(),
    ensures
        match r {
            Some(i) => find_from(s@, p@, from as int) == Some(i as int),
            None => find_from(s@, p@, from as int) is None,
        },
{
    let mut i = from;
    proof {
        lemma_find_from(s@, p@, from as int);
    }
    while i <= s.len()
        invariant
            from <= i,
            find_from(s@, p@, from as int) == find_from(s@, p@, i as int),
        decreases s@.len() + 1 - i,
    {
        if p.len() > s.len() - i {
            return None;
        }
        if matches_at_exec(s, i, p) {
            return Some(i);
        }
        if i == s.len() {
            assert(s@.subrange(i as int, i as int) =~= p@);
            assert(false);
            return None;
        }
        i += 1;
    }
    None
}

// ─── lines and words ────────────────────────────────────────────────────────

/// First index at or after `i` holding `c`, or `s.len()`.
pub open spec fn next_char(s: Seq<char>, c: char, i: int) -> int
    decreases s.len() - i,
{
    if i < 0 || i >= s.len() {
        s.len() as int
    } else if s[i] == c {
        i
    } else {
        next_char(s, c, i + 1)
    }
}

pub proof fn lemma_next_char(s: Seq<char>, c: char, i: int)
    requires
        0 <= i <= s.len(),
    ensures
        i <= next_char(s, c, i) <= s.len(),
        forall|j: int| i <= j < next_char(s, c, i) ==> s[j] != c,
        next_char(s, c, i) < s.len() ==> s[next_char(s, c, i)] == c,
    decreases s.len() - i,
{
    if i < s.len() && s[i] != c {
        lemma_next_char(s, c, i + 1);
    }
}

/// Searching `p + q` from inside `q` finds what searching `q` finds, moved
/// by `p`'s length.
pub proof fn lemma_next_char_shift(p: Seq<char>, q: Seq<char>, c: char, i: int)
    requires
        0 <= i,
    ensures
        next_char(p + q, c, p.len() + i) == p.len() + next_char(q, c, i),
    decreases q.len() - i,
{
    let s = p + q;
    if i < q.len() {
        assert(s[p.len() + i] == q[i]);
        if q[i] != c {
            lemma_next_char_shift(p, q, c, i + 1);
        }
    }
}

/// `s[i..e]` without a final `'\r'`, where `e` ends a line: the rule that
/// `str::lines` applies to a line that a `'\n'` terminated.
pub open spec fn strip_cr(line: Seq<char>) -> Seq<char> {
    if line.len() > 0 && line.last() == '\r' {
        line.drop_last()
    } else {
        line
    }
}

/// The lines of `s[i..]` as `str::lines` yields them: split at each `'\n'`,
/// a `'\r'` before that `'\n'` removed, and no empty line after a final `'\n'`.
pub open spec fn lines_from(s: Seq<char>, i: int) -> Seq<Seq<char>>
    decreases s.len() - i,
{
    if i < 0 || i >= s.len() {
        Seq::empty()
    } else {
        let e = next_char(s, '\n', i);
        if e >= s.len() {
            seq![s.subrange(i, s.len() as int)]
        } else if e < i {
            Seq::empty()
        } else {
            seq![strip_cr(s.subrange(i, e))] + lines_from(s, e + 1)
        }
    }
}

/// The lines of `s` (`str::lines`).
pub open spec fn lines(s: Seq<char>) -> Seq<Seq<char>> {
    lines_from(s, 0)
}

/// The lines of `p + q` from inside `q` are the lines of `q` from there.
pub proof fn lemma_lines_shift(p: Seq<char>, q: Seq<char>, i: int)
    requires
        0 <= i,
    ensures
        lines_from(p + q, p.len() + i) == lines_from(q, i),
    decreases q.len() - i,
{
    let s = p + q;
    let k = p.len() + i;
    if i < q.len() {
        lemma_next_char_shift(p, q, '\n', i);
        lemma_next_char(q, '\n', i);
        let e2 = next_char(q, '\n', i);
        let e = p.len() + e2;
        if e2 >= q.len() {
            assert(s.subrange(k, s.len() as int) =~= q.subrange(i, q.len() as int));
        } else {
            assert(s.subrange(k, e) =~= q.subrange(i, e2));
            lemma_lines_shift(p, q, e2 + 1);
        }
    }
}

/// A line without `'\n'` followed by `'\n'` is the first line; the rest
/// are the lines of what follows.
pub proof fn lemma_lines_cons(a: Seq<char>, b: Seq<char>)
    requires
        !a.contains('\n'),
    ensures
        lines(a + seq!['\n'] + b) == seq![strip_cr(a)] + lines(b),
{
    let p = a + seq!['\n'];
    let s = p + b;
    lemma_next_char(s, '\n', 0);
    let e = next_char(s, '\n', 0);
    assert(s[a.len() as int] == '\n');
    if e < a.len() {
        assert(s[e] == a[e]);
        assert(a.contains(a[e]));
    }
    assert(e == a.len());
    assert(s.subrange(0, e) =~= a);
    lemma_lines_shift(p, b, 0);
    assert(a + seq!['\n'] + b =~= s);
}

/// A sequence of characters without `'\n'` glued to another without one
/// has none.
pub proof fn lemma_no_newline_concat(a: Seq<char>, b: Seq<char>)
    requires
        !a.contains('\n'),
        !b.contains('\n'),
    ensures
        !(a + b).contains('\n'),
{
    if (a + b).contains('\n') {
        let k = choose|k: int| 0 <= k < (a + b).len() && (a + b)[k] == '\n';
        if k < a.len() {
            assert(a[k] == '\n');
        } else {
            assert(b[k - a.len()] == '\n');
        }
    }
}

/// Index of the next `c` in `s[i..]`, or `s.len()`.
pub fn next_char_exec(s: &[char], c: char, i: usize) -> (e: usize)
    requires
        i <= s@.len(),
    ensures
        e == next_char(s@, c, i as int),
{
    let mut e = i;
    proof {
        lemma_next_char(s@, c, i as int);
    }
    while e < s.len() && s[e] != c
        invariant
            i <= e <= s@.len(),
            next_char(s@, c, i as int) == next_char(s@, c, e as int),
        decreases s@.len() - e,
    {
        e += 1;
    }
    e
}

/// The lines of a text, as `str::lines` yields them.
pub fn lines_exec(s: &[char]) -> (out: Vec<Vec<char>>)
    ensures
        out.deep_view() == lines(s@),
{
    let mut out: Vec<Vec<char>> = Vec::new();
    let mut i: usize = 0;
    while i < s.len()
        invariant
            i <= s@.len(),
            out.deep_view() + lines_from(s@, i as int) == lines(s@),
        decreases s@.len() - i,
    {
        let e = next_char_exec(s, '\n', i);
        proof {
            lemma_next_char(s@, '\n', i as int);
        }
        let ghost old_out = out.deep_view();
        if e >= s.len() {
            let line = slice_to_vec(s, i, s.len());
            assert(line.deep_view() =~= line@);
            out.push(line);
            assert(out.deep_view() =~= old_out + seq![s@.subrange(i as int, s@.len() as int)]);
            assert(lines_from(s@, s@.len() as int) =~= Seq::<Seq<char>>::empty());
            i = s.len();
        } else {
            let mut end = e;
            if end > i && s[end - 1] == '\r' {
                end = end - 1;
            }
            let line = slice_to_vec(s, i, end);
            assert(line.deep_view() =~= line@);
            out.push(line);
            assert(strip_cr(s@.subrange(i as int, e as int)) =~= s@.subrange(i as int, end as int));
            assert(out.deep_view() =~= old_out + seq![s@.subrange(i as int, end as int)]);
            i = e + 1;
        }
    }
    out
}

/// The maximal runs of non-whitespace characters in `s[i..]`
/// (`str::split_whitespace`).
pub open spec fn words_from(s: Seq<char>, i: int) -> Seq<Seq<char>>
    decreases s.len() - i,
{
    if i < 0 || i >= s.len() {
        Seq::empty()
    } else if is_ws(s[i]) {
        words_from(s, i + 1)
    } else {
        let e = word_end(s, i);
        if e <= i || e > s.len() {
            Seq::empty()
        } else {
            seq![s.subrange(i, e)] + words_from(s, e)
        }
    }
}

/// The words of `s` (`str::split_whitespace`).
pub open spec fn words(s: Seq<char>) -> Seq<Seq<char>> {
    words_from(s, 0)
}

/// First index at or after `i` holding whitespace, or `s.len()`.
pub open spec fn word_end(s: Seq<char>, i: int) -> int
    decreases s.len() - i,
{
    if i < 0 || i >= s.len() {
        s.len() as int
    } else if is_ws(s[i]) {
        i
    } else {
        word_end(s, i + 1)
    }
}

pub proof fn lemma_word_end(s: Seq<char>, i: int)
    requires
        0 <= i <= s.len(),
    ensures
        i <= word_end(s, i) <= s.len(),
        i < s.len() && !is_ws(s[i]) ==> i < word_end(s, i),
    decreases s.len() - i,
{
    if i < s.len() && !is_ws(s[i]) {
        lemma_word_end(s, i + 1);
    }
}

/// The words of a text, as `str::split_whitespace` yields them.
pub fn words_exec(s: &[char]) -> (out: Vec<Vec<char>>)
    ensures
        out.deep_view() == words(s@),
{
    let mut out: Vec<Vec<char>> = Vec::new();
    let mut i: usize = 0;
    while i < s.len()
        invariant
            i <= s@.len(),
            out.deep_view() + words_from(s@, i as int) == words(s@),
        decreases s@.len() - i,
    {
        if is_whitespace(s[i]) {
            i += 1;
        } else {
            let mut e = i + 1;
            proof {
                lemma_word_end(s@, i as int);
            }
            while e < s.len() && !is_whitespace(s[e])
                invariant
                    i < e <= s@.len(),
                    word_end(s@, i as int) == word_end(s@, e as int),
                decreases s@.len() - e,
            {
                e += 1;
            }
            let ghost old_out = out.deep_view();
            let w = slice_to_vec(s, i, e);
            assert(w.deep_view() =~= w@);
            out.push(w);
            assert(out.deep_view() =~= old_out + seq![s@.subrange(i as int, e as int)]);
            i = e;
        }
    }
    assert(words_from(s@, i as int) =~= Seq::<Seq<char>>::empty());
    out
}

/// `s.splitn(3, c)`: the text before the first `c`, the text between the
/// first and second `c`, and the rest, stopping early when `c` runs out.
pub open spec fn splitn3(s: Seq<char>, c: char) -> Seq<Seq<char>> {
    let i = next_char(s, c, 0);
    if i >= s.len() {
        seq![s]
    } else {
        let j = next_char(s, c, i + 1);
        if j >= s.len() {
            seq![s.take(i), s.skip(i + 1)]
        } else {
            seq![s.take(i), s.subrange(i + 1, j), s.skip(j + 1)]
        }
    }
}

// ─── splitting, joining, replacing ──────────────────────────────────────────

/// `s.split(sep)` for a non-empty separator: the pieces between
/// non-overlapping occurrences of `sep`, taken left to right.
pub open spec fn split_on(s: Seq<char>, sep: Seq<char>) -> Seq<Seq<char>>
    decreases s.len(),
{
    if sep.len() == 0 {
        seq![s]
    } else {
        match find(s, sep) {
            Some(i) => {
                if 0 <= i && i + sep.len() <= s.len() {
                    seq![s.take(i)] + split_on(s.skip(i + sep.len()), sep)
                } else {
                    seq![s]
                }
            },
            None => seq![s],
        }
    }
}

/// `parts.join(sep)`.
pub open spec fn join_with(parts: Seq<Seq<char>>, sep: Seq<char>) -> Seq<char>
    decreases parts.len(),
{
    if parts.len() == 0 {
        Seq::empty()
    } else if parts.len() == 1 {
        parts[0]
    } else {
        join_with(parts.drop_last(), sep) + sep + parts.last()
    }
}

/// `s.replace(from, to)` for a non-empty pattern: every non-overlapping
/// occurrence, found left to right, replaced.
pub open spec fn replace_all(s: Seq<char>, from: Seq<char>, to: Seq<char>) -> Seq<char>
    decreases s.len(),
{
    if from.len() == 0 || s.len() == 0 {
        s
    } else if has_prefix(s, from) {
        to + replace_all(s.skip(from.len() as int), from, to)
    } else {
        seq![s[0]] + replace_all(s.drop_first(), from, to)
    }
}

/// The string `::`.
pub open spec fn path_sep() -> Seq<char> {
    seq![':', ':']
}

/// Splits a text at every occurrence of a non-empty separator.
pub fn split_exec(s: &[char], sep: &[char]) -> (out: Vec<Vec<char>>)
    requires
        sep@.len() > 0,
    ensures
        out.deep_view() == split_on(s@, sep@),
        out@.len() >= 1,
{
    let mut out: Vec<Vec<char>> = Vec::new();
    let mut start: usize = 0;
    assert(s@.skip(0) =~= s@);
    assert(out.deep_view() + split_on(s@, sep@) =~= split_on(s@, sep@));
    loop
        invariant
            start <= s@.len(),
            sep@.len() > 0,
            out.deep_view() + split_on(s@.skip(start as int), sep@) == split_on(s@, sep@),
        decreases s@.len() - start,
    {
        let ghost rest = s@.skip(start as int);
        let found = find_from_exec(s, sep, start);
        proof {
            lemma_find_from(s@, sep@, start as int);
            lemma_find_from(rest, sep@, 0);
        }
        match found {
            Some(i) => {
                proof {
                    assert forall|j: int| 0 <= j < i - start implies !matches_at(rest, j, sep@) by {
                        if matches_at(rest, j, sep@) {
                            assert(s@.subrange(start + j, start + j + sep@.len()) =~= rest.subrange(
                                j,
                                j + sep@.len(),
                            ));
                            assert(matches_at(s@, start + j, sep@));
                        }
                    }
                    assert(s@.subrange(i as int, i + sep@.len()) =~= rest.subrange(
                        i - start,
                        i - start + sep@.len(),
                    ));
                    assert(matches_at(s@, i as int, sep@));
                    assert(matches_at(rest, i - start, sep@));
                    assert(find(rest, sep@) == Some(i - start));
                    assert(rest.take(i - start) =~= s@.subrange(start as int, i as int));
                    assert(rest.skip(i - start + sep@.len()) =~= s@.skip(i + sep@.len()));
                }
                let piece = slice_to_vec(s, start, i);
                let ghost before = out.deep_view();
                assert(piece.deep_view() =~= piece@);
                out.push(piece);
                assert(out.deep_view() =~= before + seq![s@.subrange(start as int, i as int)]);
                assert(i + sep@.len() <= s@.len());
                assert(s@.len() == s.len());
                start = i + sep.len();
            },
            None => {
                proof {
                    if let Some(j) = find(rest, sep@) {
                        assert(s@.subrange(start + j, start + j + sep@.len()) =~= rest.subrange(
                            j,
                            j + sep@.len(),
                        ));
                        assert(matches_at(s@, start + j, sep@));
                    }
                    assert(find(rest, sep@) is None);
                    assert(split_on(rest, sep@) == seq![rest]);
                    assert(rest =~= s@.subrange(start as int, s@.len() as int));
                }
                let piece = slice_to_vec(s, start, s.len());
                let ghost before = out.deep_view();
                assert(piece.deep_view() =~= piece@);
                out.push(piece);
                assert(out.deep_view() =~= before + seq![rest]);
                return out;
            },
        }
    }
}

/// Joins pieces with a separator.
pub fn join_exec(parts: &Vec<Vec<char>>, sep: &[char]) -> (out: Vec<char>)
    ensures
        out@ == join_with(parts.deep_view(), sep@),
{
    let ghost pv = parts.deep_view();
    let mut out: Vec<char> = Vec::new();
    let mut k: usize = 0;
    while k < parts.len()
        invariant
            k <= parts@.len(),
            pv == parts.deep_view(),
            out@ == join_with(pv.take(k as int), sep@),
        decreases parts@.len() - k,
    {
        assert(parts@[k as int]@ =~= pv[k as int]);
        assert(pv.take(k + 1).drop_last() =~= pv.take(k as int));
        if k > 0 {
            push_all(&mut out, sep);
        }
        push_all(&mut out, &parts[k]);
        proof {
            if k == 0 {
                assert(pv.take(1) =~= seq![pv[0]]);
                assert(out@ =~= pv[0]);
            }
        }
        k += 1;
    }
    assert(pv.take(k as int) =~= pv);
    out
}

/// Appends `more` to `out`.
pub fn push_all(out: &mut Vec<char>, more: &[char])
    ensures
        final(out)@ == old(out)@ + more@,
{
    let mut k: usize = 0;
    let ghost head = out@;
    while k < more.len()
        invariant
            k <= more@.len(),
            out@ == head + more@.take(k as int),
        decreases more@.len() - k,
    {
        out.push(more[k]);
        k += 1;
        assert(more@.take(k as int) == more@.take(k - 1).push(more@[k - 1]));
    }
    assert(more@.take(k as int) =~= more@);
}

/// Replaces every occurrence of a non-empty pattern.
pub fn replace_exec(s: &[char], from: &[char], to: &[char]) -> (out: Vec<char>)
    requires
        from@.len() > 0,
    ensures
        out@ == replace_all(s@, from@, to@),
{
    let mut out: Vec<char> = Vec::new();
    let mut i: usize = 0;
    assert(s@.skip(0) =~= s@);
    assert(out@ + replace_all(s@, from@, to@) =~= replace_all(s@, from@, to@));
    while i < s.len()
        invariant
            i <= s@.len(),
            from@.len() > 0,
            out@ + replace_all(s@.skip(i as int), from@, to@) == replace_all(s@, from@, to@),
        decreases s@.len() - i,
    {
        let ghost rest = s@.skip(i as int);
        let ghost before = out@;
        if matches_at_exec(s, i, from) {
            assert(rest.take(from@.len() as int) =~= s@.subrange(i as int, i + from@.len()));
            assert(rest.skip(from@.len() as int) =~= s@.skip(i + from@.len()));
            push_all(&mut out, to);
            i += from.len();
        } else {
            proof {
                if has_prefix(rest, from@) {
                    assert(rest.take(from@.len() as int) =~= s@.subrange(i as int, i + from@.len()));
                }
                assert(rest.drop_first() =~= s@.skip(i + 1));
            }
            out.push(s[i]);
            assert(out@ =~= before + seq![rest[0]]);
            i += 1;
        }
    }
    assert(s@.skip(i as int) =~= Seq::<char>::empty());
    assert(out@ + Seq::<char>::empty() =~= out@);
    out
}

// ─── numbers ────────────────────────────────────────────────────────────────

/// Whether `c` is an ASCII decimal digit.
pub open spec fn is_digit(c: char) -> bool {
    '0' <= c <= '9'
}

/// The decimal value of a run of ASCII digits.
pub open spec fn decimal_value(s: Seq<char>) -> nat
    decreases s.len(),
{
    if s.len() == 0 {
        0
    } else {
        decimal_value(s.drop_last()) * 10 + ((s.last() as u32) - ('0' as u32)) as nat
    }
}

/// `str::parse::<u32>`: an optional `+`, then one or more ASCII digits whose
/// value fits in a `u32`.
pub open spec fn parse_u32(s: Seq<char>) -> Option<u32> {
    parse_digits(u32_digits(s))
}

/// The part of a `u32` literal after its optional `+` sign.
pub open spec fn u32_digits(s: Seq<char>) -> Seq<char> {
    if s.len() > 0 && s[0] == '+' {
        s.drop_first()
    } else {
        s
    }
}

/// The value of a non-empty run of ASCII digits that fits in a `u32`.
pub open spec fn parse_digits(digits: Seq<char>) -> Option<u32> {
    if digits.len() > 0 && (forall|i: int| 0 <= i < digits.len() ==> is_digit(#[trigger] digits[i]))
        && decimal_value(digits) <= u32::MAX {
        Some(decimal_value(digits) as u32)
    } else {
        None
    }
}

proof fn lemma_decimal_value_monotone(s: Seq<char>, k: int)
    requires
        0 <= k <= s.len(),
        forall|i: int| 0 <= i < s.len() ==> is_digit(#[trigger] s[i]),
    ensures
        decimal_value(s.take(k)) <= decimal_value(s),
    decreases s.len() - k,
{
    if k < s.len() {
        lemma_decimal_value_monotone(s, k + 1);
        assert(s.take(k + 1).drop_last() =~= s.take(k));
    } else {
        assert(s.take(k) =~= s);
    }
}

/// Parses `s[from..to]` as a `u32` the way `str::parse::<u32>` does.
pub fn parse_u32_exec(s: &[char], from: usize, to: usize) -> (r: Option<u32>)
    requires
        from <= to <= s@.len(),
    ensures
        r == parse_u32(s@.subrange(from as int, to as int)),
{
    let ghost sub = s@.subrange(from as int, to as int);
    let mut start = from;
    if from < to && s[from] == '+' {
        start = from + 1;
    }
    let ghost digits = s@.subrange(start as int, to as int);
    assert(u32_digits(sub) =~= digits);
    if start == to {
        return None;
    }
    let mut value: u64 = 0;
    let mut i = start;
    while i < to
        invariant
            from <= start <= i <= to <= s@.len(),
            digits == s@.subrange(start as int, to as int),
            u32_digits(s@.subrange(from as int, to as int)) == digits,
            forall|j: int| start <= j < i ==> is_digit(#[trigger] s@[j]),
            value == decimal_value(s@.subrange(start as int, i as int)),
            value <= u32::MAX,
        decreases to - i,
    {
        let c = s[i];
        if !('0' <= c && c <= '9') {
            assert(digits[i - start] == c);
            assert(!is_digit(digits[i - start]));
            return None;
        }
        let d = (c as u32 - '0' as u32) as u64;
        assert(s@.subrange(start as int, i + 1).drop_last() =~= s@.subrange(
            start as int,
            i as int,
        ));
        let next = value * 10 + d;
        if next > 0xFFFF_FFFFu64 {
            proof {
                if forall|j: int| 0 <= j < digits.len() ==> is_digit(#[trigger] digits[j]) {
                    lemma_decimal_value_monotone(digits, i + 1 - start);
                    assert(digits.take(i + 1 - start) =~= s@.subrange(start as int, i + 1));
                }
            }
            return None;
        }
        value = next;
        i += 1;
    }
    assert(digits =~= s@.subrange(start as int, i as int));
    Some(value as u32)
}


proof fn lemma_join_cons(a: Seq<char>, rest: Seq<Seq<char>>, sep: Seq<char>)
    requires
        rest.len() >= 1,
    ensures
        join_with(seq![a] + rest, sep) == a + sep + join_with(rest, sep),
    decreases rest.len(),
{
    let all = seq![a] + rest;
    if rest.len() == 1 {
        assert(all.drop_last() =~= seq![a]);
        assert(all.last() == rest[0]);
        assert(join_with(seq![a], sep) == a);
        assert(join_with(rest, sep) == rest[0]);
        assert(join_with(all, sep) == join_with(all.drop_last(), sep) + sep + all.last());
    } else {
        assert(all.drop_last() =~= seq![a] + rest.drop_last());
        lemma_join_cons(a, rest.drop_last(), sep);
        assert(all.last() == rest.last());
        assert(join_with(all, sep) == join_with(all.drop_last(), sep) + sep + all.last());
        assert(join_with(rest, sep) == join_with(rest.drop_last(), sep) + sep + rest.last());
        assert(a + sep + join_with(rest.drop_last(), sep) + sep + rest.last() =~= a + sep + (
        join_with(rest.drop_last(), sep) + sep + rest.last()));
    }
}

proof fn lemma_split_on_len(s: Seq<char>, sep: Seq<char>)
    ensures
        split_on(s, sep).len() >= 1,
    decreases s.len(),
{
    if sep.len() > 0 {
        match find(s, sep) {
            Some(i) => {
                if 0 <= i && i + sep.len() <= s.len() {
                    lemma_split_on_len(s.skip(i + sep.len()), sep);
                }
            },
            None => {},
        }
    }
}

/// The last piece of a split holds no separator, and a text splits into
/// one piece exactly when it holds no separator, that piece being the text.
pub proof fn lemma_split_on_last(s: Seq<char>, sep: Seq<char>)
    requires
        sep.len() > 0,
    ensures
        split_on(s, sep).len() >= 1,
        find(split_on(s, sep).last(), sep) is None,
        (split_on(s, sep).len() == 1) == (find(s, sep) is None),
        find(s, sep) is None ==> split_on(s, sep) == seq![s],
    decreases s.len(),
{
    lemma_split_on_len(s, sep);
    lemma_find_from(s, sep, 0);
    match find(s, sep) {
        Some(i) => {
            let rest = s.skip(i + sep.len());
            lemma_split_on_last(rest, sep);
            assert(split_on(s, sep) == seq![s.take(i)] + split_on(rest, sep));
            assert(split_on(s, sep).last() == split_on(rest, sep).last());
        },
        None => {},
    }
}

/// Joining the pieces of a split with its separator gives back the text.
pub proof fn law_join_split(s: Seq<char>, sep: Seq<char>)
    ensures
        join_with(split_on(s, sep), sep) == s,
    decreases s.len(),
{
    if sep.len() > 0 {
        lemma_find_from(s, sep, 0);
        match find(s, sep) {
            Some(i) => {
                if 0 <= i && i + sep.len() <= s.len() {
                    let rest = s.skip(i + sep.len());
                    law_join_split(rest, sep);
                    lemma_split_on_len(rest, sep);
                    lemma_join_cons(s.take(i), split_on(rest, sep), sep);
                    assert(s.subrange(i, i + sep.len()) == sep);
                    assert(s =~= s.take(i) + sep + rest);
                }
            },
            None => {},
        }
    }
}

} // verus!
