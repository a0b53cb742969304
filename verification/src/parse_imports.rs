//! WESL import statements (`import package::module::item;`) in shader
//! source, with their locations.
//!
//! Offsets and lengths are in bytes of the UTF-8 text; the scanning itself
//! goes character by character.

use vstd::prelude::*;
use vstd::utf8::{encode_scalar, encode_utf8};

use crate::collections::{
    import_map_entries, import_map_insert, import_map_keys, import_map_new, import_map_values,
    part_set_insert, part_set_items, part_set_new, string_list_view, ImportPathMap,
    ImportPathPartSet,
};
use crate::text::{
    chars_of, find, find_from_exec, lemma_find_from, lemma_trim_start_skip, matches_at,
    matches_at_exec, skip_ws_forward, slice_to_vec, string_of, trim, trim_bounds, trim_start,
    ws_prefix_len,
};
use crate::types::{ImportPathPart, SourceLocation};

verus! {

// ─── byte offsets and lines ─────────────────────────────────────────────────

/// The byte offset of character `i` of `s` in its UTF-8 encoding.
pub open spec fn byte_offset(s: Seq<char>, i: int) -> nat {
    encode_utf8(s.take(i)).len()
}

/// The number of bytes that encode `c`.
pub open spec fn utf8_width(c: char) -> nat {
    encode_scalar(c as u32).len()
}

pub proof fn lemma_encode_concat(a: Seq<char>, b: Seq<char>)
    ensures
        encode_utf8(a + b) == encode_utf8(a) + encode_utf8(b),
    decreases a.len(),
{
    if a.len() == 0 {
        assert(a + b =~= b);
        assert(encode_utf8(a) =~= Seq::<u8>::empty());
        assert(encode_utf8(a) + encode_utf8(b) =~= encode_utf8(b));
    } else {
        assert((a + b).drop_first() =~= a.drop_first() + b);
        assert((a + b)[0] == a[0]);
        lemma_encode_concat(a.drop_first(), b);
        assert(encode_utf8(a + b) =~= encode_scalar(a[0] as u32) + encode_utf8(a.drop_first() + b));
        assert(encode_utf8(a) =~= encode_scalar(a[0] as u32) + encode_utf8(a.drop_first()));
    }
}

pub proof fn lemma_byte_offset_step(s: Seq<char>, i: int)
    requires
        0 <= i < s.len(),
    ensures
        byte_offset(s, i + 1) == byte_offset(s, i) + utf8_width(s[i]),
        1 <= utf8_width(s[i]) <= 4,
{
    assert(s.take(i + 1) =~= s.take(i) + seq![s[i]]);
    lemma_encode_concat(s.take(i), seq![s[i]]);
    assert(encode_utf8(seq![s[i]]) =~= encode_scalar(s[i] as u32) + encode_utf8(
        seq![s[i]].drop_first(),
    ));
    assert(seq![s[i]].drop_first() =~= Seq::<char>::empty());
    assert(encode_utf8(Seq::<char>::empty()) =~= Seq::<u8>::empty());
    assert(encode_utf8(seq![s[i]]) =~= encode_scalar(s[i] as u32));
}

pub proof fn lemma_byte_offset_mono(s: Seq<char>, i: int, j: int)
    requires
        0 <= i <= j <= s.len(),
    ensures
        byte_offset(s, i) + (j - i) <= byte_offset(s, j),
    decreases j - i,
{
    if i < j {
        lemma_byte_offset_mono(s, i, j - 1);
        lemma_byte_offset_step(s, j - 1);
    }
}

pub proof fn lemma_byte_offset_bound(s: Seq<char>, i: int)
    requires
        0 <= i <= s.len(),
    ensures
        byte_offset(s, i) <= encode_utf8(s).len(),
        s.len() <= encode_utf8(s).len(),
{
    lemma_byte_offset_mono(s, i, s.len() as int);
    lemma_byte_offset_mono(s, 0, s.len() as int);
    assert(s.take(s.len() as int) =~= s);
}

/// The number of bytes that encode `c`.
pub fn utf8_width_exec(c: char) -> (w: usize)
    ensures
        w == utf8_width(c),
{
    let u = c as u32;
    if u <= 0x7F {
        1
    } else if u <= 0x7FF {
        2
    } else if u <= 0xFFFF {
        3
    } else {
        4
    }
}

/// The byte offsets at which lines after the first begin: one past each
/// `'\n'`, in order.
pub open spec fn newline_offsets(s: Seq<char>) -> Seq<usize>
    decreases s.len(),
{
    if s.len() == 0 {
        Seq::empty()
    } else if s.last() == '\n' {
        newline_offsets(s.drop_last()).push(byte_offset(s, s.len() as int) as usize)
    } else {
        newline_offsets(s.drop_last())
    }
}

/// Whether a sequence of offsets strictly increases.
pub open spec fn strictly_increasing(v: Seq<usize>) -> bool {
    forall|i: int, j: int| 0 <= i < j < v.len() ==> v[i] < v[j]
}

/// The byte offsets at which lines after the first begin.
pub fn build_newline_offsets(content: &str) -> (offsets: Vec<usize>)
    requires
        encode_utf8(content@).len() <= usize::MAX,
    ensures
        offsets@ == newline_offsets(content@),
        strictly_increasing(offsets@),
        offsets@.len() <= content@.len(),
        forall|i: int| 0 <= i < offsets@.len() ==> offsets@[i] <= encode_utf8(content@).len(),
{
    let cs = chars_of(content);
    let mut offsets: Vec<usize> = Vec::new();
    let mut i: usize = 0;
    let mut pos: usize = 0;
    proof {
        assert(cs@.take(0) =~= Seq::<char>::empty());
    }
    while i < cs.len()
        invariant
            i <= cs@.len(),
            cs@ == content@,
            pos == byte_offset(cs@, i as int),
            offsets@ == newline_offsets(cs@.take(i as int)),
            strictly_increasing(offsets@),
            offsets@.len() <= i,
            encode_utf8(content@).len() <= usize::MAX,
            forall|k: int| 0 <= k < offsets@.len() ==> offsets@[k] <= pos,
        decreases cs@.len() - i,
    {
        proof {
            lemma_byte_offset_step(cs@, i as int);
            lemma_byte_offset_bound(content@, i + 1);
            assert(cs@.take(i + 1).drop_last() =~= cs@.take(i as int));
            assert(cs@.take(i + 1).take(i + 1) =~= cs@.take(i + 1));
        }
        let w = utf8_width_exec(cs[i]);
        pos = pos + w;
        if cs[i] == '\n' {
            offsets.push(pos);
        }
        i += 1;
    }
    proof {
        assert(cs@.take(i as int) =~= cs@);
        lemma_byte_offset_bound(content@, i as int);
    }
    offsets
}

/// The partition point of `offsets` for `offset`: the index of the first
/// offset past `offset`, searching from `i`.
pub open spec fn partition_point_from(offsets: Seq<usize>, offset: usize, i: int) -> int
    decreases offsets.len() - i,
{
    if i < 0 || i >= offsets.len() {
        offsets.len() as int
    } else if offsets[i] > offset {
        i
    } else {
        partition_point_from(offsets, offset, i + 1)
    }
}

/// The 0-based line index of `offset` (the number of line starts at or
/// before it) and its 1-based column in bytes.
pub open spec fn line_and_column(offset: usize, offsets: Seq<usize>) -> (int, int) {
    let idx = partition_point_from(offsets, offset, 0);
    let start = if idx == 0 {
        0
    } else {
        offsets[idx - 1] as int
    };
    (idx, offset - start + 1)
}

proof fn lemma_partition_point(offsets: Seq<usize>, offset: usize, i: int)
    requires
        0 <= i <= offsets.len(),
        strictly_increasing(offsets),
    ensures
        i <= partition_point_from(offsets, offset, i) <= offsets.len(),
        forall|k: int| i <= k < partition_point_from(offsets, offset, i) ==> offsets[k] <= offset,
        partition_point_from(offsets, offset, i) < offsets.len() ==> offsets[partition_point_from(
            offsets,
            offset,
            i,
        )] > offset,
    decreases offsets.len() - i,
{
    if i < offsets.len() && offsets[i] <= offset {
        lemma_partition_point(offsets, offset, i + 1);
    }
}

/// The 0-based line index and the 1-based byte column of a byte offset,
/// given the sorted line-start offsets (`partition_point` is a binary
/// search).
pub fn get_line_and_column(offset: usize, newline_offsets: &[usize]) -> (r: (usize, usize))
    requires
        strictly_increasing(newline_offsets@),
        offset < usize::MAX,
    ensures
        (r.0 as int, r.1 as int) == line_and_column(offset, newline_offsets@),
        r.0 <= newline_offsets@.len(),
{
    let ghost offs = newline_offsets@;
    proof {
        lemma_partition_point(offs, offset, 0);
    }
    let ghost pp = partition_point_from(offs, offset, 0);
    // Binary search for the first offset past `offset`.
    let mut lo: usize = 0;
    let mut hi: usize = newline_offsets.len();
    while lo < hi
        invariant
            0 <= lo <= hi <= offs.len(),
            offs == newline_offsets@,
            strictly_increasing(offs),
            pp == partition_point_from(offs, offset, 0),
            0 <= pp <= offs.len(),
            forall|k: int| 0 <= k < pp ==> offs[k] <= offset,
            pp < offs.len() ==> offs[pp] > offset,
            lo <= pp <= hi,
        decreases hi - lo,
    {
        let mid = lo + (hi - lo) / 2;
        if newline_offsets[mid] <= offset {
            proof {
                if (mid as int) >= pp {
                    if (mid as int) > pp {
                        assert(offs[pp] < offs[mid as int]);
                    }
                }
            }
            lo = mid + 1;
        } else {
            proof {
                if (mid as int) < pp {
                    assert(offs[mid as int] <= offset);
                }
            }
            hi = mid;
        }
    }
    let line_idx = lo;
    let line_start = if line_idx == 0 {
        0
    } else {
        newline_offsets[line_idx - 1]
    };
    proof {
        if line_idx > 0 {
            assert(offs[line_idx - 1] <= offset);
        }
    }
    (line_idx, offset - line_start + 1)
}

// ─── the text of one import statement ───────────────────────────────────────

/// The WESL package-root prefix of `import package::...` statements.
pub open spec fn package_prefix() -> Seq<char> {
    seq!['p', 'a', 'c', 'k', 'a', 'g', 'e', ':', ':']
}

/// The keyword of import statements.
pub open spec fn import_keyword() -> Seq<char> {
    seq!['i', 'm', 'p', 'o', 'r', 't']
}

/// `s` without its trailing `;`s (`trim_end_matches(';')`).
pub open spec fn trim_semicolons(s: Seq<char>) -> Seq<char>
    decreases s.len(),
{
    if s.len() > 0 && s.last() == ';' {
        trim_semicolons(s.drop_last())
    } else {
        s
    }
}

/// The module path that an import statement's text names:
/// - `import package::shared::apply_scale;` names `shared::apply_scale`;
/// - `import package::module::{item1, item2};` names `module`;
/// - `  import package::utils;` names `utils`.
///
/// Leading whitespace, the keyword `import`, whitespace and `package::`
/// must come first; trailing `;`s and surrounding whitespace are dropped, and
/// a final `::{...}` collection is cut off. An empty path names nothing.
pub open spec fn import_path_of(stmt: Seq<char>) -> Option<Seq<char>> {
    let a = trim_start(stmt);
    if !(import_keyword().len() <= a.len() && a.take(import_keyword().len() as int)
        == import_keyword()) {
        None
    } else {
        let b = trim_start(a.skip(import_keyword().len() as int));
        if !(package_prefix().len() <= b.len() && b.take(package_prefix().len() as int)
            == package_prefix()) {
            None
        } else {
            let content = trim(trim_semicolons(b.skip(package_prefix().len() as int)));
            let path = match find(content, seq![':', ':', '{']) {
                Some(pos) => trim(content.take(pos)),
                None => content,
            };
            if path.len() == 0 {
                None
            } else {
                Some(path)
            }
        }
    }
}

/// Extracts the module path named by the text of a WESL `import` statement.
#[verifier::rlimit(60)]
pub fn parse_wesl_import_path(import_stmt: &str) -> (r: Option<String>)
    ensures
        match r {
            Some(p) => import_path_of(import_stmt@) == Some(p@),
            None => import_path_of(import_stmt@) is None,
        },
{
    let s = chars_of(import_stmt);
    let keyword = chars_of("import");
    let prefix = chars_of("package::");
    let coll = chars_of("::{");
    proof {
        reveal_strlit("import");
        reveal_strlit("package::");
        reveal_strlit("::{");
        assert(keyword@ =~= import_keyword());
        assert(prefix@ =~= package_prefix());
        assert(coll@ =~= seq![':', ':', '{']);
    }
    let n = s.len();
    let a = skip_ws_forward(&s, 0, n);
    proof {
        assert(s@.subrange(0, n as int) =~= s@);
        lemma_trim_start_skip(s@);
        assert(trim_start(s@) =~= s@.subrange(a as int, n as int));
    }
    let ghost ta = s@.subrange(a as int, n as int);
    if !matches_at_exec(&s, a, &keyword) {
        proof {
            if import_keyword().len() <= ta.len() && ta.take(import_keyword().len() as int)
                == import_keyword() {
                assert(s@.subrange(a as int, a + 6) =~= ta.take(6));
            }
        }
        return None;
    }
    assert(s@.subrange(a as int, a + 6) =~= ta.take(6));
    let b = skip_ws_forward(&s, a + 6, n);
    proof {
        let rest = ta.skip(6);
        assert(rest =~= s@.subrange(a + 6, n as int));
        lemma_trim_start_skip(rest);
        assert(trim_start(rest) =~= s@.subrange(b as int, n as int));
    }
    let ghost tb = s@.subrange(b as int, n as int);
    if !matches_at_exec(&s, b, &prefix) {
        proof {
            if package_prefix().len() <= tb.len() && tb.take(package_prefix().len() as int)
                == package_prefix() {
                assert(s@.subrange(b as int, b + 9) =~= tb.take(9));
            }
        }
        return None;
    }
    assert(s@.subrange(b as int, b + 9) =~= tb.take(9));
    let c0 = b + 9;
    // Trailing semicolons.
    let mut e = n;
    while e > c0 && s[e - 1] == ';'
        invariant
            c0 <= e <= n == s@.len(),
            trim_semicolons(s@.subrange(c0 as int, n as int)) == trim_semicolons(
                s@.subrange(c0 as int, e as int),
            ),
        decreases e - c0,
    {
        assert(s@.subrange(c0 as int, e as int).drop_last() =~= s@.subrange(c0 as int, e - 1));
        e -= 1;
    }
    proof {
        assert(tb.skip(9) =~= s@.subrange(c0 as int, n as int));
        let t = s@.subrange(c0 as int, e as int);
        if t.len() > 0 {
            assert(t.last() == s@[e - 1]);
        }
    }
    let (c, d) = trim_bounds(&s, c0, e);
    let ghost content = s@.subrange(c as int, d as int);
    let content_v = slice_to_vec(&s, c, d);
    let found = find_from_exec(&content_v, &coll, 0);
    proof {
        lemma_find_from(content_v@, coll@, 0);
    }
    let (p0, p1) = match found {
        Some(pos) => {
            let (x, y) = trim_bounds(&content_v, 0, pos);
            proof {
                assert(content_v@.subrange(0, pos as int) =~= content.take(pos as int));
            }
            (x, y)
        },
        None => {
            assert(content_v@.subrange(0, content_v@.len() as int) =~= content);
            (0, content_v.len())
        },
    };
    if p1 == p0 {
        return None;
    }
    let path = slice_to_vec(&content_v, p0, p1);
    Some(string_of(&path))
}

// ─── finding import statements ──────────────────────────────────────────────

/// The span of `import <ws>+ package::` that a statement starting at line
/// start `p` has, after skipping the whitespace (newlines included) before
/// `import`, if it has one.
pub open spec fn import_prefix_at(s: Seq<char>, p: int) -> Option<(int, int)> {
    if p < 0 || p > s.len() {
        None
    } else {
        let q = p + ws_prefix_len(s.skip(p));
        if !matches_at(s, q, import_keyword()) {
            None
        } else {
            let r0 = q + import_keyword().len();
            let r = r0 + ws_prefix_len(s.skip(r0));
            if r == r0 || !matches_at(s, r, package_prefix()) {
                None
            } else {
                Some((q, r + package_prefix().len()))
            }
        }
    }
}

/// Whether `p` starts a line of `s[start..]`: it is `start` itself or
/// follows a `'\n'`.
pub open spec fn is_line_start(s: Seq<char>, start: int, p: int) -> bool {
    p == start || (p > 0 && s[p - 1] == '\n')
}

/// The first span `import <ws>+ package::`, searching the line starts of
/// `s[start..]` from `p` on: what the pattern `(?m)^\s*(import\s+package::)`
/// captures in its group when matched against `s[start..]`.
pub open spec fn import_prefix_from(s: Seq<char>, start: int, p: int) -> Option<(int, int)>
    decreases s.len() + 1 - p,
{
    if p < start || p > s.len() {
        None
    } else if is_line_start(s, start, p) && import_prefix_at(s, p) is Some {
        import_prefix_at(s, p)
    } else {
        import_prefix_from(s, start, p + 1)
    }
}

/// Where the statement whose prefix ends at `from` ends: at its first `;`
/// outside braces (included), or at the first newline outside braces
/// (excluded), or at the end of the text when a `}` closes more than was
/// opened; at `from` when the text ends first.
pub open spec fn statement_end(s: Seq<char>, from: int, i: int, level: nat) -> int
    decreases s.len() - i,
{
    if i < 0 || i >= s.len() {
        from
    } else if s[i] == '{' {
        statement_end(s, from, i + 1, level + 1)
    } else if s[i] == '}' {
        if level == 0 {
            s.len() as int
        } else {
            statement_end(s, from, i + 1, (level - 1) as nat)
        }
    } else if s[i] == ';' && level == 0 {
        i + 1
    } else if s[i] == '\n' && level == 0 {
        i
    } else {
        statement_end(s, from, i + 1, level)
    }
}

/// Abstract import statement: 0-based line index, 1-based column, byte
/// offset, byte length, and the module path.
pub type ImportView = (int, int, int, int, Seq<char>);

/// The import statements of `s[start..]`, in order. A statement whose text
/// names no path is passed over, and the scan goes on after it.
pub open spec fn import_statements_from(s: Seq<char>, start: int) -> Seq<ImportView>
    decreases s.len() + 1 - start,
{
    if start < 0 || start > s.len() {
        Seq::empty()
    } else {
        match import_prefix_from(s, start, start) {
            None => Seq::empty(),
            Some((g0, g1)) => {
                let end = statement_end(s, g1, g1, 0);
                if end <= start || g0 < start || end < g0 || end > s.len() {
                    Seq::empty()
                } else {
                    match import_path_of(s.subrange(g0, end)) {
                        None => import_statements_from(s, end),
                        Some(path) => {
                            let offset = byte_offset(s, g0);
                            let lc = line_and_column(offset as usize, newline_offsets(s));
                            seq![
                                (
                                    lc.0,
                                    lc.1,
                                    offset as int,
                                    byte_offset(s, end) - offset,
                                    path,
                                ),
                            ] + import_statements_from(s, end)
                        },
                    }
                }
            },
        }
    }
}

/// A WESL import statement: where it stands and the module paths it may
/// import from, keyed by imported item.
pub struct ImportStatement {
    pub source_location: SourceLocation,
    pub item_to_import_paths: ImportPathMap,
}

impl ImportStatement {
    /// The byte range of the statement in its source.
    pub fn range(&self) -> (r: std::ops::Range<usize>)
        requires
            self.source_location.offset + self.source_location.length <= usize::MAX,
        ensures
            r.start == self.source_location.offset,
            r.end == self.source_location.offset + self.source_location.length,
    {
        let start = self.source_location.offset;
        let end = start + self.source_location.length;
        start..end
    }

    /// The module paths of all entries, each once, in order.
    pub fn get_import_path_parts(&self) -> (parts: ImportPathPartSet)
        ensures
            part_set_items(parts) == distinct_paths(
                flatten_paths(import_map_entries(self.item_to_import_paths)),
                Seq::empty(),
            ),
    {
        let values = import_map_values(&self.item_to_import_paths);
        let ghost entries = import_map_entries(self.item_to_import_paths);
        let mut parts = part_set_new();
        let mut k: usize = 0;
        while k < values.len()
            invariant
                k <= values@.len(),
                values@.len() == entries.len(),
                entries == import_map_entries(self.item_to_import_paths),
                forall|i: int|
                    0 <= i < values@.len() ==> string_list_view(#[trigger] values@[i]@)
                        == entries[i].1,
                part_set_items(parts) == distinct_paths(
                    flatten_paths(entries.take(k as int)),
                    Seq::empty(),
                ),
            decreases values@.len() - k,
        {
            let ghost before = flatten_paths(entries.take(k as int));
            assert(entries.take(k + 1).drop_last() =~= entries.take(k as int));
            let list = &values[k];
            let mut j: usize = 0;
            while j < list.len()
                invariant
                    j <= list@.len(),
                    string_list_view(list@) == entries[k as int].1,
                    part_set_items(parts) == distinct_paths(
                        before + entries[k as int].1.take(j as int),
                        Seq::empty(),
                    ),
                decreases list@.len() - j,
            {
                let ghost seen = before + entries[k as int].1.take(j as int);
                let ghost items = part_set_items(parts);
                assert(before + entries[k as int].1.take(j + 1) =~= seen.push(list@[j as int]@));
                proof {
                    lemma_distinct_paths_push(seen, list@[j as int]@);
                }
                let part = ImportPathPart::new(list[j].as_str());
                part_set_insert(&mut parts, part);
                j += 1;
            }
            assert(entries[k as int].1.take(j as int) =~= entries[k as int].1);
            k += 1;
        }
        assert(entries.take(k as int) =~= entries);
        parts
    }
}

/// The module paths of all entries, in order.
pub open spec fn flatten_paths(entries: Seq<(Seq<char>, Seq<Seq<char>>)>) -> Seq<Seq<char>>
    decreases entries.len(),
{
    if entries.len() == 0 {
        Seq::empty()
    } else {
        flatten_paths(entries.drop_last()) + entries.last().1
    }
}

/// The items of `v` that neither `seen` nor an earlier item holds, in order.
pub open spec fn distinct_paths(v: Seq<Seq<char>>, seen: Seq<Seq<char>>) -> Seq<Seq<char>>
    decreases v.len(),
{
    if v.len() == 0 {
        Seq::empty()
    } else {
        let rest = distinct_paths(v.drop_last(), seen);
        if (seen + rest).contains(v.last()) {
            rest
        } else {
            rest.push(v.last())
        }
    }
}

pub proof fn lemma_distinct_paths_push(v: Seq<Seq<char>>, x: Seq<char>)
    ensures
        distinct_paths(v.push(x), Seq::empty()) == if distinct_paths(v, Seq::empty()).contains(x) {
            distinct_paths(v, Seq::empty())
        } else {
            distinct_paths(v, Seq::empty()).push(x)
        },
{
    assert(v.push(x).drop_last() =~= v);
    assert(Seq::<Seq<char>>::empty() + distinct_paths(v, Seq::empty()) =~= distinct_paths(
        v,
        Seq::empty(),
    ));
}

/// The view of an import statement found by the scanner.
pub open spec fn import_statement_view(s: ImportStatement) -> ImportView {
    let entries = import_map_entries(s.item_to_import_paths);
    (
        s.source_location.line_number as int - 1,
        s.source_location.line_position as int,
        s.source_location.offset as int,
        s.source_location.length as int,
        entries[0].0,
    )
}

/// Whether an import statement records its path as its one entry, mapping
/// the path to itself.
pub open spec fn single_entry(s: ImportStatement) -> bool {
    let entries = import_map_entries(s.item_to_import_paths);
    entries.len() == 1 && entries[0].1 == seq![entries[0].0]
}

/// The first import prefix at a line start of `s[start..]`.
fn find_import_prefix(s: &[char], start: usize) -> (r: Option<(usize, usize)>)
    requires
        start <= s@.len(),
    ensures
        match r {
            Some((a, b)) => import_prefix_from(s@, start as int, start as int) == Some(
                (a as int, b as int),
            ),
            None => import_prefix_from(s@, start as int, start as int) is None,
        },
{
    let keyword = chars_of("import");
    let prefix = chars_of("package::");
    proof {
        reveal_strlit("import");
        reveal_strlit("package::");
        assert(keyword@ =~= import_keyword());
        assert(prefix@ =~= package_prefix());
    }
    let mut p = start;
    while p <= s.len()
        invariant
            start <= p,
            keyword@ == import_keyword(),
            prefix@ == package_prefix(),
            import_prefix_from(s@, start as int, start as int) == import_prefix_from(
                s@,
                start as int,
                p as int,
            ),
        decreases s@.len() + 1 - p,
    {
        if p == start || s[p - 1] == '\n' {
            let q = skip_ws_forward(s, p, s.len());
            proof {
                assert(s@.subrange(p as int, s@.len() as int) =~= s@.skip(p as int));
            }
            if matches_at_exec(s, q, &keyword) {
                let r = skip_ws_forward(s, q + 6, s.len());
                proof {
                    assert(s@.subrange(q + 6, s@.len() as int) =~= s@.skip(q + 6));
                }
                if r > q + 6 && matches_at_exec(s, r, &prefix) {
                    assert(import_prefix_at(s@, p as int) == Some((q as int, r + 9)));
                    return Some((q, r + 9));
                }
                assert(import_prefix_at(s@, p as int) is None);
            } else {
                assert(import_prefix_at(s@, p as int) is None);
            }
        }
        if p == s.len() {
            assert(import_prefix_from(s@, start as int, p + 1) is None);
            return None;
        }
        p += 1;
    }
    None
}

/// Where the statement whose prefix ends at `from` ends.
fn find_statement_end(s: &[char], from: usize) -> (end: usize)
    requires
        from <= s@.len(),
    ensures
        end == statement_end(s@, from as int, from as int, 0),
        from <= end <= s@.len(),
{
    let mut i = from;
    let mut level: usize = 0;
    while i < s.len()
        invariant
            from <= i <= s@.len(),
            level <= i,
            statement_end(s@, from as int, from as int, 0) == statement_end(
                s@,
                from as int,
                i as int,
                level as nat,
            ),
        decreases s@.len() - i,
    {
        let c = s[i];
        if c == '{' {
            level += 1;
        } else if c == '}' {
            if level == 0 {
                return s.len();
            }
            level -= 1;
        } else if c == ';' && level == 0 {
            return i + 1;
        } else if c == '\n' && level == 0 {
            return i;
        }
        i += 1;
    }
    from
}

/// Collects all WESL import statements (`import package::module::item;`) of
/// a shader source. Each statement maps its module path to itself; the
/// dependency resolver then tries the path's successive prefixes.
///
/// Only the WESL `import package::` form is recognised. A statement that
/// names no path yields nothing, and the scan goes on after it.
pub fn get_import_statements(content: &str) -> (stmts: Vec<ImportStatement>)
    requires
        encode_utf8(content@).len() < usize::MAX,
    ensures
        Seq::new(stmts@.len(), |i: int| import_statement_view(stmts@[i]))
            == import_statements_from(content@, 0),
        forall|i: int| 0 <= i < stmts@.len() ==> single_entry(#[trigger] stmts@[i]),
{
    let s = chars_of(content);
    let offsets = build_newline_offsets(content);
    let mut stmts: Vec<ImportStatement> = Vec::new();
    let mut start: usize = 0;
    let mut start_byte: usize = 0;
    proof {
        assert(s@.take(0) =~= Seq::<char>::empty());
    }
    loop
        invariant
            start <= s@.len(),
            s@ == content@,
            offsets@ == newline_offsets(s@),
            strictly_increasing(offsets@),
            offsets@.len() <= s@.len(),
            encode_utf8(content@).len() < usize::MAX,
            start_byte == byte_offset(s@, start as int),
            Seq::new(stmts@.len(), |i: int| import_statement_view(stmts@[i]))
                + import_statements_from(s@, start as int) == import_statements_from(s@, 0),
            forall|i: int| 0 <= i < stmts@.len() ==> single_entry(#[trigger] stmts@[i]),
        decreases s@.len() + 1 - start,
    {
        let ghost done = Seq::new(stmts@.len(), |i: int| import_statement_view(stmts@[i]));
        let found = find_import_prefix(&s, start);
        let (g0, g1) = match found {
            Some(g) => g,
            None => {
                assert(done + Seq::<ImportView>::empty() =~= done);
                return stmts;
            },
        };
        proof {
            // The prefix lies after `start`.
            lemma_import_prefix_from(s@, start as int, start as int);
        }
        let end = find_statement_end(&s, g1);
        if end <= start || g0 < start || end < g0 {
            assert(done + Seq::<ImportView>::empty() =~= done);
            return stmts;
        }
        // Byte offsets of the statement's start and end.
        let mut k = start;
        let mut offset = start_byte;
        let mut stmt_offset: usize = 0;
        proof {
            lemma_byte_offset_bound(content@, start as int);
        }
        while k < end
            invariant
                start <= k <= end <= s@.len(),
                s@ == content@,
                encode_utf8(content@).len() < usize::MAX,
                g0 <= end,
                start <= g0,
                offset == byte_offset(s@, k as int),
                k > g0 ==> stmt_offset == byte_offset(s@, g0 as int),
            decreases end - k,
        {
            if k == g0 {
                stmt_offset = offset;
            }
            proof {
                lemma_byte_offset_step(s@, k as int);
                lemma_byte_offset_bound(content@, k + 1);
            }
            offset = offset + utf8_width_exec(s[k]);
            k += 1;
        }
        if g0 == end {
            stmt_offset = offset;
        }
        let end_byte = offset;
        proof {
            lemma_byte_offset_mono(s@, g0 as int, end as int);
            lemma_byte_offset_bound(content@, end as int);
        }
        let text = string_of(&slice_to_vec(&s, g0, end));
        let path = match parse_wesl_import_path(text.as_str()) {
            Some(p) => p,
            None => {
                start = end;
                start_byte = end_byte;
                continue;
            },
        };
        let (line_idx, line_position) = get_line_and_column(stmt_offset, &offsets);
        proof {
            lemma_byte_offset_bound(s@, s@.len() as int);
        }
        let mut map = import_map_new();
        let key = path.clone();
        let mut list: Vec<String> = Vec::new();
        list.push(path);
        proof {
            assert(!import_map_keys(Seq::<(Seq<char>, Seq<Seq<char>>)>::empty()).contains(key@));
        }
        import_map_insert(&mut map, key, list);
        let stmt = ImportStatement {
            source_location: SourceLocation {
                line_number: line_idx + 1,
                line_position,
                offset: stmt_offset,
                length: end_byte - stmt_offset,
            },
            item_to_import_paths: map,
        };
        proof {
            let e = import_map_entries(stmt.item_to_import_paths);
            assert(e.len() == 1);
            assert(string_list_view(list@) =~= seq![key@]);
        }
        stmts.push(stmt);
        assert(Seq::new(stmts@.len(), |i: int| import_statement_view(stmts@[i])) =~= done.push(
            import_statement_view(stmt),
        ));
        start = end;
        start_byte = end_byte;
    }
}

proof fn lemma_import_prefix_from(s: Seq<char>, start: int, p: int)
    requires
        start <= p,
    ensures
        import_prefix_from(s, start, p) matches Some((a, b)) ==> p <= a && a + 15 <= b <= s.len(),
    decreases s.len() + 1 - p,
{
    if p < start || p > s.len() {
    } else if is_line_start(s, start, p) && import_prefix_at(s, p) is Some {
        lemma_trim_start_skip(s.skip(p));
        let q = p + ws_prefix_len(s.skip(p));
        let r0 = q + 6;
        lemma_trim_start_skip(s.skip(r0));
    } else {
        lemma_import_prefix_from(s, start, p + 1);
    }
}

} // verus!
