//! The text side of the fwgsl → WGSL loader.
//!
//! A `.fwgsl` file holds fwgsl code, then optionally a line that reads
//! `-- @wgsl`, then raw WGSL. The fwgsl part is compiled to WGSL elsewhere;
//! this module splits the file and writes the `// @fwgsl-adt:` annotation
//! lines that announce the compiled program's algebraic data types.

use vstd::prelude::*;

use crate::text::{
    chars_of, lemma_next_char, push_all, next_char, next_char_exec, parse_u32, parse_u32_exec,
    slice_to_vec, splitn3, string_of, trim, trim_bounds,
};

verus! {

/// The marker line that separates the fwgsl part from the raw WGSL part.
pub open spec fn wgsl_section_marker() -> Seq<char> {
    seq!['-', '-', ' ', '@', 'w', 'g', 's', 'l']
}

/// End of the `split_inclusive('\n')` piece of `s` that starts at `i`.
pub open spec fn piece_end(s: Seq<char>, i: int) -> int {
    let e = next_char(s, '\n', i);
    if e < s.len() {
        e + 1
    } else {
        s.len() as int
    }
}

/// The bounds of the first line at or after `i` whose trimmed text is the
/// marker, if any.
pub open spec fn marker_line_from(s: Seq<char>, i: int) -> Option<(int, int)>
    decreases s.len() - i,
{
    if i < 0 || i >= s.len() {
        None
    } else {
        let end = piece_end(s, i);
        if end <= i {
            None
        } else if trim(s.subrange(i, end)) == wgsl_section_marker() {
            Some((i, end))
        } else {
            marker_line_from(s, end)
        }
    }
}

/// The fwgsl part and the WGSL part of a `.fwgsl` source: the text before
/// the first marker line and the text after it; with no marker line, the
/// whole source and an empty WGSL part.
pub open spec fn split_source(s: Seq<char>) -> (Seq<char>, Seq<char>) {
    match marker_line_from(s, 0) {
        Some((a, b)) => (s.take(a), s.skip(b)),
        None => (s, Seq::empty()),
    }
}

/// Splits a `.fwgsl` source on its first `-- @wgsl` line into the fwgsl part
/// and the WGSL part. The marker line belongs to neither part.
pub fn split_fwgsl_source(source: &str) -> (r: (String, String))
    ensures
        (r.0@, r.1@) == split_source(source@),
{
    let s = chars_of(source);
    let marker = chars_of("-- @wgsl");
    proof {
        reveal_strlit("-- @wgsl");
        assert(marker@ =~= wgsl_section_marker());
    }
    let mut i: usize = 0;
    while i < s.len()
        invariant
            i <= s@.len(),
            s@ == source@,
            marker@ == wgsl_section_marker(),
            marker_line_from(s@, 0) == marker_line_from(s@, i as int),
        decreases s@.len() - i,
    {
        let e = next_char_exec(&s, '\n', i);
        proof {
            lemma_next_char(s@, '\n', i as int);
        }
        let end = if e < s.len() {
            e + 1
        } else {
            s.len()
        };
        assert(piece_end(s@, i as int) == end as int);
        let (a, b) = trim_bounds(&s, i, end);
        if b - a == marker.len() && crate::text::matches_at_exec(&s, a, &marker) {
            assert(s@.subrange(a as int, b as int) =~= trim(s@.subrange(i as int, end as int)));
            assert(trim(s@.subrange(i as int, end as int)) == wgsl_section_marker());
            assert(marker_line_from(s@, i as int) == Some((i as int, end as int)));
            let fw = slice_to_vec(&s, 0, i);
            let wg = slice_to_vec(&s, end, s.len());
            assert(s@.subrange(0, i as int) =~= s@.take(i as int));
            assert(s@.subrange(end as int, s@.len() as int) =~= s@.skip(end as int));
            assert(s@ == source@);
            assert(split_source(s@) == (s@.take(i as int), s@.skip(end as int)));
            return (string_of(&fw), string_of(&wg));
        }
        proof {
            let t = trim(s@.subrange(i as int, end as int));
            if t == wgsl_section_marker() {
                assert(s@.subrange(a as int, a + marker@.len()) =~= t);
            }
        }
        i = end;
    }
    let ghost empty = Seq::<char>::empty();
    (string_of(&s), String::new())
}

// ─── annotation lines ───────────────────────────────────────────────────────

/// A constructor of an fwgsl data type: its name, its tag, and whether it
/// carries fields.
pub struct AdtConstructor {
    pub name: String,
    pub tag: u32,
    pub has_fields: bool,
}

/// An fwgsl data type: its name and its constructors.
pub struct AdtDataType {
    pub name: String,
    pub constructors: Vec<AdtConstructor>,
}

/// Abstract constructor.
pub type CtorView = (Seq<char>, u32, bool);

/// Abstract data type.
pub type DataTypeView = (Seq<char>, Seq<CtorView>);

impl View for AdtConstructor {
    type V = CtorView;

    open spec fn view(&self) -> CtorView {
        (self.name@, self.tag, self.has_fields)
    }
}

impl View for AdtDataType {
    type V = DataTypeView;

    open spec fn view(&self) -> DataTypeView {
        (self.name@, Seq::new(self.constructors@.len(), |i: int| self.constructors@[i]@))
    }
}

/// The abstract data types of a list.
pub open spec fn data_types_view(v: Seq<AdtDataType>) -> Seq<DataTypeView> {
    Seq::new(v.len(), |i: int| v[i]@)
}

/// The ASCII digit of a value below ten.
pub open spec fn digit_char(d: nat) -> char {
    ((d + ('0' as u32)) as u32) as char
}

/// The decimal representation of a number, without sign or leading zeros.
pub open spec fn decimal(n: nat) -> Seq<char>
    decreases n,
{
    if n < 10 {
        seq![digit_char(n)]
    } else {
        decimal(n / 10).push(digit_char(n % 10))
    }
}

/// Appends the decimal representation of `n`.
pub fn push_decimal(out: &mut Vec<char>, n: u32)
    ensures
        final(out)@ == old(out)@ + decimal(n as nat),
    decreases n,
{
    if n >= 10 {
        push_decimal(out, n / 10);
    }
    out.push(digit_to_char(n % 10));
}

/// The ASCII digit of a value below ten.
pub fn digit_to_char(d: u32) -> (c: char)
    requires
        d < 10,
    ensures
        c == digit_char(d as nat),
{
    match d {
        0 => '0',
        1 => '1',
        2 => '2',
        3 => '3',
        4 => '4',
        5 => '5',
        6 => '6',
        7 => '7',
        8 => '8',
        _ => '9',
    }
}

/// The data types whose annotations are left out: fwgsl's own prelude types.
pub open spec fn is_builtin_adt(name: Seq<char>) -> bool {
    ||| name == seq!['O', 'p', 't', 'i', 'o', 'n']
    ||| name == seq!['R', 'e', 's', 'u', 'l', 't']
    ||| name == seq!['P', 'a', 'i', 'r']
}

/// The entry that announces one constructor: `Name:tag`, or
/// `Name:tag:Name` when the constructor carries fields (its payload struct is
/// named after it).
pub open spec fn ctor_entry(c: CtorView) -> Seq<char> {
    let head = c.0 + seq![':'] + decimal(c.1 as nat);
    if c.2 {
        head + seq![':'] + c.0
    } else {
        head
    }
}

/// The tag that orders an entry: the number after its first `:`, or
/// `u32::MAX` when that text is not a `u32`.
pub open spec fn entry_order_key(entry: Seq<char>) -> u32 {
    let parts = splitn3(entry, ':');
    if parts.len() < 2 {
        u32::MAX
    } else {
        match parse_u32(parts[1]) {
            Some(t) => t,
            None => u32::MAX,
        }
    }
}

/// Where a stable insertion puts an entry with key `k`: after every entry
/// whose key is at most `k`.
pub open spec fn key_insert_pos(sorted: Seq<Seq<char>>, k: u32) -> int
    decreases sorted.len(),
{
    if sorted.len() == 0 {
        0
    } else if entry_order_key(sorted.last()) <= k {
        sorted.len() as int
    } else {
        key_insert_pos(sorted.drop_last(), k)
    }
}

/// The entries stably sorted by their order key (`sort_by_key`).
pub open spec fn sort_entries(es: Seq<Seq<char>>) -> Seq<Seq<char>>
    decreases es.len(),
{
    if es.len() == 0 {
        Seq::empty()
    } else {
        let rest = sort_entries(es.drop_last());
        rest.insert(key_insert_pos(rest, entry_order_key(es.last())), es.last())
    }
}

/// Lexicographic order of character sequences (`str::cmp`, since UTF-8
/// preserves the order of code points).
pub open spec fn chars_lt(a: Seq<char>, b: Seq<char>) -> bool
    decreases a.len(),
{
    if a.len() == 0 {
        b.len() > 0
    } else if b.len() == 0 {
        false
    } else if a[0] != b[0] {
        (a[0] as u32) < (b[0] as u32)
    } else {
        chars_lt(a.drop_first(), b.drop_first())
    }
}

/// Where a stable insertion by name puts a data type named `n`.
pub open spec fn name_insert_pos(sorted: Seq<DataTypeView>, n: Seq<char>) -> int
    decreases sorted.len(),
{
    if sorted.len() == 0 {
        0
    } else if !chars_lt(n, sorted.last().0) {
        sorted.len() as int
    } else {
        name_insert_pos(sorted.drop_last(), n)
    }
}

/// The data types stably sorted by name (`sort_by` on the names).
pub open spec fn sort_data_types(ds: Seq<DataTypeView>) -> Seq<DataTypeView>
    decreases ds.len(),
{
    if ds.len() == 0 {
        Seq::empty()
    } else {
        let rest = sort_data_types(ds.drop_last());
        rest.insert(name_insert_pos(rest, ds.last().0), ds.last())
    }
}

/// Entries joined by single spaces.
pub open spec fn join_spaced(es: Seq<Seq<char>>) -> Seq<char>
    decreases es.len(),
{
    if es.len() == 0 {
        Seq::empty()
    } else if es.len() == 1 {
        es[0]
    } else {
        join_spaced(es.drop_last()) + seq![' '] + es.last()
    }
}

/// The annotation line of one data type.
pub open spec fn annotation_line(d: DataTypeView) -> Seq<char> {
    let entries = sort_entries(Seq::new(d.1.len(), |i: int| ctor_entry(d.1[i])));
    crate::adt::adt_prefix() + seq![' '] + d.0 + seq![' '] + join_spaced(entries) + seq!['\n']
}

/// The annotation lines of data types taken in the given order, skipping
/// the builtin ones.
pub open spec fn annotation_lines(ds: Seq<DataTypeView>) -> Seq<char>
    decreases ds.len(),
{
    if ds.len() == 0 {
        Seq::empty()
    } else if is_builtin_adt(ds.last().0) {
        annotation_lines(ds.drop_last())
    } else {
        annotation_lines(ds.drop_last()) + annotation_line(ds.last())
    }
}

/// The compiled WGSL preceded by one annotation line per user data type,
/// in name order.
pub open spec fn annotated_wgsl(wgsl: Seq<char>, ds: Seq<DataTypeView>) -> Seq<char> {
    annotation_lines(sort_data_types(ds)) + wgsl
}

/// The order key of an entry.
pub fn entry_order_key_exec(entry: &[char]) -> (k: u32)
    ensures
        k == entry_order_key(entry@),
{
    let ghost parts = splitn3(entry@, ':');
    let i = next_char_exec(entry, ':', 0);
    proof {
        lemma_next_char(entry@, ':', 0);
    }
    if i >= entry.len() {
        return u32::MAX;
    }
    let j = next_char_exec(entry, ':', i + 1);
    proof {
        lemma_next_char(entry@, ':', i + 1);
        assert(parts[1] =~= entry@.subrange(i + 1, j as int));
    }
    match parse_u32_exec(entry, i + 1, j) {
        Some(t) => t,
        None => u32::MAX,
    }
}

/// The entry that announces a constructor.
pub fn ctor_entry_exec(c: &AdtConstructor) -> (e: Vec<char>)
    ensures
        e@ == ctor_entry(c@),
{
    let name = chars_of(c.name.as_str());
    let mut e = name.clone();
    e.push(':');
    push_decimal(&mut e, c.tag);
    if c.has_fields {
        e.push(':');
        let mut k: usize = 0;
        let ghost head = e@;
        while k < name.len()
            invariant
                k <= name@.len(),
                name@ == c.name@,
                e@ == head + name@.take(k as int),
            decreases name@.len() - k,
        {
            e.push(name[k]);
            k += 1;
            assert(name@.take(k as int) == name@.take(k - 1).push(name@[k - 1]));
        }
        assert(name@.take(k as int) =~= name@);
    }
    e
}

/// Appends `more` to `out`.
pub fn append_chars(out: &mut Vec<char>, more: &[char])
    ensures
        final(out)@ == old(out)@ + more@,
{
    let mut k: usize = 0;
    let ghost head = out@;
    while k < more.len()
        invariant
            k <= more@.len(),
            out@ == head + more@.take(k as int),
        decreases more@.len() - k,
    {
        out.push(more[k]);
        k += 1;
        assert(more@.take(k as int) == more@.take(k - 1).push(more@[k - 1]));
    }
    assert(more@.take(k as int) =~= more@);
}

/// Stably sorts entries by their order key.
pub fn sort_entries_exec(es: Vec<Vec<char>>) -> (out: Vec<Vec<char>>)
    ensures
        out.deep_view() == sort_entries(es.deep_view()),
{
    let ghost ev = es.deep_view();
    let mut out: Vec<Vec<char>> = Vec::new();
    let mut i: usize = 0;
    while i < es.len()
        invariant
            i <= es@.len(),
            ev == es.deep_view(),
            out.deep_view() == sort_entries(ev.take(i as int)),
        decreases es@.len() - i,
    {
        let k = entry_order_key_exec(&es[i]);
        assert(es@[i as int]@ =~= ev[i as int]);
        let ghost sorted = out.deep_view();
        let mut p = out.len();
        assert(sorted.take(p as int) =~= sorted);
        while p > 0 && entry_order_key_exec(&out[p - 1]) > k
            invariant
                p <= out@.len(),
                sorted == out.deep_view(),
                key_insert_pos(sorted, k) == key_insert_pos(sorted.take(p as int), k),
            decreases p,
        {
            assert(out@[p - 1]@ =~= sorted[p - 1]);
            assert(sorted.take(p as int).drop_last() =~= sorted.take(p - 1));
            p -= 1;
        }
        proof {
            if p > 0 {
                assert(out@[p - 1]@ =~= sorted[p - 1]);
            }
        }
        let item = es[i].clone();
        assert(item@ == ev[i as int]);
        out.insert(p, item);
        assert(ev.take(i + 1).drop_last() =~= ev.take(i as int));
        assert(item.deep_view() =~= item@);
        assert(out.deep_view() =~= sorted.insert(p as int, ev[i as int]));
        i += 1;
    }
    assert(ev.take(i as int) =~= ev);
    out
}

/// Whether `a` sorts before `b`.
pub fn chars_lt_exec(a: &[char], b: &[char]) -> (r: bool)
    ensures
        r == chars_lt(a@, b@),
{
    let mut i: usize = 0;
    assert(a@.skip(0) =~= a@);
    assert(b@.skip(0) =~= b@);
    while i < a.len() && i < b.len() && a[i] == b[i]
        invariant
            i <= a@.len(),
            i <= b@.len(),
            chars_lt(a@, b@) == chars_lt(a@.skip(i as int), b@.skip(i as int)),
        decreases a@.len() - i,
    {
        assert(a@.skip(i as int).drop_first() =~= a@.skip(i + 1));
        assert(b@.skip(i as int).drop_first() =~= b@.skip(i + 1));
        i += 1;
    }
    if i == a.len() {
        i < b.len()
    } else if i == b.len() {
        false
    } else {
        (a[i] as u32) < (b[i] as u32)
    }
}

/// Writes the annotated WGSL: one `// @fwgsl-adt:` line for each data type
/// that is not one of fwgsl's builtin types, in name order, each listing
/// the constructors in tag order, followed by the compiled WGSL.
pub fn inject_adt_annotations(wgsl: &str, data_types: &Vec<AdtDataType>) -> (out: String)
    ensures
        out@ == annotated_wgsl(wgsl@, data_types_view(data_types@)),
{
    let ghost dv = data_types_view(data_types@);
    // Stable sort of the indices by name.
    let mut order: Vec<usize> = Vec::new();
    let mut i: usize = 0;
    while i < data_types.len()
        invariant
            i <= data_types@.len(),
            dv == data_types_view(data_types@),
            forall|k: int| 0 <= k < order@.len() ==> order@[k] < data_types@.len(),
            Seq::new(order@.len(), |k: int| dv[order@[k] as int]) == sort_data_types(dv.take(i as int)),
        decreases data_types@.len() - i,
    {
        let ghost sorted = Seq::new(order@.len(), |k: int| dv[order@[k] as int]);
        let name = chars_of(data_types[i].name.as_str());
        let mut p = order.len();
        assert(sorted.take(p as int) =~= sorted);
        while p > 0 && chars_lt_exec(&name, &chars_of(data_types[order[p - 1]].name.as_str()))
            invariant
                p <= order@.len(),
                name@ == dv[i as int].0,
                i < data_types@.len(),
                dv == data_types_view(data_types@),
                forall|k: int| 0 <= k < order@.len() ==> order@[k] < data_types@.len(),
                sorted == Seq::new(order@.len(), |k: int| dv[order@[k] as int]),
                name_insert_pos(sorted, name@) == name_insert_pos(sorted.take(p as int), name@),
            decreases p,
        {
            assert(sorted.take(p as int).drop_last() =~= sorted.take(p - 1));
            p -= 1;
        }
        order.insert(p, i);
        assert(dv.take(i + 1).drop_last() =~= dv.take(i as int));
        assert(Seq::new(order@.len(), |k: int| dv[order@[k] as int]) =~= sorted.insert(
            p as int,
            dv[i as int],
        ));
        i += 1;
    }
    assert(dv.take(i as int) =~= dv);
    let ghost sorted_all = Seq::new(order@.len(), |k: int| dv[order@[k] as int]);
    let prefix = chars_of("// @fwgsl-adt:");
    proof {
        reveal_strlit("// @fwgsl-adt:");
        assert(prefix@ =~= crate::adt::adt_prefix());
    }
    let option_name = chars_of("Option");
    let result_name = chars_of("Result");
    let pair_name = chars_of("Pair");
    proof {
        reveal_strlit("Option");
        reveal_strlit("Result");
        reveal_strlit("Pair");
    }
    let mut out: Vec<char> = Vec::new();
    let mut j: usize = 0;
    while j < order.len()
        invariant
            j <= order@.len(),
            dv == data_types_view(data_types@),
            forall|k: int| 0 <= k < order@.len() ==> order@[k] < data_types@.len(),
            sorted_all == Seq::new(order@.len(), |k: int| dv[order@[k] as int]),
            prefix@ == crate::adt::adt_prefix(),
            option_name@ == seq!['O', 'p', 't', 'i', 'o', 'n'],
            result_name@ == seq!['R', 'e', 's', 'u', 'l', 't'],
            pair_name@ == seq!['P', 'a', 'i', 'r'],
            out@ == annotation_lines(sorted_all.take(j as int)),
        decreases order@.len() - j,
    {
        let dt = &data_types[order[j]];
        assert(dt@ == sorted_all[j as int]);
        assert(sorted_all.take(j + 1).drop_last() =~= sorted_all.take(j as int));
        let name = chars_of(dt.name.as_str());
        let builtin = crate::text::chars_eq(&name, &option_name) || crate::text::chars_eq(
            &name,
            &result_name,
        ) || crate::text::chars_eq(&name, &pair_name);
        if !builtin {
            let mut entries: Vec<Vec<char>> = Vec::new();
            let mut c: usize = 0;
            while c < dt.constructors.len()
                invariant
                    c <= dt.constructors@.len(),
                    entries.deep_view() == Seq::new(
                        c as nat,
                        |k: int| ctor_entry(dt.constructors@[k]@),
                    ),
                decreases dt.constructors@.len() - c,
            {
                let e = ctor_entry_exec(&dt.constructors[c]);
                let ghost before = entries.deep_view();
                assert(e.deep_view() =~= e@);
                entries.push(e);
                assert(entries.deep_view() =~= before.push(e@));
                assert(entries.deep_view() =~= Seq::new(
                    (c + 1) as nat,
                    |k: int| ctor_entry(dt.constructors@[k]@),
                ));
                c += 1;
            }
            assert(entries.deep_view() =~= Seq::new(
                dt@.1.len(),
                |k: int| ctor_entry(dt@.1[k]),
            ));
            let sorted = sort_entries_exec(entries);
            let ghost sv = sorted.deep_view();
            let mut line: Vec<char> = Vec::new();
            append_chars(&mut line, &prefix);
            line.push(' ');
            append_chars(&mut line, &name);
            line.push(' ');
            let ghost head = line@;
            let mut k: usize = 0;
            while k < sorted.len()
                invariant
                    k <= sorted@.len(),
                    sv == sorted.deep_view(),
                    line@ == head + join_spaced(sv.take(k as int)),
                decreases sorted@.len() - k,
            {
                assert(sorted@[k as int]@ =~= sv[k as int]);
                assert(sv.take(k + 1).drop_last() =~= sv.take(k as int));
                if k > 0 {
                    line.push(' ');
                }
                append_chars(&mut line, &sorted[k]);
                proof {
                    if k == 0 {
                        assert(sv.take(1) =~= seq![sv[0]]);
                        assert(join_spaced(sv.take(0)) =~= Seq::<char>::empty());
                    }
                }
                k += 1;
            }
            assert(sv.take(k as int) =~= sv);
            line.push('\n');
            append_chars(&mut out, &line);
        }
        j += 1;
    }
    assert(sorted_all.take(j as int) =~= sorted_all);
    let body = chars_of(wgsl);
    append_chars(&mut out, &body);
    string_of(&out)
}


/// The compiled fwgsl followed, on a new line, by the raw WGSL section when
/// there is one.
pub open spec fn combined_shader(compiled: Seq<char>, wgsl_section: Seq<char>) -> Seq<char> {
    if wgsl_section.len() == 0 {
        compiled
    } else {
        compiled + seq!['\n'] + wgsl_section
    }
}

/// The shader that a `.fwgsl` file loads as: its compiled fwgsl part and
/// its raw WGSL section.
pub fn combine_compiled_fwgsl(compiled: &str, wgsl_section: &str) -> (r: String)
    ensures
        r@ == combined_shader(compiled@, wgsl_section@),
{
    let w = chars_of(wgsl_section);
    let mut out = chars_of(compiled);
    if w.len() > 0 {
        out.push('\n');
        push_all(&mut out, &w);
    }
    string_of(&out)
}

} // verus!
