//! fwgsl algebraic data types (ADTs) announced in WGSL source by annotation
//! comments of the form
//!
//! ```text
//! // @fwgsl-adt: TypeName Variant0:tag0 Variant1:tag1:StructName1 ...
//! ```
//!
//! * `Variant:tag` is a tag-only variant (no payload);
//! * `Variant:tag:StructName` is a variant whose payload is the WGSL struct
//!   `StructName`.
//!
//! Lines that are not annotations, and annotation entries that do not parse,
//! are skipped.

use vstd::prelude::*;

use crate::options::WgslTypeSerializeStrategy;
use crate::text::{
    chars_of, has_prefix, join_exec, join_with, law_join_split, lemma_next_char, lines, lines_exec,
    matches_at_exec, next_char_exec, parse_u32, parse_u32_exec, path_sep, slice_to_vec, split_exec,
    splitn3, string_of, trim, trim_bounds, words, words_exec,
};

verus! {

/// A single variant of an ADT.
#[derive(Debug, PartialEq, Eq)]
pub struct FwgslAdtVariant {
    /// Variant/constructor name (e.g. `Red`, `Circle`).
    pub name: String,
    /// The `u32` discriminant tag assigned by fwgsl.
    pub tag: u32,
    /// The WGSL struct carrying this variant's payload; `None` for tag-only variants.
    pub struct_name: Option<String>,
}

/// A complete algebraic data type parsed from annotations.
#[derive(Debug, PartialEq, Eq)]
pub struct FwgslAdtType {
    /// The type name (e.g. `Color`, `Shape`).
    pub name: String,
    pub variants: Vec<FwgslAdtVariant>,
}

/// Abstract variant: name, tag and optional payload struct name.
pub type VariantView = (Seq<char>, u32, Option<Seq<char>>);

/// Abstract ADT: name and variants.
pub type AdtView = (Seq<char>, Seq<VariantView>);

pub open spec fn opt_string_view(o: Option<String>) -> Option<Seq<char>> {
    match o {
        Some(s) => Some(s@),
        None => None,
    }
}

impl View for FwgslAdtVariant {
    type V = VariantView;

    open spec fn view(&self) -> VariantView {
        (self.name@, self.tag, opt_string_view(self.struct_name))
    }
}

/// The abstract variants of a list of variants.
pub open spec fn variants_view(vs: Seq<FwgslAdtVariant>) -> Seq<VariantView> {
    Seq::new(vs.len(), |i: int| vs[i]@)
}

impl View for FwgslAdtType {
    type V = AdtView;

    open spec fn view(&self) -> AdtView {
        (self.name@, variants_view(self.variants@))
    }
}

/// The abstract ADTs of a list of ADTs.
pub open spec fn adts_view(v: Seq<FwgslAdtType>) -> Seq<AdtView> {
    Seq::new(v.len(), |i: int| v[i]@)
}

/// The text that starts an annotation line.
pub open spec fn adt_prefix() -> Seq<char> {
    seq!['/', '/', ' ', '@', 'f', 'w', 'g', 's', 'l', '-', 'a', 'd', 't', ':']
}

/// The variant that one `Name:tag[:Struct]` entry describes, if it is well formed.
pub open spec fn variant_of_entry(entry: Seq<char>) -> Option<VariantView> {
    let parts = splitn3(entry, ':');
    if parts.len() < 2 {
        None
    } else {
        match parse_u32(parts[1]) {
            None => None,
            Some(tag) => Some(
                (
                    parts[0],
                    tag,
                    if parts.len() == 3 && parts[2].len() > 0 {
                        Some(parts[2])
                    } else {
                        None
                    },
                ),
            ),
        }
    }
}

/// The ADT that one source line announces, if any: the trimmed line must
/// begin with the annotation prefix and name a type with at least one
/// well-formed variant.
pub open spec fn adt_of_line(line: Seq<char>) -> Option<AdtView> {
    let l = trim(line);
    if !has_prefix(l, adt_prefix()) {
        None
    } else {
        let entries = words(trim(l.skip(adt_prefix().len() as int)));
        if entries.len() == 0 {
            None
        } else {
            let variants = variants_of_entries(entries.drop_first());
            if variants.len() == 0 {
                None
            } else {
                Some((entries[0], variants))
            }
        }
    }
}

/// The well-formed variants among a list of entries, in order.
pub open spec fn variants_of_entries(es: Seq<Seq<char>>) -> Seq<VariantView>
    decreases es.len(),
{
    if es.len() == 0 {
        Seq::empty()
    } else {
        match variant_of_entry(es.last()) {
            Some(v) => variants_of_entries(es.drop_last()).push(v),
            None => variants_of_entries(es.drop_last()),
        }
    }
}

/// The ADTs announced by a list of lines, in order.
pub open spec fn adts_of_lines(ls: Seq<Seq<char>>) -> Seq<AdtView>
    decreases ls.len(),
{
    if ls.len() == 0 {
        Seq::empty()
    } else {
        match adt_of_line(ls.last()) {
            Some(a) => adts_of_lines(ls.drop_last()).push(a),
            None => adts_of_lines(ls.drop_last()),
        }
    }
}

/// All ADTs announced in a WGSL source, in the order of their lines.
pub open spec fn adt_annotations(wgsl: Seq<char>) -> Seq<AdtView> {
    adts_of_lines(lines(wgsl))
}

impl FwgslAdtType {
    /// Whether every variant is tag-only (has no struct payload).
    pub fn is_simple_enum(&self) -> (r: bool)
        ensures
            r == forall|i: int| 0 <= i < self.variants@.len() ==> self.variants@[i].struct_name is None,
    {
        let mut i: usize = 0;
        while i < self.variants.len()
            invariant
                i <= self.variants@.len(),
                forall|j: int| 0 <= j < i ==> self.variants@[j].struct_name is None,
            decreases self.variants@.len() - i,
        {
            if self.variants[i].struct_name.is_some() {
                return false;
            }
            i += 1;
        }
        true
    }

    /// Whether the generated simple enum may implement `bytemuck::Zeroable`:
    /// only with the bytemuck strategy, and only when tag 0 is a valid variant
    /// (so that an all-zero value is a valid discriminant).
    pub fn allows_zeroable(&self, strategy: WgslTypeSerializeStrategy) -> (r: bool)
        ensures
            r == (strategy == WgslTypeSerializeStrategy::Bytemuck && exists|i: int|
                0 <= i < self.variants@.len() && self.variants@[i].tag == 0),
    {
        match strategy {
            WgslTypeSerializeStrategy::Bytemuck => {},
            WgslTypeSerializeStrategy::Encase => {
                return false;
            },
        }
        let mut i: usize = 0;
        while i < self.variants.len()
            invariant
                strategy == WgslTypeSerializeStrategy::Bytemuck,
                i <= self.variants@.len(),
                forall|j: int| 0 <= j < i ==> self.variants@[j].tag != 0,
            decreases self.variants@.len() - i,
        {
            if self.variants[i].tag == 0 {
                assert(self.variants@[i as int].tag == 0);
                return true;
            }
            i += 1;
        }
        false
    }
}

/// Parses one `Name:tag[:Struct]` entry.
pub fn parse_variant_entry(entry: &[char]) -> (r: Option<FwgslAdtVariant>)
    ensures
        match r {
            Some(v) => variant_of_entry(entry@) == Some(v@),
            None => variant_of_entry(entry@) is None,
        },
{
    let ghost parts = splitn3(entry@, ':');
    let i = next_char_exec(entry, ':', 0);
    proof {
        lemma_next_char(entry@, ':', 0);
    }
    if i >= entry.len() {
        return None;
    }
    let j = next_char_exec(entry, ':', i + 1);
    proof {
        lemma_next_char(entry@, ':', i + 1);
        assert(parts[0] =~= entry@.subrange(0, i as int));
        assert(parts[1] =~= entry@.subrange(i + 1, j as int));
        if j < entry@.len() {
            assert(parts[2] =~= entry@.subrange(j + 1, entry@.len() as int));
        }
    }
    let tag = match parse_u32_exec(entry, i + 1, j) {
        Some(t) => t,
        None => {
            return None;
        },
    };
    let name = string_of(&slice_to_vec(entry, 0, i));
    let struct_name = if j < entry.len() && j + 1 < entry.len() {
        Some(string_of(&slice_to_vec(entry, j + 1, entry.len())))
    } else {
        None
    };
    let v = FwgslAdtVariant { name, tag, struct_name };
    Some(v)
}

/// Parses the ADT announced by one line, if any.
pub fn parse_adt_line(line: &[char]) -> (r: Option<FwgslAdtType>)
    ensures
        match r {
            Some(a) => adt_of_line(line@) == Some(a@),
            None => adt_of_line(line@) is None,
        },
{
    let (a, b) = trim_bounds(line, 0, line.len());
    let ghost l = trim(line@);
    assert(line@.subrange(0, line@.len() as int) =~= line@);
    let prefix = chars_of("// @fwgsl-adt:");
    proof {
        reveal_strlit("// @fwgsl-adt:");
        assert(prefix@ =~= adt_prefix());
    }
    if b - a < prefix.len() || !matches_at_exec(line, a, &prefix) {
        proof {
            if has_prefix(l, adt_prefix()) {
                assert(line@.subrange(a as int, a + prefix@.len()) =~= l.take(
                    prefix@.len() as int,
                ));
            }
        }
        return None;
    }
    assert(line@.subrange(a as int, a + prefix@.len()) =~= l.take(prefix@.len() as int));
    let (c, d) = trim_bounds(line, a + prefix.len(), b);
    assert(line@.subrange(a + prefix@.len(), b as int) =~= l.skip(prefix@.len() as int));
    let rest = slice_to_vec(line, c, d);
    let entries = words_exec(&rest);
    if entries.len() == 0 {
        return None;
    }
    let ghost es = entries.deep_view();
    let mut variants: Vec<FwgslAdtVariant> = Vec::new();
    let mut k: usize = 1;
    while k < entries.len()
        invariant
            1 <= k <= entries@.len(),
            es == entries.deep_view(),
            es.len() == entries@.len(),
            variants_view(variants@) == variants_of_entries(es.drop_first().take(k - 1)),
        decreases entries@.len() - k,
    {
        let ghost before = variants_view(variants@);
        assert(es.drop_first().take(k as int).drop_last() =~= es.drop_first().take(k - 1));
        assert(es.drop_first().take(k as int).last() == es[k as int]);
        assert(entries@[k as int]@ =~= es[k as int]);
        match parse_variant_entry(&entries[k]) {
            Some(v) => {
                variants.push(v);
                assert(variants_view(variants@) =~= before.push(v@));
            },
            None => {},
        }
        k += 1;
    }
    assert(es.drop_first().take(k - 1) =~= es.drop_first());
    if variants.len() == 0 {
        return None;
    }
    assert(entries@[0]@ =~= es[0]);
    let name = string_of(&entries[0]);
    Some(FwgslAdtType { name, variants })
}

/// Parses every `// @fwgsl-adt:` annotation line of a WGSL source.
///
/// Lines that do not start with the annotation prefix are ignored, and so
/// are malformed annotations and malformed variant entries.
pub fn parse_fwgsl_adt_annotations(wgsl: &str) -> (adts: Vec<FwgslAdtType>)
    ensures
        adts_view(adts@) == adt_annotations(wgsl@),
{
    let text = chars_of(wgsl);
    let ls = lines_exec(&text);
    let ghost lv = ls.deep_view();
    let mut adts: Vec<FwgslAdtType> = Vec::new();
    let mut k: usize = 0;
    while k < ls.len()
        invariant
            k <= ls@.len(),
            lv == ls.deep_view(),
            lv.len() == ls@.len(),
            adts_view(adts@) == adts_of_lines(lv.take(k as int)),
        decreases ls@.len() - k,
    {
        let ghost before = adts_view(adts@);
        assert(lv.take(k + 1).drop_last() =~= lv.take(k as int));
        assert(ls@[k as int]@ =~= lv[k as int]);
        match parse_adt_line(&ls[k]) {
            Some(a) => {
                adts.push(a);
                assert(adts_view(adts@) =~= before.push(a@));
            },
            None => {},
        }
        k += 1;
    }
    assert(lv.take(k as int) =~= lv);
    adts
}

/// The ADTs of `adts` whose names are neither in `seen` nor taken by an
/// earlier ADT of the list, in order.
pub open spec fn unseen_adts(adts: Seq<AdtView>, seen: Seq<Seq<char>>) -> Seq<AdtView>
    decreases adts.len(),
{
    if adts.len() == 0 {
        Seq::empty()
    } else {
        let rest = unseen_adts(adts.drop_last(), seen);
        if (seen + adt_names(rest)).contains(adts.last().0) {
            rest
        } else {
            rest.push(adts.last())
        }
    }
}

/// The names of a list of ADTs.
pub open spec fn adt_names(adts: Seq<AdtView>) -> Seq<Seq<char>> {
    Seq::new(adts.len(), |i: int| adts[i].0)
}

/// Keeps the ADTs whose names are not yet in `seen_names`, recording each
/// kept name, so that an ADT shared by several shader entries is emitted
/// once.
pub fn select_unseen_adts(adts: &[FwgslAdtType], seen_names: &mut Vec<String>) -> (kept: Vec<
    FwgslAdtType,
>)
    ensures
        adts_view(kept@) == unseen_adts(adts_view(adts@), names_view(old(seen_names)@)),
        names_view(final(seen_names)@) == names_view(old(seen_names)@) + adt_names(
            adts_view(kept@),
        ),
{
    let ghost seen0 = names_view(seen_names@);
    let ghost av = adts_view(adts@);
    let mut kept: Vec<FwgslAdtType> = Vec::new();
    let mut i: usize = 0;
    while i < adts.len()
        invariant
            i <= adts@.len(),
            seen0 == names_view(old(seen_names)@),
            av == adts_view(adts@),
            adts_view(kept@) == unseen_adts(av.take(i as int), seen0),
            names_view(seen_names@) == seen0 + adt_names(adts_view(kept@)),
        decreases adts@.len() - i,
    {
        let ghost before = adts_view(kept@);
        assert(av.take(i + 1).drop_last() =~= av.take(i as int));
        assert(av.take(i + 1).last() == adts@[i as int]@);
        let ghost names_before = names_view(seen_names@);
        let present = contains_string(seen_names, &adts[i].name);
        if !present {
            let name = adts[i].name.clone();
            seen_names.push(name);
            assert(names_view(seen_names@) =~= names_before.push(adts@[i as int].name@));
            let a = adts[i].clone();
            assert(a@ == adts@[i as int]@);
            kept.push(a);
            assert(adts_view(kept@) =~= before.push(adts@[i as int]@));
            assert(adt_names(before.push(adts@[i as int]@)) =~= adt_names(before).push(
                adts@[i as int].name@,
            ));
            assert(names_view(seen_names@) =~= seen0 + adt_names(adts_view(kept@)));
        }
        i += 1;
    }
    assert(av.take(i as int) =~= av);
    kept
}

impl Clone for FwgslAdtVariant {
    fn clone(&self) -> (r: Self)
        ensures
            r@ == self@,
    {
        let struct_name = match &self.struct_name {
            Some(s) => Some(s.clone()),
            None => None,
        };
        FwgslAdtVariant { name: self.name.clone(), tag: self.tag, struct_name }
    }
}

impl Clone for FwgslAdtType {
    fn clone(&self) -> (r: Self)
        ensures
            r@ == self@,
    {
        let mut variants: Vec<FwgslAdtVariant> = Vec::new();
        let mut i: usize = 0;
        while i < self.variants.len()
            invariant
                i <= self.variants@.len(),
                variants_view(variants@) == variants_view(self.variants@).take(i as int),
            decreases self.variants@.len() - i,
        {
            let v = self.variants[i].clone();
            assert(v@ == self.variants@[i as int]@);
            let ghost before = variants_view(variants@);
            variants.push(v);
            assert(variants_view(variants@) =~= before.push(v@));
            assert(variants_view(variants@) =~= variants_view(self.variants@).take(i + 1));
            i += 1;
        }
        assert(variants_view(self.variants@).take(i as int) =~= variants_view(self.variants@));
        FwgslAdtType { name: self.name.clone(), variants }
    }
}

/// The abstract contents of a list of strings.
pub open spec fn names_view(v: Seq<String>) -> Seq<Seq<char>> {
    Seq::new(v.len(), |i: int| v[i]@)
}

/// Whether a list of strings holds `s`.
pub fn contains_string(v: &Vec<String>, s: &String) -> (r: bool)
    ensures
        r == names_view(v@).contains(s@),
{
    let mut i: usize = 0;
    while i < v.len()
        invariant
            i <= v@.len(),
            forall|k: int| 0 <= k < i ==> v@[k]@ != s@,
        decreases v@.len() - i,
    {
        if v[i] == *s {
            assert(names_view(v@)[i as int] == s@);
            return true;
        }
        i += 1;
    }
    proof {
        if names_view(v@).contains(s@) {
            let w = choose|w: int| 0 <= w < names_view(v@).len() && names_view(v@)[w] == s@;
            assert(v@[w]@ == s@);
        }
    }
    false
}


/// The Rust path of a payload struct from the module that holds it: the
/// struct name alone without a module, otherwise the module path and the
/// struct name joined by `::`.
pub fn qualified_struct_path(module_name: &str, struct_name: &str) -> (r: String)
    ensures
        r@ == if module_name@.len() == 0 {
            struct_name@
        } else {
            module_name@ + path_sep() + struct_name@
        },
{
    let mc = chars_of(module_name);
    if mc.len() == 0 {
        return string_of(&chars_of(struct_name));
    }
    let sep = chars_of("::");
    proof {
        reveal_strlit("::");
        assert(sep@ =~= path_sep());
    }
    let mut parts = split_exec(&mc, &sep);
    let ghost before = parts.deep_view();
    let sc = chars_of(struct_name);
    parts.push(sc);
    assert(parts.deep_view()[before.len() as int] =~= parts@[before.len() as int]@);
    assert(parts.deep_view() =~= before.push(struct_name@));
    let joined = join_exec(&parts, &sep);
    proof {
        law_join_split(module_name@, path_sep());
        assert(before.len() >= 1) by {
            assert(join_with(before, path_sep()) == module_name@);
            if before.len() == 0 {
                assert(module_name@.len() == 0);
            }
        }
        assert(join_with(before.push(struct_name@), path_sep()) == join_with(before, path_sep())
            + path_sep() + struct_name@) by {
            assert(before.push(struct_name@).drop_last() =~= before);
        }
    }
    string_of(&joined)
}

/// Each ADT is emitted at most once: what `select_unseen_adts` keeps has
/// no name from the names already seen, and no two kept ADTs share a name.
pub proof fn law_selected_adts_are_new(adts: Seq<AdtView>, seen: Seq<Seq<char>>)
    ensures
        forall|i: int|
            0 <= i < unseen_adts(adts, seen).len() ==> !seen.contains(
                #[trigger] unseen_adts(adts, seen)[i].0,
            ),
        forall|i: int, j: int|
            0 <= i < j < unseen_adts(adts, seen).len() ==> #[trigger] unseen_adts(adts, seen)[i].0
                != #[trigger] unseen_adts(adts, seen)[j].0,
    decreases adts.len(),
{
    if adts.len() > 0 {
        let rest = unseen_adts(adts.drop_last(), seen);
        law_selected_adts_are_new(adts.drop_last(), seen);
        let last = adts.last();
        if !(seen + adt_names(rest)).contains(last.0) {
            let r = rest.push(last);
            assert(r == unseen_adts(adts, seen));
            assert forall|i: int| 0 <= i < r.len() implies !seen.contains(#[trigger] r[i].0) by {
                if i == rest.len() {
                    if seen.contains(last.0) {
                        let k = choose|k: int| 0 <= k < seen.len() && seen[k] == last.0;
                        assert((seen + adt_names(rest))[k] == last.0);
                    }
                }
            }
            assert forall|i: int, j: int| 0 <= i < j < r.len() implies #[trigger] r[i].0
                != #[trigger] r[j].0 by {
                if j == rest.len() {
                    assert((seen + adt_names(rest))[seen.len() + i] == rest[i].0);
                }
            }
        }
    }
}

} // verus!
