//! The insertion-ordered collections of `indexmap` that the library fills,
//! with the operations it uses on them.
//!
//! Each collection's contents are named by a spec function; each operation
//! states, over that name, what `indexmap`'s source shows it does.

use vstd::prelude::*;

use fxhash::FxBuildHasher;
use indexmap::{IndexMap, IndexSet};

use crate::types::{ImportPathPart, SourceFilePath, SourceModuleName};

verus! {

#[verifier::external_type_specification]
#[verifier::external_body]
#[verifier::reject_recursive_types(T)]
#[verifier::reject_recursive_types(S)]
pub struct ExIndexSet<T, S>(IndexSet<T, S>);

#[verifier::external_type_specification]
#[verifier::external_body]
#[verifier::reject_recursive_types(K)]
#[verifier::reject_recursive_types(V)]
#[verifier::reject_recursive_types(S)]
pub struct ExIndexMap<K, V, S>(IndexMap<K, V, S>);

#[verifier::external_type_specification]
#[verifier::external_body]
pub struct ExFxHasher(fxhash::FxHasher);

#[verifier::external_type_specification]
#[verifier::external_body]
#[verifier::reject_recursive_types(H)]
pub struct ExBuildHasherDefault<H>(std::hash::BuildHasherDefault<H>);

/// A set of import path parts, in insertion order.
pub type ImportPathPartSet = IndexSet<ImportPathPart, FxBuildHasher>;

/// A set of (module name, source path) candidates, in insertion order.
pub type ResolvedPathSet = IndexSet<(SourceModuleName, SourceFilePath), FxBuildHasher>;

/// A set of source file paths, in insertion order.
pub type SourcePathSet = IndexSet<SourceFilePath, FxBuildHasher>;

/// A map from imported items to the module paths they may come from, in
/// insertion order.
pub type ImportPathMap = IndexMap<String, Vec<String>, std::hash::RandomState>;

/// The parts that a part set holds, in insertion order.
pub uninterp spec fn part_set_items(s: ImportPathPartSet) -> Seq<Seq<char>>;

/// The candidates that a resolved-path set holds, in insertion order.
pub uninterp spec fn resolved_set_items(s: ResolvedPathSet) -> Seq<(Seq<char>, Seq<char>)>;

/// The paths that a source path set holds, in insertion order.
pub uninterp spec fn source_set_items(s: SourcePathSet) -> Seq<Seq<char>>;

/// The entries of an import path map, in insertion order: each key with
/// its module paths.
pub uninterp spec fn import_map_entries(m: ImportPathMap) -> Seq<(Seq<char>, Seq<Seq<char>>)>;

/// The abstract module paths of a list of strings.
pub open spec fn string_list_view(v: Seq<String>) -> Seq<Seq<char>> {
    Seq::new(v.len(), |i: int| v[i]@)
}

/// `IndexSet::default()`: an empty part set.
#[verifier::external_body]
pub(crate) fn part_set_new() -> (s: ImportPathPartSet)
    ensures
        part_set_items(s) == Seq::<Seq<char>>::empty(),
{
    IndexSet::default()
}

/// `IndexSet::insert`: when an equal part is already in the set, the set is
/// unchanged and the result is `false`; otherwise the part is appended and
/// the result is `true`. (Equality of parts is equality of their texts.)
#[verifier::external_body]
pub(crate) fn part_set_insert(s: &mut ImportPathPartSet, part: ImportPathPart) -> (added: bool)
    ensures
        added == !part_set_items(*old(s)).contains(part@),
        added ==> part_set_items(*final(s)) == part_set_items(*old(s)).push(part@),
        !added ==> part_set_items(*final(s)) == part_set_items(*old(s)),
{
    s.insert(part)
}

/// `IndexSet::default()`: an empty resolved-path set.
#[verifier::external_body]
pub(crate) fn resolved_set_new() -> (s: ResolvedPathSet)
    ensures
        resolved_set_items(s) == Seq::<(Seq<char>, Seq<char>)>::empty(),
{
    IndexSet::default()
}

/// `IndexSet::insert`: when an equal candidate is already in the set, the
/// set is unchanged and the result is `false`; otherwise the candidate is
/// appended and the result is `true`. (Equality is equality of both texts.)
#[verifier::external_body]
pub(crate) fn resolved_set_insert(
    s: &mut ResolvedPathSet,
    item: (SourceModuleName, SourceFilePath),
) -> (added: bool)
    ensures
        added == !resolved_set_items(*old(s)).contains((item.0@, item.1@)),
        added ==> resolved_set_items(*final(s)) == resolved_set_items(*old(s)).push(
            (item.0@, item.1@),
        ),
        !added ==> resolved_set_items(*final(s)) == resolved_set_items(*old(s)),
{
    s.insert(item)
}

/// `IndexMap::default()`: an empty import path map.
#[verifier::external_body]
pub(crate) fn import_map_new() -> (m: ImportPathMap)
    ensures
        import_map_entries(m) == Seq::<(Seq<char>, Seq<Seq<char>>)>::empty(),
{
    IndexMap::default()
}

/// The keys of an import path map's entries, in order.
pub open spec fn import_map_keys(e: Seq<(Seq<char>, Seq<Seq<char>>)>) -> Seq<Seq<char>> {
    Seq::new(e.len(), |i: int| e[i].0)
}

/// `IndexMap::insert`: a new key's entry is appended; an existing key keeps
/// its place and gets the new value.
#[verifier::external_body]
pub(crate) fn import_map_insert(m: &mut ImportPathMap, key: String, paths: Vec<String>)
    ensures
        !import_map_keys(import_map_entries(*old(m))).contains(key@) ==> import_map_entries(
            *final(m),
        ) == import_map_entries(*old(m)).push((key@, string_list_view(paths@))),
        import_map_keys(import_map_entries(*old(m))).contains(key@) ==> {
            &&& import_map_entries(*final(m)).len() == import_map_entries(*old(m)).len()
            &&& forall|j: int|
                0 <= j < import_map_entries(*old(m)).len() ==> #[trigger] import_map_entries(
                    *final(m),
                )[j] == if import_map_entries(*old(m))[j].0 == key@ {
                    (key@, string_list_view(paths@))
                } else {
                    import_map_entries(*old(m))[j]
                }
        },
{
    m.insert(key, paths);
}

/// `IndexMap::values`, with each value copied out, in insertion order.
#[verifier::external_body]
pub(crate) fn import_map_values(m: &ImportPathMap) -> (v: Vec<Vec<String>>)
    ensures
        v@.len() == import_map_entries(*m).len(),
        forall|i: int|
            0 <= i < v@.len() ==> string_list_view(#[trigger] v@[i]@) == import_map_entries(*m)[i].1,
{
    m.values().cloned().collect()
}


/// `IndexSet::default()`: an empty source path set.
#[verifier::external_body]
pub(crate) fn source_set_new() -> (s: SourcePathSet)
    ensures
        source_set_items(s) == Seq::<Seq<char>>::empty(),
{
    IndexSet::default()
}

/// `IndexSet::insert`: when an equal path is already in the set, the set is
/// unchanged and the result is `false`; otherwise the path is appended and
/// the result is `true`. (Equality of paths is equality of their texts.)
#[verifier::external_body]
pub(crate) fn source_set_insert(s: &mut SourcePathSet, path: SourceFilePath) -> (added: bool)
    ensures
        added == !source_set_items(*old(s)).contains(path@),
        added ==> source_set_items(*final(s)) == source_set_items(*old(s)).push(path@),
        !added ==> source_set_items(*final(s)) == source_set_items(*old(s)),
{
    s.insert(path)
}

/// `IndexSet::iter`, with each path copied out, in insertion order.
#[verifier::external_body]
pub(crate) fn source_set_to_vec(s: &SourcePathSet) -> (v: Vec<SourceFilePath>)
    ensures
        Seq::new(v@.len(), |i: int| v@[i]@) == source_set_items(*s),
{
    s.iter().cloned().collect()
}

} // verus!
