//! A shader source file: its text with line endings normalized, its import
//! statements and the files it depends on directly.

use vstd::prelude::*;
use vstd::utf8::{encode_scalar, encode_utf8};

use crate::collections::{
    import_map_entries, import_map_values, part_set_insert, part_set_items, part_set_new,
    source_set_insert, source_set_items, source_set_new, string_list_view, ImportPathPartSet,
    SourcePathSet,
};
use crate::parse_imports::{
    distinct_paths, flatten_paths, get_import_statements, import_statement_view,
    import_statements_from, lemma_distinct_paths_push, lemma_encode_concat, single_entry,
    ImportStatement, ImportView,
};
use crate::text::{chars_of, has_prefix, replace_all, replace_exec, string_of};
use crate::types::{ImportPathPart, SourceFilePath, SourceModuleName};

verus! {

/// The text with `\r\n` and then every remaining `\r` made `\n`.
pub open spec fn normalized_line_endings(s: Seq<char>) -> Seq<char> {
    replace_all(replace_all(s, seq!['\r', '\n'], seq!['\n']), seq!['\r'], seq!['\n'])
}

proof fn lemma_replace_encode(s: Seq<char>, from: Seq<char>, to: Seq<char>)
    requires
        from.len() > 0,
        encode_utf8(to).len() <= encode_utf8(from).len(),
    ensures
        encode_utf8(replace_all(s, from, to)).len() <= encode_utf8(s).len(),
    decreases s.len(),
{
    if s.len() == 0 {
    } else if has_prefix(s, from) {
        let rest = s.skip(from.len() as int);
        lemma_replace_encode(rest, from, to);
        assert(s =~= from + rest);
        lemma_encode_concat(from, rest);
        lemma_encode_concat(to, replace_all(rest, from, to));
    } else {
        let rest = s.drop_first();
        lemma_replace_encode(rest, from, to);
        assert(s =~= seq![s[0]] + rest);
        lemma_encode_concat(seq![s[0]], rest);
        lemma_encode_concat(seq![s[0]], replace_all(rest, from, to));
    }
}

proof fn lemma_normalized_encode(s: Seq<char>)
    ensures
        encode_utf8(normalized_line_endings(s)).len() <= encode_utf8(s).len(),
{
    let crlf = seq!['\r', '\n'];
    let cr = seq!['\r'];
    let lf = seq!['\n'];
    assert(lf.drop_first() =~= Seq::<char>::empty());
    assert(cr.drop_first() =~= Seq::<char>::empty());
    assert(crlf.drop_first() =~= lf);
    assert(('\n' as u32) == 10 && ('\r' as u32) == 13);
    assert(encode_utf8(Seq::<char>::empty()).len() == 0);
    assert(encode_scalar(10u32).len() == 1);
    assert(encode_scalar(13u32).len() == 1);
    assert(encode_utf8(lf) == encode_scalar(lf[0] as u32) + encode_utf8(lf.drop_first()));
    assert(encode_utf8(cr) == encode_scalar(cr[0] as u32) + encode_utf8(cr.drop_first()));
    assert(encode_utf8(crlf) == encode_scalar(crlf[0] as u32) + encode_utf8(crlf.drop_first()));
    assert(encode_utf8(lf).len() == 1);
    assert(encode_utf8(cr).len() == 1);
    assert(encode_utf8(crlf).len() == 2);
    lemma_replace_encode(s, crlf, lf);
    lemma_replace_encode(replace_all(s, crlf, lf), cr, lf);
}

/// A shader source file.
pub struct SourceFile {
    pub file_path: SourceFilePath,
    pub module_name: Option<SourceModuleName>,
    /// The text, with line endings normalized to `\n`.
    pub content: String,
    /// The import statements of the text.
    pub imports: Vec<ImportStatement>,
    /// The files that the imports resolved to, each once, in order.
    pub direct_dependencies: SourcePathSet,
}

/// The abstract values of a list of import statements.
pub open spec fn imports_view(v: Seq<ImportStatement>) -> Seq<ImportView> {
    Seq::new(v.len(), |i: int| import_statement_view(v[i]))
}

/// All module paths of the import statements, in order.
pub open spec fn imports_paths(v: Seq<ImportStatement>) -> Seq<Seq<char>>
    decreases v.len(),
{
    if v.len() == 0 {
        Seq::empty()
    } else {
        imports_paths(v.drop_last()) + flatten_paths(import_map_entries(v.last().item_to_import_paths))
    }
}

impl SourceFile {
    /// A source file from its text: line endings are normalized to `\n` and
    /// the import statements are collected; it has no dependency yet.
    pub fn create(file_path: SourceFilePath, module_name: Option<SourceModuleName>, content: String) -> (r: Self)
        requires
            encode_utf8(content@).len() < usize::MAX,
        ensures
            r.file_path@ == file_path@,
            r.module_name == module_name,
            r.content@ == normalized_line_endings(content@),
            imports_view(r.imports@) == import_statements_from(normalized_line_endings(content@), 0),
            forall|i: int| 0 <= i < r.imports@.len() ==> single_entry(#[trigger] r.imports@[i]),
            source_set_items(r.direct_dependencies) == Seq::<Seq<char>>::empty(),
    {
        let crlf = chars_of("\r\n");
        let cr = chars_of("\r");
        let lf = chars_of("\n");
        proof {
            reveal_strlit("\r\n");
            reveal_strlit("\r");
            reveal_strlit("\n");
            assert(crlf@ =~= seq!['\r', '\n']);
            assert(cr@ =~= seq!['\r']);
            assert(lf@ =~= seq!['\n']);
        }
        let step = replace_exec(&chars_of(content.as_str()), &crlf, &lf);
        let normalized = string_of(&replace_exec(&step, &cr, &lf));
        proof {
            lemma_normalized_encode(content@);
        }
        let imports = get_import_statements(normalized.as_str());
        let r = SourceFile {
            file_path,
            module_name,
            content: normalized,
            imports,
            direct_dependencies: source_set_new(),
        };
        assert(imports_view(r.imports@) =~= Seq::new(
            imports@.len(),
            |i: int| import_statement_view(imports@[i]),
        ));
        r
    }

    /// Records a file that an import resolved to; a file already recorded
    /// keeps its place.
    pub fn add_direct_dependency(&mut self, dependency: SourceFilePath)
        ensures
            final(self).file_path == old(self).file_path,
            final(self).module_name == old(self).module_name,
            final(self).content == old(self).content,
            final(self).imports == old(self).imports,
            source_set_items(final(self).direct_dependencies) == if source_set_items(
                old(self).direct_dependencies,
            ).contains(dependency@) {
                source_set_items(old(self).direct_dependencies)
            } else {
                source_set_items(old(self).direct_dependencies).push(dependency@)
            },
    {
        source_set_insert(&mut self.direct_dependencies, dependency);
    }

    /// The module paths of all import statements, each once, in order.
    pub fn get_import_path_parts(&self) -> (parts: ImportPathPartSet)
        ensures
            part_set_items(parts) == distinct_paths(imports_paths(self.imports@), Seq::empty()),
    {
        let mut parts = part_set_new();
        let mut i: usize = 0;
        assert(self.imports@.take(0) =~= Seq::<ImportStatement>::empty());
        while i < self.imports.len()
            invariant
                i <= self.imports@.len(),
                part_set_items(parts) == distinct_paths(
                    imports_paths(self.imports@.take(i as int)),
                    Seq::empty(),
                ),
            decreases self.imports@.len() - i,
        {
            let ghost before = imports_paths(self.imports@.take(i as int));
            assert(self.imports@.take(i + 1).drop_last() =~= self.imports@.take(i as int));
            let values = import_map_values(&self.imports[i].item_to_import_paths);
            let ghost entries = import_map_entries(self.imports@[i as int].item_to_import_paths);
            let mut k: usize = 0;
            assert(entries.take(0) =~= Seq::<(Seq<char>, Seq<Seq<char>>)>::empty());
            assert(before + flatten_paths(entries.take(0)) =~= before);
            while k < values.len()
                invariant
                    k <= values@.len(),
                    values@.len() == entries.len(),
                    forall|q: int|
                        0 <= q < values@.len() ==> string_list_view(#[trigger] values@[q]@)
                            == entries[q].1,
                    part_set_items(parts) == distinct_paths(
                        before + flatten_paths(entries.take(k as int)),
                        Seq::empty(),
                    ),
                decreases values@.len() - k,
            {
                let ghost b2 = before + flatten_paths(entries.take(k as int));
                assert(entries.take(k + 1).drop_last() =~= entries.take(k as int));
                let list = &values[k];
                let mut j: usize = 0;
                assert(b2 + entries[k as int].1.take(0) =~= b2);
                while j < list.len()
                    invariant
                        j <= list@.len(),
                        string_list_view(list@) == entries[k as int].1,
                        part_set_items(parts) == distinct_paths(
                            b2 + entries[k as int].1.take(j as int),
                            Seq::empty(),
                        ),
                    decreases list@.len() - j,
                {
                    let ghost seen = b2 + entries[k as int].1.take(j as int);
                    assert(b2 + entries[k as int].1.take(j + 1) =~= seen.push(list@[j as int]@));
                    proof {
                        lemma_distinct_paths_push(seen, list@[j as int]@);
                    }
                    let part = ImportPathPart::new(list[j].as_str());
                    part_set_insert(&mut parts, part);
                    j += 1;
                }
                assert(entries[k as int].1.take(j as int) =~= entries[k as int].1);
                assert(before + flatten_paths(entries.take(k + 1)) =~= b2 + entries[k as int].1);
                k += 1;
            }
            assert(entries.take(k as int) =~= entries);
            assert(imports_paths(self.imports@.take(i + 1)) =~= before + flatten_paths(entries));
            i += 1;
        }
        assert(self.imports@.take(i as int) =~= self.imports@);
        parts
    }
}

} // verus!
