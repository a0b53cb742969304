//! Resolution of import paths to candidate shader source files.
//!
//! An import `a::b::c` may name the file `a.wgsl`, `a/b.wgsl` or
//! `a/b/c.wgsl` (the rest naming items inside), below the entry directory,
//! the importing file's directory, or an additional scan directory. The
//! resolver lists the candidates, longest first, each once.

use vstd::prelude::*;

use crate::collections::{resolved_set_insert, resolved_set_items, resolved_set_new, ResolvedPathSet};
use crate::name_demangle::{escape_os_path, without_quotes};
use crate::options::AdditionalScanDirectory;
use crate::paths::{
    path_ends_with, path_eq, path_has_no_extension, path_parent, path_push, path_set_extension,
    std_ends_with, std_has_no_extension, std_parent, std_path_eq, std_push, std_set_extension,
};
use crate::text::{chars_of, join_exec, join_with, path_sep, split_exec, split_on, string_of};
use crate::types::{ImportPathPart, SourceFileDir, SourceFilePath, SourceModuleName};

verus! {

/// Resolves the module paths of import statements to source files.
pub struct ModulePathResolver {
    /// The module prefix under which entry shaders are imported.
    pub entry_module_prefix: Option<String>,
    /// Further directories to look for imported files in.
    pub additional_scan_dirs: Vec<AdditionalScanDirectory>,
}

/// The path that an import names.
pub type ImportedPath = ImportPathPart;

/// The abstract form of an optional string.
pub open spec fn opt_view(o: Option<String>) -> Option<Seq<char>> {
    match o {
        Some(s) => Some(s@),
        None => None,
    }
}

/// The extension given to module files without one.
pub open spec fn wgsl_extension() -> Seq<char> {
    seq!['w', 'g', 's', 'l']
}

/// Walks the fragments below `root`: each fragment (quotes removed) that
/// the path does not already end with is pushed onto the path and recorded.
/// Gives the path and the recorded fragments.
pub open spec fn walk_fragments(root: Seq<char>, frags: Seq<Seq<char>>) -> (Seq<char>, Seq<Seq<char>>)
    decreases frags.len(),
{
    if frags.len() == 0 {
        (root, Seq::empty())
    } else {
        let (p, names) = walk_fragments(root, frags.drop_last());
        let n = without_quotes(frags.last());
        if std_ends_with(p, n) {
            (p, names)
        } else {
            (std_push(p, n), names.push(frags.last()))
        }
    }
}

/// The module name of recorded fragments: the prefix, if any, then the
/// fragments, joined by `::`.
pub open spec fn prefixed_module_name(prefix: Option<Seq<char>>, names: Seq<Seq<char>>) -> Seq<char> {
    match prefix {
        Some(p) => join_with(seq![p] + names, path_sep()),
        None => join_with(names, path_sep()),
    }
}

/// The candidate that the fragments name below `root`: the module name and
/// the file path (with the `wgsl` extension when it has none); `None` when
/// every fragment was already at the end of the path.
pub open spec fn candidate_for(prefix: Option<Seq<char>>, root: Seq<char>, frags: Seq<Seq<char>>) -> Option<
    (Seq<char>, Seq<char>),
> {
    let (p, names) = walk_fragments(root, frags);
    let path = if std_has_no_extension(p) {
        std_set_extension(p, wgsl_extension())
    } else {
        p
    };
    if names.len() == 0 {
        None
    } else {
        Some((prefixed_module_name(prefix, names), path))
    }
}

/// The candidate for the first `k` import parts, unless it is the
/// importing file itself.
pub open spec fn candidate_at(
    prefix: Option<Seq<char>>,
    parts: Seq<Seq<char>>,
    dir: Seq<char>,
    current: Seq<char>,
    k: int,
) -> Seq<(Seq<char>, Seq<char>)> {
    match candidate_for(prefix, dir, parts.take(k)) {
        Some(c) => if std_path_eq(c.1, current) {
            Seq::empty()
        } else {
            seq![c]
        },
        None => Seq::empty(),
    }
}

/// The candidates for the first `hi`, `hi - 1`, ..., `lo + 1` import parts,
/// in that order.
pub open spec fn candidates_between(
    prefix: Option<Seq<char>>,
    parts: Seq<Seq<char>>,
    dir: Seq<char>,
    current: Seq<char>,
    hi: int,
    lo: int,
) -> Seq<(Seq<char>, Seq<char>)>
    decreases hi - lo,
{
    if hi <= lo {
        Seq::empty()
    } else {
        candidates_between(prefix, parts, dir, current, hi, lo + 1) + candidate_at(
            prefix,
            parts,
            dir,
            current,
            lo + 1,
        )
    }
}

/// The candidates below one directory, longest import prefix first.
pub open spec fn dir_candidates(
    prefix: Option<Seq<char>>,
    parts: Seq<Seq<char>>,
    dir: Seq<char>,
    current: Seq<char>,
) -> Seq<(Seq<char>, Seq<char>)> {
    candidates_between(prefix, parts, dir, current, parts.len() as int, 0)
}

/// The non-empty texts of `v`, in order.
pub open spec fn nonempty_parts(v: Seq<Seq<char>>) -> Seq<Seq<char>>
    decreases v.len(),
{
    if v.len() == 0 {
        Seq::empty()
    } else if v.last().len() > 0 {
        nonempty_parts(v.drop_last()).push(v.last())
    } else {
        nonempty_parts(v.drop_last())
    }
}

/// The parts of an import path: split at `::`, without a first part equal
/// to the entry module prefix, and without empty parts.
pub open spec fn import_parts(imported: Seq<char>, prefix: Option<Seq<char>>) -> Seq<Seq<char>> {
    let all = split_on(imported, path_sep());
    let rest = if all.len() > 0 && prefix == Some(all[0]) {
        all.drop_first()
    } else {
        all
    };
    nonempty_parts(rest)
}

/// The candidates from a list of (import root, directory) scan directories,
/// in order.
pub open spec fn scan_candidates(
    scans: Seq<(Option<Seq<char>>, Seq<char>)>,
    parts: Seq<Seq<char>>,
    current: Seq<char>,
) -> Seq<(Seq<char>, Seq<char>)>
    decreases scans.len(),
{
    if scans.len() == 0 {
        Seq::empty()
    } else {
        scan_candidates(scans.drop_last(), parts, current) + dir_candidates(
            scans.last().0,
            parts,
            scans.last().1,
            current,
        )
    }
}

/// What inserting the items of `xs` one by one into an insertion-ordered
/// set holding `s` leaves in it: each item not yet present is appended.
pub open spec fn insert_all<T>(s: Seq<T>, xs: Seq<T>) -> Seq<T>
    decreases xs.len(),
{
    if xs.len() == 0 {
        s
    } else {
        let t = insert_all(s, xs.drop_last());
        if t.contains(xs.last()) {
            t
        } else {
            t.push(xs.last())
        }
    }
}

pub proof fn lemma_insert_all_concat<T>(s: Seq<T>, a: Seq<T>, b: Seq<T>)
    ensures
        insert_all(s, a + b) == insert_all(insert_all(s, a), b),
    decreases b.len(),
{
    if b.len() == 0 {
        assert(a + b =~= a);
    } else {
        assert((a + b).drop_last() =~= a + b.drop_last());
        lemma_insert_all_concat(s, a, b.drop_last());
    }
}

/// The abstract scan directories of a resolver.
pub open spec fn scans_view(v: Seq<AdditionalScanDirectory>) -> Seq<(Option<Seq<char>>, Seq<char>)> {
    Seq::new(v.len(), |i: int| (opt_view(v[i].module_import_root), v[i].directory@))
}

/// All candidates for an import, in order: below the entry directory, below
/// the importing file's directory, then below each scan directory.
pub open spec fn all_candidates(
    prefix: Option<Seq<char>>,
    scans: Seq<(Option<Seq<char>>, Seq<char>)>,
    entry_dir: Seq<char>,
    imported: Seq<char>,
    source: Seq<char>,
) -> Seq<(Seq<char>, Seq<char>)> {
    let parts = import_parts(imported, prefix);
    let source_dir = match std_parent(source) {
        Some(d) => d,
        None => Seq::empty(),
    };
    dir_candidates(prefix, parts, entry_dir, source) + dir_candidates(
        prefix,
        parts,
        source_dir,
        source,
    ) + scan_candidates(scans, parts, source)
}

impl Default for ModulePathResolver {
    /// A resolver with no entry module prefix and no additional scan
    /// directories: the one that `new(None, vec![])` makes.
    fn default() -> (r: Self)
        ensures
            r.entry_module_prefix is None,
            r.additional_scan_dirs@ == Seq::<AdditionalScanDirectory>::empty(),
    {
        ModulePathResolver::new(None, Vec::new())
    }
}

impl ModulePathResolver {
    /// A resolver with an entry module prefix and additional scan directories.
    pub fn new(
        entry_module_prefix: Option<String>,
        additional_scan_dirs: Vec<AdditionalScanDirectory>,
    ) -> (r: Self)
        ensures
            r.entry_module_prefix == entry_module_prefix,
            r.additional_scan_dirs == additional_scan_dirs,
    {
        ModulePathResolver { entry_module_prefix, additional_scan_dirs }
    }

    /// The candidate module name and file that `fragments` name below
    /// `root_dir`, if any.
    pub fn create_path(
        module_prefix: &Option<String>,
        root_dir: &str,
        path_fragments: &Vec<Vec<char>>,
    ) -> (r: Option<(SourceModuleName, SourceFilePath)>)
        ensures
            match r {
                Some((m, p)) => candidate_for(
                    opt_view(*module_prefix),
                    root_dir@,
                    path_fragments.deep_view(),
                ) == Some((m@, p@)),
                None => candidate_for(
                    opt_view(*module_prefix),
                    root_dir@,
                    path_fragments.deep_view(),
                ) is None,
            },
    {
        let ghost fv = path_fragments.deep_view();
        let mut path = string_of(&chars_of(root_dir));
        let mut names: Vec<Vec<char>> = Vec::new();
        let mut k: usize = 0;
        while k < path_fragments.len()
            invariant
                k <= path_fragments@.len(),
                fv == path_fragments.deep_view(),
                (path@, names.deep_view()) == walk_fragments(root_dir@, fv.take(k as int)),
            decreases path_fragments@.len() - k,
        {
            assert(fv.take(k + 1).drop_last() =~= fv.take(k as int));
            assert(path_fragments@[k as int]@ =~= fv[k as int]);
            let fragment = string_of(&path_fragments[k]);
            let normalized = escape_os_path(fragment.as_str());
            if !path_ends_with(path.as_str(), normalized.as_str()) {
                path = path_push(path.as_str(), normalized.as_str());
                let ghost before = names.deep_view();
                let f = chars_of(fragment.as_str());
                assert(f.deep_view() =~= f@);
                names.push(f);
                assert(names.deep_view() =~= before.push(fv[k as int]));
            }
            k += 1;
        }
        assert(fv.take(k as int) =~= fv);
        if path_has_no_extension(path.as_str()) {
            let ext = "wgsl";
            proof {
                reveal_strlit("wgsl");
                assert(ext@ =~= wgsl_extension());
                assert(!ext@.contains('/')) by {
                    if ext@.contains('/') {
                        let k = choose|k: int| 0 <= k < ext@.len() && ext@[k] == '/';
                    }
                }
                assert(!ext@.contains('\\')) by {
                    if ext@.contains('\\') {
                        let k = choose|k: int| 0 <= k < ext@.len() && ext@[k] == '\\';
                    }
                }
            }
            path = path_set_extension(path.as_str(), ext);
        }
        if names.len() == 0 {
            return None;
        }
        let sep = chars_of("::");
        proof {
            reveal_strlit("::");
            assert(sep@ =~= path_sep());
        }
        let name = match module_prefix {
            Some(p) => {
                let mut all: Vec<Vec<char>> = Vec::new();
                let pc = chars_of(p.as_str());
                assert(pc.deep_view() =~= pc@);
                all.push(pc);
                let ghost head = all.deep_view();
                let mut j: usize = 0;
                while j < names.len()
                    invariant
                        j <= names@.len(),
                        all.deep_view() == head + names.deep_view().take(j as int),
                    decreases names@.len() - j,
                {
                    let c = crate::text::slice_to_vec(&names[j], 0, names[j].len());
                    assert(names@[j as int]@.subrange(0, names@[j as int]@.len() as int)
                        =~= names.deep_view()[j as int]);
                    assert(c.deep_view() =~= c@);
                    let ghost before = all.deep_view();
                    all.push(c);
                    assert(all.deep_view() =~= before.push(names.deep_view()[j as int]));
                    assert(names.deep_view().take(j + 1) =~= names.deep_view().take(j as int).push(
                        names.deep_view()[j as int],
                    ));
                    j += 1;
                }
                assert(names.deep_view().take(j as int) =~= names.deep_view());
                assert(head =~= seq![p@]);
                string_of(&join_exec(&all, &sep))
            },
            None => string_of(&join_exec(&names, &sep)),
        };
        Some((SourceModuleName::new(name.as_str()), SourceFilePath::new(path.as_str())))
    }

    /// Adds the candidates below one directory, longest import prefix
    /// first, to `paths`.
    fn add_paths_for_dir(
        paths: &mut ResolvedPathSet,
        module_prefix: &Option<String>,
        import_parts: &Vec<Vec<char>>,
        from_dir: &str,
        current_source_path: &SourceFilePath,
    )
        ensures
            resolved_set_items(*final(paths)) == insert_all(
                resolved_set_items(*old(paths)),
                dir_candidates(
                    opt_view(*module_prefix),
                    import_parts.deep_view(),
                    from_dir@,
                    current_source_path@,
                ),
            ),
    {
        let ghost start = resolved_set_items(*paths);
        let ghost pre = opt_view(*module_prefix);
        let ghost pv = import_parts.deep_view();
        let n = import_parts.len();
        let mut k = n;
        assert(insert_all(start, candidates_between(pre, pv, from_dir@, current_source_path@, n as int, n as int)) =~= start);
        while k > 0
            invariant
                k <= n == import_parts@.len(),
                pv == import_parts.deep_view(),
                pre == opt_view(*module_prefix),
                start == resolved_set_items(*old(paths)),
                resolved_set_items(*paths) == insert_all(
                    start,
                    candidates_between(pre, pv, from_dir@, current_source_path@, n as int, k as int),
                ),
            decreases k,
        {
            let mut frags: Vec<Vec<char>> = Vec::new();
            let mut j: usize = 0;
            while j < k
                invariant
                    j <= k <= n == import_parts@.len(),
                    pv == import_parts.deep_view(),
                    frags.deep_view() == pv.take(j as int),
                decreases k - j,
            {
                let c = crate::text::slice_to_vec(&import_parts[j], 0, import_parts[j].len());
                assert(import_parts@[j as int]@.subrange(0, import_parts@[j as int]@.len() as int) =~= pv[j as int]);
                assert(c.deep_view() =~= c@);
                let ghost before = frags.deep_view();
                frags.push(c);
                assert(frags.deep_view() =~= before.push(pv[j as int]));
                assert(pv.take(j + 1) =~= pv.take(j as int).push(pv[j as int]));
                j += 1;
            }
            let ghost seen = candidates_between(pre, pv, from_dir@, current_source_path@, n as int, k as int);
            let ghost items = resolved_set_items(*paths);
            let ghost single = candidate_at(pre, pv, from_dir@, current_source_path@, k as int);
            assert(candidates_between(pre, pv, from_dir@, current_source_path@, n as int, k - 1) == seen + single);
            match Self::create_path(module_prefix, from_dir, &frags) {
                Some((m, p)) => {
                    if !path_eq(p.as_str(), current_source_path.as_str()) {
                        proof {
                            assert(single =~= seq![(m@, p@)]);
                            assert((seen + single).drop_last() =~= seen);
                        }
                        resolved_set_insert(paths, (m, p));
                    } else {
                        assert(seen + single =~= seen);
                    }
                },
                None => {
                    assert(seen + single =~= seen);
                },
            }
            k -= 1;
        }
    }

    /// The files that an import path may name, each with its module name:
    /// below the entry directory, below the importing file's directory, then
    /// below each additional scan directory; within a directory, the longest
    /// import prefix first; each candidate once.
    ///
    /// The import path must hold a part besides the entry module prefix.
    pub fn generate_best_possible_paths(
        &self,
        entry_dir: &SourceFileDir,
        imported_path: &ImportedPath,
        source_path: &SourceFilePath,
    ) -> (paths: ResolvedPathSet)
        requires
            import_parts(imported_path@, opt_view(self.entry_module_prefix)).len() > 0,
        ensures
            resolved_set_items(paths) == insert_all(
                Seq::empty(),
                all_candidates(
                    opt_view(self.entry_module_prefix),
                    scans_view(self.additional_scan_dirs@),
                    entry_dir@,
                    imported_path@,
                    source_path@,
                ),
            ),
    {
        let ghost pre = opt_view(self.entry_module_prefix);
        let parts = self.import_parts_of(imported_path);
        let ghost pv = parts.deep_view();
        let source_dir = match path_parent(source_path.as_str()) {
            Some(d) => d,
            None => String::new(),
        };
        let mut paths = resolved_set_new();
        Self::add_paths_for_dir(&mut paths, &self.entry_module_prefix, &parts, entry_dir.as_str(), source_path);
        Self::add_paths_for_dir(&mut paths, &self.entry_module_prefix, &parts, source_dir.as_str(), source_path);
        let ghost a = dir_candidates(pre, pv, entry_dir@, source_path@);
        let ghost b = dir_candidates(pre, pv, source_dir@, source_path@);
        proof {
            lemma_insert_all_concat(Seq::empty(), a, b);
        }
        let ghost sv = scans_view(self.additional_scan_dirs@);
        let mut i: usize = 0;
        while i < self.additional_scan_dirs.len()
            invariant
                i <= self.additional_scan_dirs@.len(),
                sv == scans_view(self.additional_scan_dirs@),
                pv == parts.deep_view(),
                resolved_set_items(paths) == insert_all(
                    Seq::empty(),
                    a + b + scan_candidates(sv.take(i as int), pv, source_path@),
                ),
            decreases self.additional_scan_dirs@.len() - i,
        {
            let scan = &self.additional_scan_dirs[i];
            let ghost before = a + b + scan_candidates(sv.take(i as int), pv, source_path@);
            let ghost c = dir_candidates(sv[i as int].0, pv, sv[i as int].1, source_path@);
            Self::add_paths_for_dir(&mut paths, &scan.module_import_root, &parts, scan.directory.as_str(), source_path);
            proof {
                lemma_insert_all_concat(Seq::empty(), before, c);
                assert(sv.take(i + 1).drop_last() =~= sv.take(i as int));
                assert(before + c =~= a + b + scan_candidates(sv.take(i + 1), pv, source_path@));
            }
            i += 1;
        }
        assert(sv.take(i as int) =~= sv);
        paths
    }

    /// Whether an import path names a module: whether it holds a part
    /// besides the entry module prefix. Candidate paths exist only for such
    /// an import.
    pub fn names_import_module(&self, imported_path: &ImportedPath) -> (r: bool)
        ensures
            r == (import_parts(imported_path@, opt_view(self.entry_module_prefix)).len() > 0),
    {
        let parts = self.import_parts_of(imported_path);
        parts.len() > 0
    }

    /// The parts of an import path, split at `::`, without a first part equal
    /// to the entry module prefix and without empty parts.
    fn import_parts_of(&self, imported_path: &ImportedPath) -> (parts: Vec<Vec<char>>)
        ensures
            parts.deep_view() == import_parts(imported_path@, opt_view(self.entry_module_prefix)),
    {
        let sep = chars_of("::");
        proof {
            reveal_strlit("::");
            assert(sep@ =~= path_sep());
        }
        let all = split_exec(&chars_of(imported_path.as_str()), &sep);
        let ghost av = all.deep_view();
        let mut first: usize = 0;
        match &self.entry_module_prefix {
            Some(p) => {
                assert(all@[0]@ =~= av[0]);
                if crate::text::chars_eq(&all[0], &chars_of(p.as_str())) {
                    first = 1;
                }
            },
            None => {},
        }
        let ghost rest = if av.len() > 0 && opt_view(self.entry_module_prefix) == Some(av[0]) {
            av.drop_first()
        } else {
            av
        };
        assert(rest =~= av.skip(first as int));
        let mut parts: Vec<Vec<char>> = Vec::new();
        let mut k = first;
        while k < all.len()
            invariant
                first <= k <= all@.len(),
                av == all.deep_view(),
                rest == av.skip(first as int),
                parts.deep_view() == nonempty_parts(rest.take(k - first)),
            decreases all@.len() - k,
        {
            assert(rest.take(k + 1 - first).drop_last() =~= rest.take(k - first));
            assert(all@[k as int]@ =~= av[k as int]);
            if all[k].len() > 0 {
                let c = crate::text::slice_to_vec(&all[k], 0, all[k].len());
                assert(all@[k as int]@.subrange(0, all@[k as int]@.len() as int) =~= av[k as int]);
                assert(c.deep_view() =~= c@);
                let ghost before = parts.deep_view();
                parts.push(c);
                assert(parts.deep_view() =~= before.push(av[k as int]));
            }
            k += 1;
        }
        assert(rest.take(k - first) =~= rest);
        parts
    }
}

} // verus!
