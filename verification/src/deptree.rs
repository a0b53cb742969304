//! The dependency tree of shader source files: the parsed files, each with
//! the files its imports resolved to, and the full dependency set of a file.
//!
//! Reading files and finding which candidate path exists is the caller's
//! part; the tree records what was found.

use vstd::prelude::*;

use crate::collections::{
    source_set_insert, source_set_items, source_set_new, source_set_to_vec, SourcePathSet,
};
use crate::source_file::SourceFile;
use crate::binding_generator::push_decimal_usize;
use crate::fwgsl_loader::decimal;
use crate::text::{chars_eq, chars_of, push_all, string_of};
use crate::types::SourceFilePath;

verus! {

/// Abstract dependency graph: each parsed file's path with its direct
/// dependencies, in the order in which the files were parsed.
pub type GraphView = Seq<(Seq<char>, Seq<Seq<char>>)>;

/// The position of the parsed file with the given path, if there is one.
pub open spec fn graph_position(g: GraphView, p: Seq<char>) -> Option<int>
    decreases g.len(),
{
    if g.len() == 0 {
        None
    } else if g.last().0 == p {
        Some(g.len() - 1)
    } else {
        graph_position(g.drop_last(), p)
    }
}

/// The set `a` extended by the items of `b` that it does not hold yet, in
/// order.
pub open spec fn set_extend(a: Seq<Seq<char>>, b: Seq<Seq<char>>) -> Seq<Seq<char>>
    decreases b.len(),
{
    if b.len() == 0 {
        a
    } else {
        let r = set_extend(a, b.drop_last());
        if r.contains(b.last()) {
            r
        } else {
            r.push(b.last())
        }
    }
}

/// The full dependencies of file `p`, to a depth of `fuel`: for each direct
/// dependency in order, its own full dependencies and then itself, each
/// file once. A file that was not parsed has none.
pub open spec fn full_deps(g: GraphView, p: Seq<char>, fuel: nat) -> Seq<Seq<char>>
    decreases fuel, 0nat,
{
    if fuel == 0 {
        Seq::empty()
    } else {
        match graph_position(g, p) {
            None => Seq::empty(),
            Some(i) => if 0 <= i < g.len() {
                set_extend(Seq::empty(), deps_pieces(g, g[i].1, (fuel - 1) as nat, g[i].1.len()))
            } else {
                Seq::empty()
            },
        }
    }
}

/// The full dependencies, each followed by the dependency itself, of the
/// first `n` of `deps`.
pub open spec fn deps_pieces(g: GraphView, deps: Seq<Seq<char>>, fuel: nat, n: nat) -> Seq<Seq<char>>
    decreases fuel, n,
{
    if n == 0 || n > deps.len() {
        Seq::empty()
    } else {
        set_extend(
            deps_pieces(g, deps, fuel, (n - 1) as nat),
            set_extend(set_extend(Seq::empty(), full_deps(g, deps[n - 1], fuel)), seq![deps[n - 1]]),
        )
    }
}

/// The dependency tree of a set of entry points.
pub struct DependencyTree {
    module_prefix: Option<String>,
    parsed_sources: Vec<SourceFile>,
    entry_points: SourcePathSet,
}

/// The dependency graph of a list of parsed files.
pub open spec fn graph_of(v: Seq<SourceFile>) -> GraphView {
    Seq::new(v.len(), |i: int| (v[i].file_path@, source_set_items(v[i].direct_dependencies)))
}

impl View for DependencyTree {
    type V = (GraphView, Seq<Seq<char>>);

    closed spec fn view(&self) -> (GraphView, Seq<Seq<char>>) {
        (graph_of(self.parsed_sources@), source_set_items(self.entry_points))
    }
}

/// Whether two paths are equal.
fn same_path(a: &SourceFilePath, b: &SourceFilePath) -> (r: bool)
    ensures
        r == (a@ == b@),
{
    chars_eq(&chars_of(a.as_str()), &chars_of(b.as_str()))
}

/// Adds the items of `b` that `a` does not hold to `a`.
fn extend_set(a: &mut SourcePathSet, b: &Vec<SourceFilePath>)
    ensures
        source_set_items(*final(a)) == set_extend(
            source_set_items(*old(a)),
            Seq::new(b@.len(), |i: int| b@[i]@),
        ),
{
    let ghost bv = Seq::new(b@.len(), |i: int| b@[i]@);
    let ghost a0 = source_set_items(*a);
    let mut i: usize = 0;
    assert(bv.take(0) =~= Seq::<Seq<char>>::empty());
    while i < b.len()
        invariant
            i <= b@.len(),
            bv == Seq::new(b@.len(), |k: int| b@[k]@),
            a0 == source_set_items(*old(a)),
            source_set_items(*a) == set_extend(a0, bv.take(i as int)),
        decreases b@.len() - i,
    {
        assert(bv.take(i + 1).drop_last() =~= bv.take(i as int));
        source_set_insert(a, b[i].clone());
        i += 1;
    }
    assert(bv.take(i as int) =~= bv);
}

impl DependencyTree {
    /// The module prefix with which the tree's imports resolve.
    pub closed spec fn prefix(&self) -> Option<Seq<char>> {
        match self.module_prefix {
            Some(p) => Some(p@),
            None => None,
        }
    }

    /// The parsed files, in the order in which they were parsed.
    pub closed spec fn parsed_files_spec(&self) -> Seq<SourceFile> {
        self.parsed_sources@
    }

    /// The parsed files, in the order in which they were parsed.
    pub fn parsed_files(&self) -> (r: &Vec<SourceFile>)
        ensures
            r@ == self.parsed_files_spec(),
            graph_of(r@) == self@.0,
    {
        &self.parsed_sources
    }

    /// An empty tree whose imports resolve with the given module prefix.
    pub fn new(module_prefix: Option<String>) -> (r: Self)
        ensures
            r.parsed_files_spec() == Seq::<SourceFile>::empty(),
            r.prefix() == match module_prefix {
                Some(p) => Some(p@),
                None => None,
            },
            r@.0 == Seq::<(Seq<char>, Seq<Seq<char>>)>::empty(),
            r@.1 == Seq::<Seq<char>>::empty(),
    {
        let r = DependencyTree {
            module_prefix,
            parsed_sources: Vec::new(),
            entry_points: source_set_new(),
        };
        assert(graph_of(r.parsed_sources@) =~= Seq::<(Seq<char>, Seq<Seq<char>>)>::empty());
        r
    }

    /// The module prefix with which imports resolve.
    pub fn module_prefix(&self) -> (r: Option<String>)
        ensures
            self.prefix() == match r {
                Some(p) => Some(p@),
                None => None,
            },
    {
        match &self.module_prefix {
            Some(p) => Some(p.clone()),
            None => None,
        }
    }

    /// Records an entry point; one recorded already keeps its place.
    pub fn add_entry_point(&mut self, path: SourceFilePath)
        ensures
            final(self).parsed_files_spec() == old(self).parsed_files_spec(),
            final(self).prefix() == old(self).prefix(),
            final(self)@.0 == old(self)@.0,
            final(self)@.1 == if old(self)@.1.contains(path@) {
                old(self)@.1
            } else {
                old(self)@.1.push(path@)
            },
    {
        source_set_insert(&mut self.entry_points, path);
    }

    /// The position of the parsed file with the given path.
    fn find_source(&self, path: &SourceFilePath) -> (r: Option<usize>)
        ensures
            match r {
                Some(i) => graph_position(self@.0, path@) == Some(i as int) && i < self@.0.len(),
                None => graph_position(self@.0, path@) is None,
            },
    {
        let ghost g = self@.0;
        let mut i = self.parsed_sources.len();
        assert(g.take(i as int) =~= g);
        while i > 0
            invariant
                i <= self.parsed_sources@.len(),
                g == self@.0,
                g == graph_of(self.parsed_sources@),
                graph_position(g, path@) == graph_position(g.take(i as int), path@),
            decreases i,
        {
            assert(g.take(i as int).drop_last() =~= g.take(i - 1));
            if same_path(&self.parsed_sources[i - 1].file_path, path) {
                assert(g.take(i as int).last() == g[i - 1]);
                return Some(i - 1);
            }
            i -= 1;
        }
        None
    }

    /// Whether the file with the given path was parsed.
    pub fn contains_source(&self, path: &SourceFilePath) -> (r: bool)
        ensures
            r == graph_position(self@.0, path@) is Some,
    {
        self.find_source(path).is_some()
    }

    /// Records a parsed file, unless a file with its path was parsed already.
    pub fn insert_source(&mut self, source: SourceFile)
        ensures
            final(self).parsed_files_spec() == if graph_position(old(self)@.0, source.file_path@) is Some {
                old(self).parsed_files_spec()
            } else {
                old(self).parsed_files_spec().push(source)
            },
            final(self).prefix() == old(self).prefix(),
            final(self)@.1 == old(self)@.1,
            final(self)@.0 == if graph_position(old(self)@.0, source.file_path@) is Some {
                old(self)@.0
            } else {
                old(self)@.0.push((source.file_path@, source_set_items(source.direct_dependencies)))
            },
    {
        if self.find_source(&source.file_path).is_some() {
            return;
        }
        let ghost g = self@.0;
        let ghost sv = (source.file_path@, source_set_items(source.direct_dependencies));
        self.parsed_sources.push(source);
        assert(graph_of(self.parsed_sources@) =~= g.push(sv));
    }

    /// Records that the import of a parsed file resolved to `dependency`;
    /// a dependency recorded already keeps its place.
    pub fn add_direct_dependency(&mut self, parent: &SourceFilePath, dependency: SourceFilePath)
        requires
            graph_position(old(self)@.0, parent@) is Some,
        ensures
            final(self).prefix() == old(self).prefix(),
            final(self).parsed_files_spec().len() == old(self).parsed_files_spec().len(),
            forall|k: int|
                0 <= k < old(self).parsed_files_spec().len() ==> (#[trigger] final(self).parsed_files_spec()[k]).content
                    == old(self).parsed_files_spec()[k].content,
            final(self)@.1 == old(self)@.1,
            ({
                let i = graph_position(old(self)@.0, parent@)->0;
                let deps = old(self)@.0[i].1;
                final(self)@.0 == old(self)@.0.update(
                    i,
                    (parent@, if deps.contains(dependency@) {
                        deps
                    } else {
                        deps.push(dependency@)
                    }),
                )
            }),
    {
        let ghost g = self@.0;
        let i = match self.find_source(parent) {
            Some(i) => i,
            None => {
                assert(false);
                0
            },
        };
        assert(g[i as int] == (self.parsed_sources@[i as int].file_path@, source_set_items(self.parsed_sources@[i as int].direct_dependencies)));
        proof {
            lemma_graph_position(g, parent@);
        }
        let mut source = self.parsed_sources.remove(i);
        source.add_direct_dependency(dependency);
        let ghost sv = (source.file_path@, source_set_items(source.direct_dependencies));
        self.parsed_sources.insert(i, source);
        assert(graph_of(self.parsed_sources@) =~= g.update(i as int, sv));
    }

    /// The paths of all parsed files, in the order in which they were parsed.
    pub fn all_files_including_dependencies(&self) -> (r: SourcePathSet)
        ensures
            source_set_items(r) == set_extend(
                Seq::empty(),
                Seq::new(self@.0.len(), |i: int| self@.0[i].0),
            ),
    {
        let mut paths: Vec<SourceFilePath> = Vec::new();
        let mut i: usize = 0;
        while i < self.parsed_sources.len()
            invariant
                i <= self.parsed_sources@.len(),
                self@.0.len() == self.parsed_sources@.len(),
                Seq::new(paths@.len(), |k: int| paths@[k]@) == Seq::new(i as nat, |k: int| self@.0[k].0),
            decreases self.parsed_sources@.len() - i,
        {
            assert(self@.0.len() == self.parsed_sources@.len());
            assert(self@.0[i as int].0 == self.parsed_sources@[i as int].file_path@);
            let ghost before = Seq::new(paths@.len(), |k: int| paths@[k]@);
            paths.push(self.parsed_sources[i].file_path.clone());
            assert(Seq::new(paths@.len(), |k: int| paths@[k]@) =~= before.push(self@.0[i as int].0));
            assert(Seq::new((i + 1) as nat, |k: int| self@.0[k].0) =~= Seq::new(i as nat, |k: int| self@.0[k].0).push(self@.0[i as int].0));
            i += 1;
        }
        let mut set = source_set_new();
        extend_set(&mut set, &paths);
        assert(Seq::new(paths@.len(), |k: int| paths@[k]@) =~= Seq::new(self@.0.len(), |k: int| self@.0[k].0));
        set
    }

    /// The full dependencies of a file to a depth of `fuel`.
    fn full_deps_exec(&self, path: &SourceFilePath, fuel: usize) -> (r: SourcePathSet)
        ensures
            source_set_items(r) == full_deps(self@.0, path@, fuel as nat),
        decreases fuel,
    {
        let ghost g = self@.0;
        if fuel == 0 {
            return source_set_new();
        }
        let i = match self.find_source(path) {
            Some(i) => i,
            None => return source_set_new(),
        };
        let deps = source_set_to_vec(&self.parsed_sources[i].direct_dependencies);
        let ghost dv = Seq::new(deps@.len(), |k: int| deps@[k]@);
        assert(dv == g[i as int].1);
        let mut pieces = source_set_new();
        let mut k: usize = 0;
        while k < deps.len()
            invariant
                k <= deps@.len(),
                g == self@.0,
                fuel > 0,
                dv == Seq::new(deps@.len(), |q: int| deps@[q]@),
                source_set_items(pieces) == deps_pieces(g, dv, (fuel - 1) as nat, k as nat),
            decreases deps@.len() - k,
        {
            let sub = self.full_deps_exec(&deps[k], fuel - 1);
            let mut piece = source_set_new();
            extend_set(&mut piece, &source_set_to_vec(&sub));
            let ghost x = source_set_items(piece);
            let ghost d = dv[k as int];
            assert(x == set_extend(Seq::empty(), full_deps(g, d, (fuel - 1) as nat)));
            source_set_insert(&mut piece, deps[k].clone());
            let ghost pv = source_set_items(piece);
            assert(set_extend(x, seq![d]) == (if x.contains(d) {
                x
            } else {
                x.push(d)
            })) by {
                reveal_with_fuel(set_extend, 2);
                assert(seq![d].drop_last() =~= Seq::<Seq<char>>::empty());
                assert(seq![d].last() == d);
                assert(set_extend(x, Seq::<Seq<char>>::empty()) == x);
            }
            assert(pv == set_extend(x, seq![d]));
            extend_set(&mut pieces, &source_set_to_vec(&piece));
            k += 1;
        }
        let mut out = source_set_new();
        extend_set(&mut out, &source_set_to_vec(&pieces));
        out
    }

    /// The full dependencies of a file: for each direct dependency in order,
    /// its own full dependencies and then itself, each file once.
    ///
    /// The recursion goes at most one level deeper than there are parsed
    /// files; for a file whose dependency chains are shorter than that, the
    /// result is the one that any deeper search gives.
    pub fn get_full_dependency_for(&self, source_path: &SourceFilePath) -> (r: SourcePathSet)
        requires
            self@.0.len() < usize::MAX,
        ensures
            source_set_items(r) == full_deps(self@.0, source_path@, (self@.0.len() + 1) as nat),
            forall|d: nat|
                d <= self@.0.len() + 1 && #[trigger] dependency_depth_within(self@.0, source_path@, d)
                    ==> source_set_items(r) == full_deps(self@.0, source_path@, d),
    {
        proof {
            assert forall|d: nat|
                d <= self@.0.len() + 1 && #[trigger] dependency_depth_within(self@.0, source_path@, d)
                    implies full_deps(self@.0, source_path@, (self@.0.len() + 1) as nat) == full_deps(
                    self@.0,
                    source_path@,
                    d,
                ) by {
                law_full_dependencies_settle(self@.0, source_path@, d, (self@.0.len() + 1) as nat);
            }
        }
        self.full_deps_exec(source_path, self.parsed_sources.len() + 1)
    }
}

proof fn lemma_graph_position(g: GraphView, p: Seq<char>)
    ensures
        match graph_position(g, p) {
            Some(i) => 0 <= i < g.len() && g[i].0 == p,
            None => forall|k: int| 0 <= k < g.len() ==> #[trigger] g[k].0 != p,
        },
    decreases g.len(),
{
    if g.len() > 0 {
        lemma_graph_position(g.drop_last(), p);
        if g.last().0 != p {
            assert forall|k: int| 0 <= k < g.len() - 1 implies #[trigger] g[k].0 == g.drop_last()[k].0 by {}
        }
    }
}


/// An entry point and its full dependencies.
pub struct SourceWithFullDependenciesResult {
    pub source_file: SourceFilePath,
    pub full_dependencies: SourcePathSet,
}

impl DependencyTree {
    /// Each entry point, in order, with its full dependencies.
    pub fn get_source_files_with_full_dependencies(&self) -> (r: Vec<SourceWithFullDependenciesResult>)
        requires
            self@.0.len() < usize::MAX,
        ensures
            r@.len() == self@.1.len(),
            forall|i: int|
                0 <= i < r@.len() ==> (#[trigger] r@[i]).source_file@ == self@.1[i] && source_set_items(
                    r@[i].full_dependencies,
                ) == full_deps(self@.0, self@.1[i], (self@.0.len() + 1) as nat),
    {
        let entries = source_set_to_vec(&self.entry_points);
        let mut out: Vec<SourceWithFullDependenciesResult> = Vec::new();
        let mut i: usize = 0;
        while i < entries.len()
            invariant
                i <= entries@.len(),
                self@.0.len() < usize::MAX,
                Seq::new(entries@.len(), |k: int| entries@[k]@) == self@.1,
                out@.len() == i,
                forall|k: int|
                    0 <= k < i ==> (#[trigger] out@[k]).source_file@ == self@.1[k] && source_set_items(
                        out@[k].full_dependencies,
                    ) == full_deps(self@.0, self@.1[k], (self@.0.len() + 1) as nat),
            decreases entries@.len() - i,
        {
            assert(self@.1[i as int] == entries@[i as int]@);
            let deps = self.get_full_dependency_for(&entries[i]);
            out.push(SourceWithFullDependenciesResult {
                source_file: entries[i].clone(),
                full_dependencies: deps,
            });
            i += 1;
        }
        out
    }
}

/// The chain of imports being followed while the tree is crawled, which
/// guards against import cycles.
pub struct MaxRecursionLimiter {
    /// Each import followed: the importing file, the line, and the text of
    /// the import statement.
    files_visited: Vec<(String, usize, String)>,
}

/// The deepest chain of imports followed before the crawl gives up.
pub open spec fn max_recursion_depth() -> nat {
    16
}

/// One import being followed: the importing file, the line of the import,
/// and the text of the import statement.
pub type VisitView = (Seq<char>, usize, Seq<char>);

impl View for MaxRecursionLimiter {
    type V = Seq<VisitView>;

    closed spec fn view(&self) -> Seq<VisitView> {
        Seq::new(
            self.files_visited@.len(),
            |i: int| (self.files_visited@[i].0@, self.files_visited@[i].1, self.files_visited@[i].2@),
        )
    }
}

/// The lines that list the imports being followed, latest first: for each,
/// a newline, then `file:line: statement`.
pub open spec fn visited_text(visits: Seq<VisitView>) -> Seq<char>
    decreases visits.len(),
{
    if visits.len() == 0 {
        Seq::empty()
    } else {
        let v = visits.last();
        "\n"@ + v.0 + ":"@ + decimal(v.1 as nat) + ": "@ + v.2 + visited_text(visits.drop_last())
    }
}

impl MaxRecursionLimiter {
    /// No import followed yet.
    pub fn new() -> (r: Self)
        ensures
            r@ == Seq::<VisitView>::empty(),
    {
        let r = MaxRecursionLimiter { files_visited: Vec::new() };
        assert(r@ =~= Seq::<VisitView>::empty());
        r
    }

    /// How many imports are being followed.
    pub open spec fn depth(&self) -> nat {
        self@.len()
    }

    /// Starts following an import of `file_path`, at `line_number`, with the
    /// statement text `import_str`.
    pub fn push(&mut self, file_path: &str, line_number: usize, import_str: &str)
        ensures
            final(self)@ == old(self)@.push((file_path@, line_number, import_str@)),
    {
        let ghost before = self@;
        self.files_visited.push((
            crate::text::string_of(&chars_of(file_path)),
            line_number,
            crate::text::string_of(&chars_of(import_str)),
        ));
        assert(self@ =~= before.push((file_path@, line_number, import_str@)));
    }

    /// Stops following the last import, if there is one.
    pub fn pop(&mut self)
        ensures
            final(self)@ == if old(self)@.len() > 0 {
                old(self)@.drop_last()
            } else {
                old(self)@
            },
    {
        let ghost before = self@;
        if self.files_visited.len() > 0 {
            self.files_visited.pop();
            assert(self@ =~= before.drop_last());
        }
    }

    /// Whether the chain of imports is deeper than allowed, which suggests a
    /// circular dependency.
    pub fn exceeds_max_depth(&self) -> (r: bool)
        ensures
            r == (self.depth() > max_recursion_depth()),
    {
        self.files_visited.len() > 16
    }

    /// The imports being followed, latest first: file, line and statement.
    pub fn visited_files(&self) -> (r: Vec<(String, usize, String)>)
        ensures
            Seq::new(r@.len(), |i: int| (r@[i].0@, r@[i].1, r@[i].2@)) == self@.reverse(),
    {
        let ghost v = self@;
        let mut out: Vec<(String, usize, String)> = Vec::new();
        let mut i = self.files_visited.len();
        while i > 0
            invariant
                i <= self.files_visited@.len(),
                v == self@,
                Seq::new(out@.len(), |k: int| (out@[k].0@, out@[k].1, out@[k].2@)) == v.subrange(
                    i as int,
                    v.len() as int,
                ).reverse(),
            decreases i,
        {
            let (f, l, s) = &self.files_visited[i - 1];
            let ghost before = Seq::new(out@.len(), |k: int| (out@[k].0@, out@[k].1, out@[k].2@));
            out.push((f.clone(), *l, s.clone()));
            assert(v[i - 1] == (f@, *l, s@));
            assert(Seq::new(out@.len(), |k: int| (out@[k].0@, out@[k].1, out@[k].2@)) =~= before.push(
                v[i - 1],
            ));
            assert(v.subrange(i - 1, v.len() as int).reverse() =~= v.subrange(
                i as int,
                v.len() as int,
            ).reverse().push(v[i - 1]));
            i -= 1;
        }
        assert(v.subrange(0, v.len() as int) =~= v);
        out
    }

    /// The imports being followed as text, latest first: each on a line of
    /// its own, as `file:line: statement`.
    pub fn visited_files_text(&self) -> (r: String)
        ensures
            r@ == visited_text(self@),
    {
        let ghost v = self@;
        let mut out: Vec<char> = Vec::new();
        let mut i = self.files_visited.len();
        assert(v.take(v.len() as int) =~= v);
        while i > 0
            invariant
                i <= self.files_visited@.len(),
                v == self@,
                out@ + visited_text(v.take(i as int)) == visited_text(v),
            decreases i,
        {
            let (f, l, s) = &self.files_visited[i - 1];
            assert(v[i - 1] == (f@, *l, s@));
            assert(v.take(i as int).drop_last() =~= v.take(i - 1));
            let ghost before = out@;
            out.push('\n');
            push_all(&mut out, &chars_of(f.as_str()));
            out.push(':');
            push_decimal_usize(&mut out, *l);
            push_all(&mut out, &chars_of(": "));
            push_all(&mut out, &chars_of(s.as_str()));
            proof {
                reveal_strlit("\n");
                reveal_strlit(":");
                reveal_strlit(": ");
                let piece = "\n"@ + f@ + ":"@ + decimal(*l as nat) + ": "@ + s@;
                assert(out@ =~= before + piece);
                assert(visited_text(v.take(i as int)) == piece + visited_text(v.take(i - 1)));
                assert(out@ + visited_text(v.take(i - 1)) =~= before + visited_text(v.take(i as int)));
            }
            i -= 1;
        }
        assert(v.take(0) =~= Seq::<VisitView>::empty());
        assert(out@ + Seq::<char>::empty() =~= out@);
        string_of(&out)
    }
}

// ─── laws ───────────────────────────────────────────────────────────────────

proof fn lemma_set_extend_keeps(a: Seq<Seq<char>>, b: Seq<Seq<char>>, x: Seq<char>)
    requires
        a.contains(x),
    ensures
        set_extend(a, b).contains(x),
    decreases b.len(),
{
    if b.len() > 0 {
        lemma_set_extend_keeps(a, b.drop_last(), x);
        let r = set_extend(a, b.drop_last());
        if !r.contains(b.last()) {
            let k = choose|k: int| 0 <= k < r.len() && r[k] == x;
            assert(r.push(b.last())[k] == x);
        }
    }
}

proof fn lemma_set_extend_adds(a: Seq<Seq<char>>, b: Seq<Seq<char>>, k: int)
    requires
        0 <= k < b.len(),
    ensures
        set_extend(a, b).contains(b[k]),
    decreases b.len(),
{
    let r = set_extend(a, b.drop_last());
    if k < b.len() - 1 {
        lemma_set_extend_adds(a, b.drop_last(), k);
        assert(b.drop_last()[k] == b[k]);
        if !r.contains(b.last()) {
            let j = choose|j: int| 0 <= j < r.len() && r[j] == b[k];
            assert(r.push(b.last())[j] == b[k]);
        }
    } else {
        if !r.contains(b.last()) {
            assert(r.push(b.last())[r.len() as int] == b.last());
        }
    }
}

proof fn lemma_set_extend_distinct(a: Seq<Seq<char>>, b: Seq<Seq<char>>)
    requires
        a.no_duplicates(),
    ensures
        set_extend(a, b).no_duplicates(),
    decreases b.len(),
{
    if b.len() > 0 {
        lemma_set_extend_distinct(a, b.drop_last());
        let r = set_extend(a, b.drop_last());
        if !r.contains(b.last()) {
            let p = r.push(b.last());
            assert forall|i: int, j: int| 0 <= i < p.len() && 0 <= j < p.len() && i != j implies p[i] != p[j] by {
                if i == r.len() {
                    assert(p[j] == r[j]);
                } else if j == r.len() {
                    assert(p[i] == r[i]);
                } else {
                    assert(p[i] == r[i] && p[j] == r[j]);
                }
            }
        }
    }
}

proof fn lemma_deps_pieces_holds(g: GraphView, deps: Seq<Seq<char>>, fuel: nat, n: nat, k: int)
    requires
        0 <= k < n <= deps.len(),
    ensures
        deps_pieces(g, deps, fuel, n).contains(deps[k]),
    decreases n,
{
    let prev = deps_pieces(g, deps, fuel, (n - 1) as nat);
    let piece = set_extend(set_extend(Seq::empty(), full_deps(g, deps[n - 1], fuel)), seq![deps[n - 1]]);
    if k < n - 1 {
        lemma_deps_pieces_holds(g, deps, fuel, (n - 1) as nat, k);
        lemma_set_extend_keeps(prev, piece, deps[k]);
    } else {
        lemma_set_extend_adds(set_extend(Seq::empty(), full_deps(g, deps[n - 1], fuel)), seq![deps[n - 1]], 0);
        let j = choose|j: int| 0 <= j < piece.len() && piece[j] == deps[k];
        lemma_set_extend_adds(prev, piece, j);
    }
}

/// The full dependencies of a parsed file hold each of its direct
/// dependencies, and no file twice.
pub proof fn law_full_dependencies_hold_direct_ones(g: GraphView, p: Seq<char>, fuel: nat)
    requires
        fuel >= 1,
    ensures
        full_deps(g, p, fuel).no_duplicates(),
        graph_position(g, p) matches Some(i) ==> forall|k: int|
            0 <= k < g[i].1.len() ==> full_deps(g, p, fuel).contains(#[trigger] g[i].1[k]),
{
    lemma_graph_position(g, p);
    match graph_position(g, p) {
        Some(i) => {
            let deps = g[i].1;
            let pieces = deps_pieces(g, deps, (fuel - 1) as nat, deps.len());
            assert(Seq::<Seq<char>>::empty().no_duplicates());
            lemma_set_extend_distinct(Seq::empty(), pieces);
            assert forall|k: int| 0 <= k < deps.len() implies full_deps(g, p, fuel).contains(#[trigger] deps[k]) by {
                lemma_deps_pieces_holds(g, deps, (fuel - 1) as nat, deps.len(), k);
                let j = choose|j: int| 0 <= j < pieces.len() && pieces[j] == deps[k];
                lemma_set_extend_adds(Seq::empty(), pieces, j);
            }
        },
        None => {
            assert(Seq::<Seq<char>>::empty().no_duplicates());
        },
    }
}

/// No two parsed files share a path.
pub open spec fn paths_distinct(g: GraphView) -> bool {
    forall|i: int, j: int| 0 <= i < j < g.len() ==> #[trigger] g[i].0 != #[trigger] g[j].0
}

/// Each file is parsed once: recording a parsed file (`insert_source`) and
/// recording a dependency of a parsed file (`add_direct_dependency`) keep
/// the parsed paths distinct, as an empty tree has them.
pub proof fn law_each_file_is_parsed_once(
    g: GraphView,
    path: Seq<char>,
    deps: Seq<Seq<char>>,
    parent: Seq<char>,
    dependency: Seq<char>,
)
    requires
        paths_distinct(g),
    ensures
        paths_distinct(Seq::<(Seq<char>, Seq<Seq<char>>)>::empty()),
        paths_distinct(
            if graph_position(g, path) is Some {
                g
            } else {
                g.push((path, deps))
            },
        ),
        graph_position(g, parent) matches Some(i) ==> paths_distinct(
            g.update(
                i,
                (parent, if g[i].1.contains(dependency) {
                    g[i].1
                } else {
                    g[i].1.push(dependency)
                }),
            ),
        ),
{
    lemma_graph_position(g, path);
    lemma_graph_position(g, parent);
    if graph_position(g, path) is None {
        let h = g.push((path, deps));
        assert forall|i: int, j: int| 0 <= i < j < h.len() implies #[trigger] h[i].0 != #[trigger] h[j].0 by {
            if j == g.len() {
                assert(g[i].0 != path);
            } else {
                assert(h[i] == g[i] && h[j] == g[j]);
            }
        }
    }
    if let Some(k) = graph_position(g, parent) {
        let d = g[k].1;
        let h = g.update(k, (parent, if d.contains(dependency) { d } else { d.push(dependency) }));
        assert forall|i: int, j: int| 0 <= i < j < h.len() implies #[trigger] h[i].0 != #[trigger] h[j].0 by {
            assert(h[i].0 == g[i].0);
            assert(h[j].0 == g[j].0);
        }
    }
}

/// Popping the import just pushed gives back the chain as it was.
pub proof fn law_pop_undoes_push(visits: Seq<VisitView>, visit: VisitView)
    ensures
        ({
            let pushed = visits.push(visit);
            if pushed.len() > 0 {
                pushed.drop_last()
            } else {
                pushed
            }
        }) == visits,
{
    assert(visits.push(visit).drop_last() =~= visits);
}

/// Whether every chain of dependencies from `p` through parsed files has
/// fewer than `d` links: the part of the graph that `p` reaches has no
/// cycle, and is at most `d` deep.
pub open spec fn dependency_depth_within(g: GraphView, p: Seq<char>, d: nat) -> bool
    decreases d,
{
    match graph_position(g, p) {
        Some(i) => d > 0 && 0 <= i < g.len() && forall|k: int|
            0 <= k < g[i].1.len() ==> dependency_depth_within(g, #[trigger] g[i].1[k], (d - 1) as nat),
        None => true,
    }
}

proof fn lemma_pieces_settle(g: GraphView, deps: Seq<Seq<char>>, d: nat, f1: nat, f2: nat, n: nat)
    requires
        f1 >= d,
        f2 >= d,
        forall|k: int| 0 <= k < deps.len() ==> dependency_depth_within(g, #[trigger] deps[k], d),
    ensures
        deps_pieces(g, deps, f1, n) == deps_pieces(g, deps, f2, n),
    decreases d, n,
{
    if n > 0 && n <= deps.len() {
        lemma_pieces_settle(g, deps, d, f1, f2, (n - 1) as nat);
        lemma_full_deps_settle(g, deps[n - 1], d, f1, f2);
    }
}

proof fn lemma_full_deps_settle(g: GraphView, p: Seq<char>, d: nat, f1: nat, f2: nat)
    requires
        f1 >= d,
        f2 >= d,
        dependency_depth_within(g, p, d),
    ensures
        full_deps(g, p, f1) == full_deps(g, p, f2),
    decreases d, 0nat,
{
    match graph_position(g, p) {
        Some(i) => {
            let deps = g[i].1;
            assert forall|k: int| 0 <= k < deps.len() implies dependency_depth_within(
                g,
                #[trigger] deps[k],
                (d - 1) as nat,
            ) by {}
            lemma_pieces_settle(g, deps, (d - 1) as nat, (f1 - 1) as nat, (f2 - 1) as nat, deps.len());
        },
        None => {},
    }
}

/// The full dependencies of a file settle once the search may follow its
/// longest dependency chain: when every chain from `p` has fewer than `d`
/// links, any depth of at least `d` gives the same files.
pub proof fn law_full_dependencies_settle(g: GraphView, p: Seq<char>, d: nat, fuel: nat)
    requires
        dependency_depth_within(g, p, d),
        fuel >= d,
    ensures
        full_deps(g, p, fuel) == full_deps(g, p, d),
{
    lemma_full_deps_settle(g, p, d, fuel, d);
}

} // verus!
