//! The decisions of the crawl that builds a dependency tree: once the
//! caller knows which candidate files of an import exist, which one the
//! import resolves to, what the tree and the chain of imports record, and
//! what the caller does next. Reading files and asking whether a path is a
//! file are the caller's part.

use vstd::prelude::*;

use crate::deptree::{graph_position, max_recursion_depth, visited_text, DependencyTree, GraphView, MaxRecursionLimiter, VisitView};
use crate::types::{SourceFilePath, SourceModuleName};

verus! {

/// The first position from `k` on where `exists` holds.
pub open spec fn first_existing(exists: Seq<bool>, k: int) -> Option<int>
    decreases exists.len() - k,
{
    if k < 0 || k >= exists.len() {
        None
    } else if exists[k] {
        Some(k)
    } else {
        first_existing(exists, k + 1)
    }
}

/// The graph with `dependency` recorded for the parsed file `parent`, at
/// the end of its dependencies unless it is there already.
pub open spec fn with_dependency(g: GraphView, parent: Seq<char>, dependency: Seq<char>) -> GraphView {
    match graph_position(g, parent) {
        Some(i) => {
            let deps = g[i].1;
            g.update(
                i,
                (parent, if deps.contains(dependency) {
                    deps
                } else {
                    deps.push(dependency)
                }),
            )
        },
        None => g,
    }
}

/// What the crawl does next with an import.
pub enum ImportStep {
    /// No candidate file exists: the crawl fails, naming the import.
    NotFound,
    /// The chain of imports is deeper than allowed, which suggests a
    /// circular dependency: the crawl stops with the chain, latest first.
    RecursionLimit(String),
    /// The file is parsed already: the import is done.
    AlreadyParsed,
    /// The file must be read and crawled, under the module name; then the
    /// caller pops the chain of imports.
    Crawl(SourceModuleName, SourceFilePath),
}

/// The position of the first candidate that exists.
pub fn first_existing_candidate(exists: &Vec<bool>) -> (r: Option<usize>)
    ensures
        match r {
            Some(k) => first_existing(exists@, 0) == Some(k as int) && k < exists@.len(),
            None => first_existing(exists@, 0) is None,
        },
{
    let mut k: usize = 0;
    while k < exists.len()
        invariant
            k <= exists@.len(),
            first_existing(exists@, 0) == first_existing(exists@, k as int),
        decreases exists@.len() - k,
    {
        if exists[k] {
            return Some(k);
        }
        k += 1;
    }
    None
}

/// One import of the parsed file `parent`, at `line_number` with the
/// statement text `import_text`, whose candidate files are `candidates`
/// (module name and path, best first), of which those marked in `exists`
/// exist.
///
/// Without an existing candidate, nothing changes and the import is not
/// found. Otherwise it resolves to the first existing candidate: the tree
/// records it as a dependency of `parent` and the import joins the chain
/// being followed. A chain deeper than allowed stops the crawl; a file
/// parsed already leaves the chain as it was; any other file is crawled
/// next.
pub fn crawl_import_step(
    tree: &mut DependencyTree,
    limiter: &mut MaxRecursionLimiter,
    parent: &SourceFilePath,
    line_number: usize,
    import_text: &str,
    candidates: &Vec<(SourceModuleName, SourceFilePath)>,
    exists: &Vec<bool>,
) -> (r: ImportStep)
    requires
        graph_position(old(tree)@.0, parent@) is Some,
        exists@.len() == candidates@.len(),
    ensures
        final(tree).prefix() == old(tree).prefix(),
        final(tree)@.1 == old(tree)@.1,
        final(tree).parsed_files_spec().len() == old(tree).parsed_files_spec().len(),
        match first_existing(exists@, 0) {
            None => {
                &&& r is NotFound
                &&& final(tree)@ == old(tree)@
                &&& final(limiter)@ == old(limiter)@
            },
            Some(k) => {
                let path = candidates@[k].1@;
                let pushed: Seq<VisitView> = old(limiter)@.push((parent@, line_number, import_text@));
                &&& final(tree)@.0 == with_dependency(old(tree)@.0, parent@, path)
                &&& if pushed.len() > max_recursion_depth() {
                    &&& r matches ImportStep::RecursionLimit(t) && t@ == visited_text(pushed)
                    &&& final(limiter)@ == pushed
                } else if graph_position(old(tree)@.0, path) is Some {
                    &&& r is AlreadyParsed
                    &&& final(limiter)@ == old(limiter)@
                } else {
                    &&& r matches ImportStep::Crawl(m, p) && m@ == candidates@[k].0@ && p@ == path
                    &&& final(limiter)@ == pushed
                }
            },
        },
{
    let k = match first_existing_candidate(exists) {
        Some(k) => k,
        None => {
            return ImportStep::NotFound;
        },
    };
    let (module_name, path) = &candidates[k];
    let ghost g0 = tree@.0;
    tree.add_direct_dependency(parent, path.clone());
    proof {
        lemma_dependency_keeps_paths(g0, parent@, path@);
    }

    limiter.push(parent.as_str(), line_number, import_text);
    if limiter.exceeds_max_depth() {
        return ImportStep::RecursionLimit(limiter.visited_files_text());
    }
    if tree.contains_source(path) {
        limiter.pop();
        assert(limiter@ =~= old(limiter)@);
        ImportStep::AlreadyParsed
    } else {
        ImportStep::Crawl(module_name.clone(), path.clone())
    }
}

/// Recording a dependency leaves the set of parsed paths as it was.
proof fn lemma_dependency_keeps_paths(g: GraphView, parent: Seq<char>, dependency: Seq<char>)
    ensures
        forall|p: Seq<char>|
            #[trigger] graph_position(with_dependency(g, parent, dependency), p) == graph_position(g, p),
{
    assert forall|p: Seq<char>|
        #[trigger] graph_position(with_dependency(g, parent, dependency), p) == graph_position(g, p) by {
        match graph_position(g, parent) {
            Some(i) => {
                let deps = g[i].1;
                let new_deps = if deps.contains(dependency) {
                    deps
                } else {
                    deps.push(dependency)
                };
                lemma_update_keeps_positions(g, i, parent, new_deps, p);
            },
            None => {},
        }
    }
}

/// Replacing the dependencies of the entry at `i`, keeping its path, keeps
/// every position.
proof fn lemma_update_keeps_positions(g: GraphView, i: int, parent: Seq<char>, deps: Seq<Seq<char>>, p: Seq<char>)
    requires
        graph_position(g, parent) == Some(i),
    ensures
        graph_position(g.update(i, (parent, deps)), p) == graph_position(g, p),
    decreases g.len(),
{
    lemma_position_in_range(g, parent);
    let h = g.update(i, (parent, deps));
    assert(h.len() == g.len());
    assert(h.last().0 == g.last().0);
    if i == g.len() - 1 {
        assert(h.drop_last() =~= g.drop_last());
    } else {
        assert(g.last().0 != parent);
        assert(h.drop_last() =~= g.drop_last().update(i, (parent, deps)));
        lemma_update_keeps_positions(g.drop_last(), i, parent, deps, p);
    }
}

/// A position that the search finds is in range and holds the path.
proof fn lemma_position_in_range(g: GraphView, p: Seq<char>)
    ensures
        graph_position(g, p) matches Some(i) ==> 0 <= i < g.len() && g[i].0 == p,
    decreases g.len(),
{
    if g.len() > 0 && g.last().0 != p {
        lemma_position_in_range(g.drop_last(), p);
    }
}

} // verus!
