//! Paths of shader source files, module names, and source locations.

use vstd::prelude::*;

use crate::paths::{
    path_components, path_file_stem, path_parent, path_strip_prefix, std_components,
    std_file_stem, std_parent, std_strip_prefix,
};
use crate::text::{chars_of, join_exec, join_with, next_char, next_char_exec, path_sep, push_all, slice_to_vec, string_of, lemma_next_char};

verus! {

/// The path of a shader source file.
#[derive(Debug, Hash, PartialEq, Eq)]
pub struct SourceFilePath(String);

/// The directory of a shader source file.
#[derive(Debug, Hash, PartialEq, Eq)]
pub struct SourceFileDir(String);

/// A module path used in an import statement.
#[derive(Debug, Hash, PartialEq, Eq)]
pub struct ImportPathPart(String);

/// The Rust module name given to a shader source file.
#[derive(Debug, Hash, PartialEq, Eq)]
pub struct SourceModuleName(String);

/// A span of source text.
#[derive(Debug, Clone, Copy, PartialEq, Eq, Structural)]
pub struct SourceLocation {
    /// 1-based line number.
    pub line_number: usize,
    /// 1-based column of the start of this span.
    pub line_position: usize,
    /// 0-based offset in bytes of the start of the span.
    pub offset: usize,
    /// Length in bytes of the span.
    pub length: usize,
}

impl View for SourceFilePath {
    type V = Seq<char>;

    closed spec fn view(&self) -> Seq<char> {
        self.0@
    }
}

impl View for SourceFileDir {
    type V = Seq<char>;

    closed spec fn view(&self) -> Seq<char> {
        self.0@
    }
}

impl View for ImportPathPart {
    type V = Seq<char>;

    closed spec fn view(&self) -> Seq<char> {
        self.0@
    }
}

impl View for SourceModuleName {
    type V = Seq<char>;

    closed spec fn view(&self) -> Seq<char> {
        self.0@
    }
}

/// The text before the first `.` of a file stem (`split('.').next()`).
pub open spec fn before_first_dot(s: Seq<char>) -> Seq<char> {
    s.take(next_char(s, '.', 0))
}

/// The module path of a file relative to a workspace root: the directories
/// of the path relative to the root (or of the whole path, when it does not
/// lie under the root), then the file stem up to its first `.`, joined by
/// `::`.
pub open spec fn module_path_of(file_path: Seq<char>, workspace_root: Seq<char>) -> Seq<char> {
    let relative = match std_strip_prefix(file_path, workspace_root) {
        Some(r) => r,
        None => file_path,
    };
    let prefix = before_first_dot(std_file_stem(relative)->0);
    match std_parent(relative) {
        Some(parent) => if parent.len() > 0 {
            join_with(std_components(parent), path_sep()) + path_sep() + prefix
        } else {
            prefix
        },
        None => prefix,
    }
}

/// Whether a path has a file stem once made relative to `workspace_root`.
pub open spec fn has_module_path(file_path: Seq<char>, workspace_root: Seq<char>) -> bool {
    let relative = match std_strip_prefix(file_path, workspace_root) {
        Some(r) => r,
        None => file_path,
    };
    std_file_stem(relative) is Some
}

/// The text before the first `.`.
fn before_first_dot_exec(s: &str) -> (r: Vec<char>)
    ensures
        r@ == before_first_dot(s@),
{
    let cs = chars_of(s);
    let e = next_char_exec(&cs, '.', 0);
    proof {
        lemma_next_char(cs@, '.', 0);
    }
    let r = slice_to_vec(&cs, 0, e);
    assert(cs@.subrange(0, e as int) =~= cs@.take(e as int));
    r
}

impl SourceFilePath {
    /// A source file path from its text.
    pub fn new(value: &str) -> (r: Self)
        ensures
            r@ == value@,
    {
        SourceFilePath(value.to_owned())
    }

    /// The path as text.
    pub fn as_str(&self) -> (r: &str)
        ensures
            r@ == self@,
    {
        self.0.as_str()
    }

    /// The directory that holds the file (`Path::parent`). The path must
    /// have a parent: it is neither empty nor a root.
    pub fn dir(&self) -> (r: SourceFileDir)
        requires
            std_parent(self@) is Some,
        ensures
            r@ == std_parent(self@)->0,
    {
        match path_parent(self.0.as_str()) {
            Some(p) => SourceFileDir(p),
            None => {
                assert(false);
                SourceFileDir(String::new())
            },
        }
    }

    /// The directory that holds the file, or `None` for a path without a
    /// parent (empty or a root).
    pub fn try_dir(&self) -> (r: Option<SourceFileDir>)
        ensures
            r is Some <==> std_parent(self@) is Some,
            r matches Some(d) ==> d@ == std_parent(self@)->0,
    {
        if path_parent(self.0.as_str()).is_some() {
            Some(self.dir())
        } else {
            None
        }
    }

    /// The file prefix, or `None` for a path without a file stem.
    pub fn try_file_prefix(&self) -> (r: Option<String>)
        ensures
            r is Some <==> std_file_stem(self@) is Some,
            r matches Some(p) ==> p@ == before_first_dot(std_file_stem(self@)->0),
    {
        if path_file_stem(self.0.as_str()).is_some() {
            Some(self.file_prefix())
        } else {
            None
        }
    }

    /// The file stem up to its first `.` (`a/b.c.wgsl` gives `b`). The path
    /// must have a file stem.
    pub fn file_prefix(&self) -> (r: String)
        requires
            std_file_stem(self@) is Some,
        ensures
            r@ == before_first_dot(std_file_stem(self@)->0),
    {
        match path_file_stem(self.0.as_str()) {
            Some(stem) => string_of(&before_first_dot_exec(stem.as_str())),
            None => {
                assert(false);
                String::new()
            },
        }
    }

    /// The Rust module path of this file relative to `workspace_root`.
    pub fn rust_module_path(&self, workspace_root: &str) -> (r: String)
        requires
            has_module_path(self@, workspace_root@),
        ensures
            r@ == module_path_of(self@, workspace_root@),
    {
        Self::path_to_module_path(self.0.as_str(), workspace_root)
    }

    /// The Rust module path of a file relative to a workspace root, or `None`
    /// when the relative path has no file stem.
    pub fn try_path_to_module_path(file_path: &str, workspace_root: &str) -> (r: Option<String>)
        ensures
            r is Some <==> has_module_path(file_path@, workspace_root@),
            r matches Some(m) ==> m@ == module_path_of(file_path@, workspace_root@),
    {
        let relative = match path_strip_prefix(file_path, workspace_root) {
            Some(r) => r,
            None => file_path.to_owned(),
        };
        if path_file_stem(relative.as_str()).is_some() {
            Some(Self::path_to_module_path(file_path, workspace_root))
        } else {
            None
        }
    }

    /// Converts a file path to a Rust module path relative to a workspace root:
    /// - `shaders/lines/segment.wgsl` with root `shaders` gives `lines::segment`;
    /// - `particle_physics.wgsl` with root `.` gives `particle_physics`.
    pub fn path_to_module_path(file_path: &str, workspace_root: &str) -> (r: String)
        requires
            has_module_path(file_path@, workspace_root@),
        ensures
            r@ == module_path_of(file_path@, workspace_root@),
    {
        let relative = match path_strip_prefix(file_path, workspace_root) {
            Some(r) => r,
            None => file_path.to_owned(),
        };
        let stem = match path_file_stem(relative.as_str()) {
            Some(s) => s,
            None => {
                assert(false);
                String::new()
            },
        };
        let prefix = before_first_dot_exec(stem.as_str());
        match path_parent(relative.as_str()) {
            Some(parent) => {
                if !parent.as_str().is_empty() {
                    let comps = path_components(parent.as_str());
                    let mut parts: Vec<Vec<char>> = Vec::new();
                    let mut k: usize = 0;
                    while k < comps.len()
                        invariant
                            k <= comps@.len(),
                            parts.deep_view() == Seq::new(comps@.len(), |i: int| comps@[i]@).take(
                                k as int,
                            ),
                        decreases comps@.len() - k,
                    {
                        let c = chars_of(comps[k].as_str());
                        assert(c.deep_view() =~= c@);
                        let ghost before = parts.deep_view();
                        parts.push(c);
                        assert(parts.deep_view() =~= before.push(comps@[k as int]@));
                        assert(parts.deep_view() =~= Seq::new(
                            comps@.len(),
                            |i: int| comps@[i]@,
                        ).take(k + 1));
                        k += 1;
                    }
                    assert(Seq::new(comps@.len(), |i: int| comps@[i]@).take(k as int) =~= Seq::new(
                        comps@.len(),
                        |i: int| comps@[i]@,
                    ));
                    let sep = chars_of("::");
                    proof {
                        reveal_strlit("::");
                        assert(sep@ =~= path_sep());
                    }
                    let mut out = join_exec(&parts, &sep);
                    push_all(&mut out, &sep);
                    push_all(&mut out, &prefix);
                    string_of(&out)
                } else {
                    string_of(&prefix)
                }
            },
            None => string_of(&prefix),
        }
    }
}

impl Clone for SourceFilePath {
    fn clone(&self) -> (r: Self)
        ensures
            r@ == self@,
    {
        SourceFilePath(self.0.clone())
    }
}

impl SourceFileDir {
    /// A source directory from its text.
    pub fn new(value: &str) -> (r: Self)
        ensures
            r@ == value@,
    {
        SourceFileDir(value.to_owned())
    }

    /// The directory as text.
    pub fn as_str(&self) -> (r: &str)
        ensures
            r@ == self@,
    {
        self.0.as_str()
    }
}

impl Clone for SourceFileDir {
    fn clone(&self) -> (r: Self)
        ensures
            r@ == self@,
    {
        SourceFileDir(self.0.clone())
    }
}

impl ImportPathPart {
    /// An import path part from its text.
    pub fn new(value: &str) -> (r: Self)
        ensures
            r@ == value@,
    {
        ImportPathPart(value.to_owned())
    }

    /// The part as text.
    pub fn as_str(&self) -> (r: &str)
        ensures
            r@ == self@,
    {
        self.0.as_str()
    }
}

impl Clone for ImportPathPart {
    fn clone(&self) -> (r: Self)
        ensures
            r@ == self@,
    {
        ImportPathPart(self.0.clone())
    }
}

impl SourceModuleName {
    /// A module name from its text.
    pub fn new(value: &str) -> (r: Self)
        ensures
            r@ == value@,
    {
        SourceModuleName(value.to_owned())
    }

    /// The name as text.
    pub fn as_str(&self) -> (r: &str)
        ensures
            r@ == self@,
    {
        self.0.as_str()
    }
}

impl Clone for SourceModuleName {
    fn clone(&self) -> (r: Self)
        ensures
            r@ == self@,
    {
        SourceModuleName(self.0.clone())
    }
}

} // verus!
