//! File-system paths, held as text, and the `std::path` operations that the
//! library applies to them.
//!
//! Each operation is one call of `std::path::Path` or `PathBuf`; its result
//! is named by a spec function of the path texts, since the component rules
//! of `std::path` take more than a few lines to state.

use vstd::prelude::*;

verus! {

/// What `Path::file_stem` gives for a path (as text).
pub uninterp spec fn std_file_stem(p: Seq<char>) -> Option<Seq<char>>;

/// What `Path::parent` gives for a path (as text).
pub uninterp spec fn std_parent(p: Seq<char>) -> Option<Seq<char>>;

/// What `Path::ends_with` says of a path and a child path.
pub uninterp spec fn std_ends_with(p: Seq<char>, child: Seq<char>) -> bool;

/// What `PathBuf::push` makes of a path and a pushed path.
pub uninterp spec fn std_push(p: Seq<char>, child: Seq<char>) -> Seq<char>;

/// Whether `Path::extension` gives `None` for a path.
pub uninterp spec fn std_has_no_extension(p: Seq<char>) -> bool;

/// What `PathBuf::set_extension` makes of a path and an extension.
pub uninterp spec fn std_set_extension(p: Seq<char>, ext: Seq<char>) -> Seq<char>;

/// What `Path::strip_prefix` gives for a path and a base.
pub uninterp spec fn std_strip_prefix(p: Seq<char>, base: Seq<char>) -> Option<Seq<char>>;

/// The components that iterating a `Path` yields (as texts).
pub uninterp spec fn std_components(p: Seq<char>) -> Seq<Seq<char>>;

/// Whether `Path`'s `==` (which compares components) holds.
pub uninterp spec fn std_path_eq(a: Seq<char>, b: Seq<char>) -> bool;

/// The file stem of a path, or the path itself when it has none.
pub open spec fn file_stem_or(p: Seq<char>) -> Seq<char> {
    match std_file_stem(p) {
        Some(s) => s,
        None => p,
    }
}

/// Calls `Path::file_stem`: the final component without its extension.
/// A path built from a `&str` is valid UTF-8, so the stem converts back
/// without loss. The contract names the result.
#[verifier::external_body]
pub(crate) fn path_file_stem(p: &str) -> (r: Option<String>)
    ensures
        match r {
            Some(s) => std_file_stem(p@) == Some(s@),
            None => std_file_stem(p@) is None,
        },
{
    match std::path::Path::new(p).file_stem() {
        Some(s) => Some(s.to_string_lossy().into_owned()),
        None => None,
    }
}

/// Calls `Path::parent`: the path without its final component. The
/// contract names the result.
#[verifier::external_body]
pub(crate) fn path_parent(p: &str) -> (r: Option<String>)
    ensures
        match r {
            Some(s) => std_parent(p@) == Some(s@),
            None => std_parent(p@) is None,
        },
{
    match std::path::Path::new(p).parent() {
        Some(s) => Some(s.to_string_lossy().into_owned()),
        None => None,
    }
}

/// Calls `Path::ends_with`, which compares whole trailing components.
/// The contract names the result.
#[verifier::external_body]
pub(crate) fn path_ends_with(p: &str, child: &str) -> (r: bool)
    ensures
        r == std_ends_with(p@, child@),
{
    std::path::Path::new(p).ends_with(child)
}

/// Calls `PathBuf::push`, which appends `child` as a new component (or
/// replaces the path when `child` is absolute). The contract names the
/// result.
#[verifier::external_body]
pub(crate) fn path_push(p: &str, child: &str) -> (r: String)
    ensures
        r@ == std_push(p@, child@),
{
    let mut buf = std::path::PathBuf::from(p);
    buf.push(child);
    buf.to_string_lossy().into_owned()
}

/// Calls `Path::extension` and tells whether it is `None`. The contract
/// names the result.
#[verifier::external_body]
pub(crate) fn path_has_no_extension(p: &str) -> (r: bool)
    ensures
        r == std_has_no_extension(p@),
{
    std::path::Path::new(p).extension().is_none()
}

/// Calls `PathBuf::set_extension`. The contract names the result. The call
/// panics when the extension holds a path separator (`/`, and `\\` on
/// Windows), so such an extension is left out.
#[verifier::external_body]
pub(crate) fn path_set_extension(p: &str, ext: &str) -> (r: String)
    requires
        !ext@.contains('/'),
        !ext@.contains('\\'),
    ensures
        r@ == std_set_extension(p@, ext@),
{
    let mut buf = std::path::PathBuf::from(p);
    buf.set_extension(ext);
    buf.to_string_lossy().into_owned()
}

/// Calls `Path::strip_prefix`: the path relative to `base`, when `base` is
/// made of its leading components. The contract names the result.
#[verifier::external_body]
pub(crate) fn path_strip_prefix(p: &str, base: &str) -> (r: Option<String>)
    ensures
        match r {
            Some(s) => std_strip_prefix(p@, base@) == Some(s@),
            None => std_strip_prefix(p@, base@) is None,
        },
{
    match std::path::Path::new(p).strip_prefix(base) {
        Ok(s) => Some(s.to_string_lossy().into_owned()),
        Err(_) => None,
    }
}

/// Iterates a `Path` and collects its components as texts. The contract
/// names the result.
#[verifier::external_body]
pub(crate) fn path_components(p: &str) -> (r: Vec<String>)
    ensures
        Seq::new(r@.len(), |i: int| r@[i]@) == std_components(p@),
{
    std::path::Path::new(p).iter().map(|s| s.to_string_lossy().into_owned()).collect()
}

/// Compares two paths with `Path`'s `==`. The contract names the result.
#[verifier::external_body]
pub(crate) fn path_eq(a: &str, b: &str) -> (r: bool)
    ensures
        r == std_path_eq(a@, b@),
{
    std::path::Path::new(a) == std::path::Path::new(b)
}

} // verus!
