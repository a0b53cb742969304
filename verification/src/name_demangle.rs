//! Demangling of WESL-mangled and naga_oil-decorated identifiers into Rust
//! item paths, and the clean-up of import texts into valid Rust import
//! names.
//!
//! Taking a WESL-mangled name apart is WESL's `EscapeMangler::unmangle`;
//! the functions here take its result (an [`Unmangled`]) and build the Rust
//! names from it. naga_oil decorations are undone here (see `naga_oil`).

use vstd::prelude::*;

use crate::naga_oil::{naga_oil_undecorate, naga_oil_undecorated};
use crate::paths::{file_stem_or, path_file_stem};
use crate::naming::{std_to_lowercase, str_to_lowercase};
use crate::text::{
    chars_eq, chars_of, find, find_from_exec, law_join_split, lemma_split_on_last, join_exec, join_with, path_sep, push_all,
    replace_all, replace_exec, slice_to_vec, split_exec, split_on, string_of,
};

verus! {

/// Where a WESL module path starts.
pub enum WeslPathOrigin {
    /// `package::...`: the current package's root.
    Absolute,
    /// `self::` or `super::...`: relative to the current module, with the
    /// number of `super`s.
    Relative(usize),
    /// An external package.
    Package(String),
}

/// Abstract origin of a WESL module path.
pub enum WeslPathOriginView {
    Absolute,
    Relative(usize),
    Package(Seq<char>),
}

impl View for WeslPathOrigin {
    type V = WeslPathOriginView;

    open spec fn view(&self) -> WeslPathOriginView {
        match self {
            WeslPathOrigin::Absolute => WeslPathOriginView::Absolute,
            WeslPathOrigin::Relative(n) => WeslPathOriginView::Relative(*n),
            WeslPathOrigin::Package(p) => WeslPathOriginView::Package(p@),
        }
    }
}

/// A mangled name taken apart: the module path's origin, its components,
/// and the item name.
pub struct Unmangled {
    pub origin: WeslPathOrigin,
    pub components: Vec<String>,
    pub item: String,
}

/// Abstract unmangled name.
pub type UnmangledView = (WeslPathOriginView, Seq<Seq<char>>, Seq<char>);

/// The abstract contents of a list of strings.
pub open spec fn strings_view(v: Seq<String>) -> Seq<Seq<char>> {
    Seq::new(v.len(), |i: int| v[i]@)
}

impl View for Unmangled {
    type V = UnmangledView;

    open spec fn view(&self) -> UnmangledView {
        (self.origin@, strings_view(self.components@), self.item@)
    }
}

impl Clone for WeslPathOrigin {
    fn clone(&self) -> (r: Self)
        ensures
            r@ == self@,
    {
        match self {
            WeslPathOrigin::Absolute => WeslPathOrigin::Absolute,
            WeslPathOrigin::Relative(n) => WeslPathOrigin::Relative(*n),
            WeslPathOrigin::Package(p) => WeslPathOrigin::Package(p.clone()),
        }
    }
}

impl Clone for Unmangled {
    fn clone(&self) -> (r: Self)
        ensures
            r@ == self@,
    {
        let mut components: Vec<String> = Vec::new();
        let mut i: usize = 0;
        while i < self.components.len()
            invariant
                i <= self.components@.len(),
                strings_view(components@) == strings_view(self.components@).take(i as int),
            decreases self.components@.len() - i,
        {
            let c = self.components[i].clone();
            let ghost before = strings_view(components@);
            components.push(c);
            assert(strings_view(components@) =~= before.push(self.components@[i as int]@));
            assert(strings_view(components@) =~= strings_view(self.components@).take(i + 1));
            i += 1;
        }
        assert(strings_view(self.components@).take(i as int) =~= strings_view(self.components@));
        Unmangled { origin: self.origin.clone(), components, item: self.item.clone() }
    }
}

/// The demangled form of a name, given what `EscapeMangler::unmangle` made
/// of it: `module::Name` for a naga_oil-decorated name;
/// `module::path::Item` for a package-absolute WESL name with at least one
/// module component; the name itself otherwise.
pub open spec fn demangled(s: Seq<char>, unmangled: Option<UnmangledView>) -> Seq<char> {
    match naga_oil_undecorated(s) {
        Some(d) => d,
        None => wesl_demangled(s, unmangled),
    }
}

/// The demangled form of a WESL name, given what `EscapeMangler::unmangle`
/// made of it.
pub open spec fn wesl_demangled(s: Seq<char>, unmangled: Option<UnmangledView>) -> Seq<char> {
    match unmangled {
        Some((WeslPathOriginView::Absolute, comps, item)) => if comps.len() > 0 {
            join_with(comps, path_sep()) + path_sep() + item
        } else {
            s
        },
        _ => s,
    }
}

/// The abstract form of an optional unmangling result.
pub open spec fn unmangled_view(u: Option<Unmangled>) -> Option<UnmangledView> {
    match u {
        Some(x) => Some(x@),
        None => None,
    }
}

/// The string `::` as characters.
fn path_sep_exec() -> (r: Vec<char>)
    ensures
        r@ == path_sep(),
{
    let r = chars_of("::");
    proof {
        reveal_strlit("::");
        assert(r@ =~= path_sep());
    }
    r
}

/// Demangles a WGSL identifier produced by the WESL compiler or naga_oil,
/// given what `EscapeMangler::unmangle` made of it.
///
/// * A naga_oil-decorated name (e.g. `UniformsX_naga_oil_mod_XOR4XAZLTX`)
///   becomes `module::Name` (`types::Uniforms`).
/// * A WESL-mangled name of a package-absolute item in a sub-module
///   (e.g. `package__1global_bindings_GlobalUniforms`, unmangled into the
///   components `["global_bindings"]` and the item `GlobalUniforms`) becomes
///   `global_bindings::GlobalUniforms`.
/// * Any other name is returned unchanged.
pub fn demangle_str(string: &str, unmangled: Option<Unmangled>) -> (out: String)
    ensures
        out@ == demangled(string@, unmangled_view(unmangled)),
{
    match naga_oil_undecorate(string) {
        Some(d) => {
            return string_of(&d);
        },
        None => {},
    }
    match unmangled {
        Some(u) => {
            match u.origin {
                WeslPathOrigin::Absolute => {
                    if u.components.len() > 0 {
                        let mut parts: Vec<Vec<char>> = Vec::new();
                        let mut k: usize = 0;
                        while k < u.components.len()
                            invariant
                                k <= u.components@.len(),
                                parts.deep_view() == strings_view(u.components@).take(k as int),
                            decreases u.components@.len() - k,
                        {
                            let c = chars_of(u.components[k].as_str());
                            let ghost before = parts.deep_view();
                            assert(c.deep_view() =~= c@);
                            parts.push(c);
                            assert(parts.deep_view() =~= before.push(u.components@[k as int]@));
                            assert(parts.deep_view() =~= strings_view(u.components@).take(k + 1));
                            k += 1;
                        }
                        assert(strings_view(u.components@).take(k as int) =~= strings_view(
                            u.components@,
                        ));
                        let sep = path_sep_exec();
                        let mut out = join_exec(&parts, &sep);
                        push_all(&mut out, &sep);
                        push_all(&mut out, &chars_of(u.item.as_str()));
                        string_of(&out)
                    } else {
                        string_of(&chars_of(string))
                    }
                },
                _ => string_of(&chars_of(string)),
            }
        },
        None => string_of(&chars_of(string)),
    }
}

/// The path of a generated Rust item: the module it lives in and its name.
#[derive(Debug, PartialEq, Eq, Hash)]
pub struct RustSourceItemPath {
    pub module: String,
    pub name: String,
}

/// The module and item that a demangled name designates: everything before
/// the last `::` and what follows it, or `default_module` and the whole name
/// when there is no `::`.
pub open spec fn item_path_of(demangled_name: Seq<char>, default_module: Seq<char>) -> (
    Seq<char>,
    Seq<char>,
) {
    let parts = split_on(demangled_name, path_sep());
    if parts.len() == 1 {
        (default_module, parts[0])
    } else {
        (join_with(parts.drop_last(), path_sep()), parts.last())
    }
}

impl Clone for RustSourceItemPath {
    fn clone(&self) -> (r: Self)
        ensures
            r.module@ == self.module@,
            r.name@ == self.name@,
    {
        RustSourceItemPath { module: self.module.clone(), name: self.name.clone() }
    }
}

/// The fully qualified name of an item: its name alone at the root, else
/// its module and name joined by `::`.
pub open spec fn qualified_item_name(module: Seq<char>, name: Seq<char>) -> Seq<char> {
    if module.len() == 0 {
        name
    } else {
        module + path_sep() + name
    }
}

impl RustSourceItemPath {
    /// The fully qualified name of the item.
    pub fn get_fully_qualified_name(&self) -> (r: String)
        ensures
            r@ == qualified_item_name(self.module@, self.name@),
    {
        let mut out = chars_of(self.module.as_str());
        if out.len() == 0 {
            return string_of(&chars_of(self.name.as_str()));
        }
        push_all(&mut out, &path_sep_exec());
        push_all(&mut out, &chars_of(self.name.as_str()));
        string_of(&out)
    }

    /// How the item is named from `target_module`: by its name alone inside
    /// its own module, else by its fully qualified name.
    pub fn short_token_stream(&self, target_module: &str) -> (r: String)
        ensures
            r@ == if self.module@ == target_module@ {
                self.name@
            } else {
                qualified_item_name(self.module@, self.name@)
            },
    {
        if chars_eq(&chars_of(self.module.as_str()), &chars_of(target_module)) {
            string_of(&chars_of(self.name.as_str()))
        } else {
            self.get_fully_qualified_name()
        }
    }
}

impl RustSourceItemPath {
    /// Demangles a WESL-mangled identifier (e.g.
    /// `package__1global_bindings_GlobalUniforms`) into an item path, given
    /// what `EscapeMangler::unmangle` made of it.
    ///
    /// A plain identifier lives in `default_module_path`.
    pub fn from_mangled(string: &str, unmangled: Option<Unmangled>, default_module_path: &str) -> (r: Self)
        ensures
            (r.module@, r.name@) == item_path_of(
                demangled(string@, unmangled_view(unmangled)),
                default_module_path@,
            ),
    {
        let d = demangle_str(string, unmangled);
        let dc = chars_of(d.as_str());
        let sep = path_sep_exec();
        let parts = split_exec(&dc, &sep);
        let ghost pv = parts.deep_view();
        if parts.len() == 1 {
            assert(parts@[0]@ =~= pv[0]);
            RustSourceItemPath {
                module: string_of(&chars_of(default_module_path)),
                name: string_of(&parts[0]),
            }
        } else {
            let last = parts.len() - 1;
            let mut front: Vec<Vec<char>> = Vec::new();
            let mut k: usize = 0;
            while k < last
                invariant
                    k <= last,
                    last == parts@.len() - 1,
                    pv == parts.deep_view(),
                    front.deep_view() == pv.take(k as int),
                decreases last - k,
            {
                let piece = slice_to_vec(&parts[k], 0, parts[k].len());
                assert(parts@[k as int]@.subrange(0, parts@[k as int]@.len() as int) =~= pv[k as int]);
                let ghost before = front.deep_view();
                assert(piece.deep_view() =~= piece@);
                front.push(piece);
                assert(front.deep_view() =~= before.push(pv[k as int]));
                assert(front.deep_view() =~= pv.take(k + 1));
                k += 1;
            }
            assert(pv.take(last as int) =~= pv.drop_last());
            assert(parts@[last as int]@ =~= pv.last());
            RustSourceItemPath {
                module: string_of(&join_exec(&front, &sep)),
                name: string_of(&parts[last]),
            }
        }
    }
}

/// Removes every `"`.
pub open spec fn without_quotes(s: Seq<char>) -> Seq<char> {
    replace_all(s, seq!['"'], Seq::empty())
}

/// Removes the quotes that import texts put around file paths.
pub fn escape_os_path(path: &str) -> (out: String)
    ensures
        out@ == without_quotes(path@),
{
    let quote = chars_of("\"");
    proof {
        reveal_strlit("\"");
        assert(quote@ =~= seq!['"']);
    }
    let empty: Vec<char> = Vec::new();
    string_of(&replace_exec(&chars_of(path), &quote, &empty))
}

/// The import text with every `"../` and then every `"` removed.
pub open spec fn unquoted_import(value: Seq<char>) -> Seq<char> {
    without_quotes(replace_all(value, seq!['"', '.', '.', '/'], Seq::empty()))
}

/// Makes an import text a valid Rust import name:
///   * `"../types"::RtsStruct` becomes `types::RtsStruct`;
///   * `../more-shader-files/reachme` becomes `reachme`.
///
/// The quotes are removed, then the path's file stem is kept when it has one.
pub fn make_valid_rust_import(value: &str) -> (out: String)
    ensures
        out@ == file_stem_or(unquoted_import(value@)),
{
    let parent_quote = chars_of("\"../");
    let quote = chars_of("\"");
    proof {
        reveal_strlit("\"../");
        reveal_strlit("\"");
        assert(parent_quote@ =~= seq!['"', '.', '.', '/']);
        assert(quote@ =~= seq!['"']);
    }
    let empty: Vec<char> = Vec::new();
    let v = replace_exec(&chars_of(value), &parent_quote, &empty);
    let v = string_of(&replace_exec(&v, &quote, &empty));
    match path_file_stem(&v) {
        Some(stem) => stem,
        None => v,
    }
}


/// The name of the module through which generated modules reach each other.
pub open spec fn reference_root() -> Seq<char> {
    seq!['_', 'r', 'o', 'o', 't']
}

/// A demangled name made a path from the reference root: a name with a
/// module path goes below the root; a plain name goes below the root and
/// the lower-cased default module, or stays as it is without one.
pub open spec fn fully_qualified(demangled_name: Seq<char>, default_mod_path: Option<Seq<char>>) -> Seq<char> {
    if find(demangled_name, path_sep()) is Some {
        reference_root() + path_sep() + demangled_name
    } else {
        match default_mod_path {
            None => demangled_name,
            Some(m) => reference_root() + path_sep() + std_to_lowercase(m) + path_sep() + demangled_name,
        }
    }
}

/// The path, from the reference root, of the item that a WGSL name
/// designates, given what `EscapeMangler::unmangle` made of the name.
pub fn demangle_and_fully_qualify(
    string: &str,
    unmangled: Option<Unmangled>,
    default_mod_path: Option<&str>,
) -> (r: String)
    ensures
        r@ == fully_qualified(
            demangled(string@, unmangled_view(unmangled)),
            match default_mod_path {
                Some(m) => Some(m@),
                None => None,
            },
        ),
{
    let d = demangle_str(string, unmangled);
    let dc = chars_of(d.as_str());
    let sep = path_sep_exec();
    let root = chars_of("_root");
    proof {
        reveal_strlit("_root");
        assert(root@ =~= reference_root());
    }
    match find_from_exec(&dc, &sep, 0) {
        Some(_) => {
            let mut out = root;
            push_all(&mut out, &sep);
            push_all(&mut out, &dc);
            string_of(&out)
        },
        None => {
            match default_mod_path {
                None => d,
                Some(m) => {
                    let lower = str_to_lowercase(m);
                    let mut out = root;
                    push_all(&mut out, &sep);
                    push_all(&mut out, &chars_of(lower.as_str()));
                    push_all(&mut out, &sep);
                    push_all(&mut out, &dc);
                    string_of(&out)
                },
            }
        },
    }
}

/// The item path of a demangled name splits it at its last `::`: without
/// `::` the name is the whole text and the module is the default one;
/// otherwise the module, `::` and the name give back the text. The name
/// never holds `::`.
pub proof fn law_item_path_splits_at_last_separator(demangled_name: Seq<char>, default_module: Seq<char>)
    ensures
        find(item_path_of(demangled_name, default_module).1, path_sep()) is None,
        find(demangled_name, path_sep()) is None ==> item_path_of(demangled_name, default_module) == (
            default_module,
            demangled_name,
        ),
        find(demangled_name, path_sep()) is Some ==> item_path_of(demangled_name, default_module).0
            + path_sep() + item_path_of(demangled_name, default_module).1 == demangled_name,
{
    let parts = split_on(demangled_name, path_sep());
    lemma_split_on_last(demangled_name, path_sep());
    law_join_split(demangled_name, path_sep());
    if parts.len() == 1 {
        assert(parts.last() == parts[0]);
    } else {
        assert(join_with(parts, path_sep()) == join_with(parts.drop_last(), path_sep()) + path_sep()
            + parts.last());
    }
}

} // verus!
