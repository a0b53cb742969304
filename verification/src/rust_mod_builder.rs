//! The tree of Rust modules that the generated code is assembled into.
//!
//! Modules are kept in one list in the order in which they were created;
//! a module's submodules are the modules whose path extends its own by one
//! name, in that order. Contents are the text of Rust items.

use vstd::prelude::*;

use crate::name_demangle::reference_root;
use crate::text::{chars_eq, chars_of, path_sep, push_all, split_exec, split_on, string_of};

verus! {

/// Errors while assembling the module tree.
#[derive(Debug, PartialEq, Eq)]
pub enum RustModBuilderError {
    /// Two items were added under one unique id with different contents.
    DuplicateContentError { id: String, existing: String, received: String },
}

/// Configuration of the module tree builder.
#[derive(Clone, Copy, Debug, PartialEq, Eq, Structural)]
pub struct RustModBuilderConfig {
    /// Whether modules import items through a shared relative root module.
    pub use_relative_root: bool,
}

/// A module of the tree.
pub struct RustMod {
    /// The names from the top-level module down to this one.
    path: Vec<Vec<char>>,
    is_public: bool,
    module_attributes: Vec<char>,
    initial_contents: Vec<char>,
    content: Vec<Vec<char>>,
    /// The position in `content` of each item added under a unique id.
    unique_content: Vec<(Vec<char>, usize)>,
}

/// Abstract module: path, visibility, attributes, initial contents,
/// contents, and the content position of each unique id.
pub type ModView = (
    Seq<Seq<char>>,
    bool,
    Seq<char>,
    Seq<char>,
    Seq<Seq<char>>,
    Seq<(Seq<char>, usize)>,
);

/// The abstract value of a module.
pub closed spec fn mod_view(m: RustMod) -> ModView {
    (
        m.path.deep_view(),
        m.is_public,
        m.module_attributes@,
        m.initial_contents@,
        m.content.deep_view(),
        Seq::new(m.unique_content@.len(), |i: int| (m.unique_content@[i].0@, m.unique_content@[i].1)),
    )
}

/// The abstract values of a list of modules.
pub closed spec fn mods_view(v: Seq<RustMod>) -> Seq<ModView> {
    Seq::new(v.len(), |i: int| mod_view(v[i]))
}

/// The position of the module with the given path, if there is one.
pub open spec fn position_of(ms: Seq<ModView>, path: Seq<Seq<char>>) -> Option<int>
    decreases ms.len(),
{
    if ms.len() == 0 {
        None
    } else if ms.last().0 == path {
        Some(ms.len() - 1)
    } else {
        position_of(ms.drop_last(), path)
    }
}

/// `#[allow(unused)]`, on the reference root module.
pub open spec fn root_attributes() -> Seq<char> {
    seq!['#', '[', 'a', 'l', 'l', 'o', 'w', '(', 'u', 'n', 'u', 's', 'e', 'd', ')', ']', '\n']
}

/// `pub use super::*;`, which the reference root module holds.
pub open spec fn root_initial_contents() -> Seq<char> {
    seq![
        'p', 'u', 'b', ' ', 'u', 's', 'e', ' ', 's', 'u', 'p', 'e', 'r', ':', ':', '*', ';', '\n',
    ]
}

/// `#[allow(unused_imports)] use super::{_root, _root::*};`, with which
/// modules reach the reference root.
pub open spec fn relative_initial_contents() -> Seq<char> {
    seq![
        '#', '[', 'a', 'l', 'l', 'o', 'w', '(', 'u', 'n', 'u', 's', 'e', 'd', '_', 'i', 'm', 'p',
        'o', 'r', 't', 's', ')', ']', '\n', 'u', 's', 'e', ' ', 's', 'u', 'p', 'e', 'r', ':', ':',
        '{', '_', 'r', 'o', 'o', 't', ',', ' ', '_', 'r', 'o', 'o', 't', ':', ':', '*', '}', ';',
        '\n',
    ]
}

/// A new top-level module: with the relative root, the root module itself
/// is private and re-exports its parent, and every other module imports
/// the root; without it, a plain public module.
pub open spec fn top_module(name: Seq<char>, use_relative_root: bool) -> ModView {
    if use_relative_root {
        if name == reference_root() {
            (seq![name], false, root_attributes(), root_initial_contents(), Seq::empty(), Seq::empty())
        } else {
            (seq![name], true, Seq::empty(), relative_initial_contents(), Seq::empty(), Seq::empty())
        }
    } else {
        (seq![name], true, Seq::empty(), Seq::empty(), Seq::empty(), Seq::empty())
    }
}

/// The modules after making sure that the modules of the first `k` names
/// of `names` exist: a missing top-level module is made as configured, a
/// missing submodule is public and starts with its parent's initial
/// contents.
pub open spec fn ensure_upto(ms: Seq<ModView>, names: Seq<Seq<char>>, k: int, use_relative_root: bool) -> Seq<ModView>
    decreases k,
{
    if k <= 0 {
        ms
    } else {
        let prev = ensure_upto(ms, names, k - 1, use_relative_root);
        if position_of(prev, names.take(k)) is Some {
            prev
        } else if k == 1 {
            prev.push(top_module(names[0], use_relative_root))
        } else {
            let init = match position_of(prev, names.take(k - 1)) {
                Some(i) => prev[i].3,
                None => Seq::empty(),
            };
            prev.push((names.take(k), true, Seq::empty(), init, Seq::empty(), Seq::empty()))
        }
    }
}

/// The module path `path` taken apart at `::`.
pub open spec fn path_names(path: Seq<char>) -> Seq<Seq<char>> {
    split_on(path, path_sep())
}

/// The modules after making sure that the module of `path` exists.
pub open spec fn ensure_module(ms: Seq<ModView>, path: Seq<char>, use_relative_root: bool) -> Seq<ModView> {
    ensure_upto(ms, path_names(path), path_names(path).len() as int, use_relative_root)
}

proof fn lemma_position_of(ms: Seq<ModView>, path: Seq<Seq<char>>)
    ensures
        match position_of(ms, path) {
            Some(i) => 0 <= i < ms.len() && ms[i].0 == path,
            None => forall|k: int| 0 <= k < ms.len() ==> #[trigger] ms[k].0 != path,
        },
    decreases ms.len(),
{
    if ms.len() > 0 {
        lemma_position_of(ms.drop_last(), path);
        if ms.last().0 != path {
            assert forall|k: int| 0 <= k < ms.len() - 1 implies #[trigger] ms[k].0 == ms.drop_last()[k].0 by {}
        }
    }
}

proof fn lemma_split_on_nonempty(s: Seq<char>, sep: Seq<char>)
    ensures
        split_on(s, sep).len() >= 1,
    decreases s.len(),
{
    if sep.len() > 0 {
        match crate::text::find(s, sep) {
            Some(i) => {
                if 0 <= i && i + sep.len() <= s.len() {
                    lemma_split_on_nonempty(s.skip(i + sep.len()), sep);
                }
            },
            None => {},
        }
    }
}

proof fn lemma_ensure_upto_found(ms: Seq<ModView>, names: Seq<Seq<char>>, k: int, use_relative_root: bool)
    requires
        1 <= k <= names.len(),
    ensures
        position_of(ensure_upto(ms, names, k, use_relative_root), names.take(k)) is Some,
{
    let prev = ensure_upto(ms, names, k - 1, use_relative_root);
    let r = ensure_upto(ms, names, k, use_relative_root);
    if position_of(prev, names.take(k)) is None {
        if k == 1 {
            assert(seq![names[0]] =~= names.take(1));
        }
        assert(r.last().0 == names.take(k));
    }
}

/// The module tree builder.
pub struct RustModBuilder {
    modules: Vec<RustMod>,
    config: RustModBuilderConfig,
}

impl View for RustModBuilder {
    type V = (Seq<ModView>, bool);

    closed spec fn view(&self) -> (Seq<ModView>, bool) {
        (mods_view(self.modules@), self.config.use_relative_root)
    }
}

/// Whether two lists of names are equal.
fn names_eq(a: &Vec<Vec<char>>, b: &Vec<Vec<char>>) -> (r: bool)
    ensures
        r == (a.deep_view() == b.deep_view()),
{
    if a.len() != b.len() {
        assert(a.deep_view().len() != b.deep_view().len());
        return false;
    }
    let mut i: usize = 0;
    while i < a.len()
        invariant
            i <= a@.len(),
            a@.len() == b@.len(),
            forall|j: int| 0 <= j < i ==> a.deep_view()[j] == b.deep_view()[j],
        decreases a@.len() - i,
    {
        assert(a.deep_view()[i as int] =~= a@[i as int]@);
        assert(b.deep_view()[i as int] =~= b@[i as int]@);
        if !chars_eq(&a[i], &b[i]) {
            return false;
        }
        i += 1;
    }
    assert(a.deep_view() =~= b.deep_view());
    true
}

/// A copy of a list of names.
fn clone_names(v: &Vec<Vec<char>>) -> (r: Vec<Vec<char>>)
    ensures
        r.deep_view() == v.deep_view(),
{
    let mut out: Vec<Vec<char>> = Vec::new();
    let mut i: usize = 0;
    while i < v.len()
        invariant
            i <= v@.len(),
            out.deep_view() == v.deep_view().take(i as int),
        decreases v@.len() - i,
    {
        let c = v[i].clone();
        let ghost before = out.deep_view();
        out.push(c);
        assert(out.deep_view() =~= before.push(v.deep_view()[i as int]));
        assert(v.deep_view().take(i + 1) =~= v.deep_view().take(i as int).push(v.deep_view()[i as int]));
        i += 1;
    }
    assert(v.deep_view().take(i as int) =~= v.deep_view());
    out
}


/// The position of the entry of `id`, if there is one.
pub open spec fn unique_position(u: Seq<(Seq<char>, usize)>, id: Seq<char>) -> Option<int>
    decreases u.len(),
{
    if u.len() == 0 {
        None
    } else if u.last().0 == id {
        Some(u.len() - 1)
    } else {
        unique_position(u.drop_last(), id)
    }
}

/// The entries with `id` mapped to `v`: in place when `id` has an entry,
/// at the end otherwise.
pub open spec fn unique_insert(u: Seq<(Seq<char>, usize)>, id: Seq<char>, v: usize) -> Seq<(Seq<char>, usize)> {
    match unique_position(u, id) {
        Some(p) => u.update(p, (id, v)),
        None => u.push((id, v)),
    }
}

/// A module with `content` added under the unique id `id`: when the id
/// already names an item, the module stays as it is if the item is the same
/// and the existing item is the error otherwise; a new id gets the content
/// appended.
pub open spec fn add_unique_spec(m: ModView, id: Seq<char>, content: Seq<char>) -> Result<ModView, Seq<char>> {
    match unique_position(m.5, id) {
        Some(p) if m.5[p].1 < m.4.len() => if m.4[m.5[p].1 as int] != content {
            Err(m.4[m.5[p].1 as int])
        } else {
            Ok(m)
        },
        _ => Ok((m.0, m.1, m.2, m.3, m.4.push(content), unique_insert(m.5, id, m.4.len() as usize))),
    }
}

/// The text of the item contents, each followed by a newline.
pub open spec fn contents_text(c: Seq<Seq<char>>) -> Seq<char>
    decreases c.len(),
{
    if c.len() == 0 {
        Seq::empty()
    } else {
        contents_text(c.drop_last()) + c.last() + seq!['\n']
    }
}

/// Whether module `c` is a submodule of module `p`.
pub open spec fn is_child(c: ModView, p: ModView) -> bool {
    c.0.len() == p.0.len() + 1 && c.0.take(p.0.len() as int) == p.0
}

/// The opening of a module: its attributes, its visibility, `mod`, its
/// name, a brace, and its initial contents.
pub open spec fn module_header(m: ModView) -> Seq<char> {
    let name = if m.0.len() > 0 {
        m.0.last()
    } else {
        Seq::empty()
    };
    m.2 + (if m.1 {
        seq!['p', 'u', 'b', ' ']
    } else {
        Seq::empty()
    }) + seq!['m', 'o', 'd', ' '] + name + seq![' ', '{', '\n'] + m.3
}

/// The text of module `k`: its opening, its contents, its submodules in
/// order, and a closing brace; `fuel` bounds the depth.
pub open spec fn module_text(ms: Seq<ModView>, k: int, fuel: nat) -> Seq<char>
    decreases fuel, 0nat,
{
    if fuel == 0 || k < 0 || k >= ms.len() {
        Seq::empty()
    } else {
        module_header(ms[k]) + contents_text(ms[k].4) + children_text(
            ms,
            k,
            (fuel - 1) as nat,
            ms.len(),
        ) + seq!['}', '\n']
    }
}

/// The texts of the submodules of module `k` among the first `n` modules.
pub open spec fn children_text(ms: Seq<ModView>, k: int, fuel: nat, n: nat) -> Seq<char>
    decreases fuel, n,
{
    if n == 0 || n > ms.len() || k < 0 || k >= ms.len() {
        Seq::empty()
    } else {
        children_text(ms, k, fuel, (n - 1) as nat) + if is_child(ms[n - 1], ms[k]) {
            module_text(ms, n - 1, fuel)
        } else {
            Seq::empty()
        }
    }
}

/// The texts of the top-level modules among the first `n`, each with its
/// submodules.
pub open spec fn top_text(ms: Seq<ModView>, n: nat) -> Seq<char>
    decreases n,
{
    if n == 0 || n > ms.len() {
        Seq::empty()
    } else {
        top_text(ms, (n - 1) as nat) + if ms[n - 1].0.len() == 1 {
            module_text(ms, n - 1, ms.len())
        } else {
            Seq::empty()
        }
    }
}

/// The text of all modules.
pub open spec fn generated_text(ms: Seq<ModView>) -> Seq<char> {
    top_text(ms, ms.len())
}

/// A copy of the text.
fn copy_chars(v: &Vec<char>) -> (r: Vec<char>)
    ensures
        r@ == v@,
{
    let mut out: Vec<char> = Vec::new();
    push_all(&mut out, v);
    out
}

/// A new module.
fn make_mod(path: Vec<Vec<char>>, is_public: bool, module_attributes: Vec<char>, initial_contents: Vec<char>) -> (r: RustMod)
    ensures
        mod_view(r) == (path.deep_view(), is_public, module_attributes@, initial_contents@, Seq::<Seq<char>>::empty(), Seq::<(Seq<char>, usize)>::empty()),
{
    let r = RustMod {
        path,
        is_public,
        module_attributes,
        initial_contents,
        content: Vec::new(),
        unique_content: Vec::new(),
    };
    assert(mod_view(r).4 =~= Seq::<Seq<char>>::empty());
    assert(mod_view(r).5 =~= Seq::<(Seq<char>, usize)>::empty());
    r
}

/// A new top-level module named `name`.
fn new_top_module(name: &Vec<char>, use_relative_root: bool) -> (r: RustMod)
    ensures
        mod_view(r) == top_module(name@, use_relative_root),
{
    let mut path: Vec<Vec<char>> = Vec::new();
    let c = copy_chars(name);
    path.push(c);
    assert(path.deep_view()[0] =~= path@[0]@);
    assert(path.deep_view() =~= seq![name@]);
    if use_relative_root {
        let root = chars_of("_root");
        proof {
            reveal_strlit("_root");
            assert(root@ =~= reference_root());
        }
        if chars_eq(name, &root) {
            let attrs = chars_of("#[allow(unused)]\n");
            let init = chars_of("pub use super::*;\n");
            proof {
                reveal_strlit("#[allow(unused)]\n");
                reveal_strlit("pub use super::*;\n");
                assert(attrs@ =~= root_attributes());
                assert(init@ =~= root_initial_contents());
            }
            make_mod(path, false, attrs, init)
        } else {
            let init = chars_of("#[allow(unused_imports)]\nuse super::{_root, _root::*};\n");
            proof {
                reveal_strlit("#[allow(unused_imports)]\nuse super::{_root, _root::*};\n");
                assert(init@ =~= relative_initial_contents());
            }
            make_mod(path, true, Vec::new(), init)
        }
    } else {
        make_mod(path, true, Vec::new(), Vec::new())
    }
}

impl RustModBuilder {
    /// An empty tree; with the relative root, the tree starts with the
    /// reference root module.
    pub fn new(use_relative_root: bool) -> (r: Self)
        ensures
            r@.1 == use_relative_root,
            r@.0 == if use_relative_root {
                seq![top_module(reference_root(), true)]
            } else {
                Seq::<ModView>::empty()
            },
    {
        let mut modules: Vec<RustMod> = Vec::new();
        if use_relative_root {
            let root = chars_of("_root");
            proof {
                reveal_strlit("_root");
                assert(root@ =~= reference_root());
            }
            modules.push(new_top_module(&root, true));
        }
        let r = RustModBuilder { modules, config: RustModBuilderConfig { use_relative_root } };
        proof {
            if use_relative_root {
                assert(mods_view(r.modules@) =~= seq![top_module(reference_root(), true)]);
            } else {
                assert(mods_view(r.modules@) =~= Seq::<ModView>::empty());
            }
        }
        r
    }

    /// The position of the module with the given path.
    fn find_module(&self, path: &Vec<Vec<char>>) -> (r: Option<usize>)
        ensures
            match r {
                Some(i) => position_of(self@.0, path.deep_view()) == Some(i as int),
                None => position_of(self@.0, path.deep_view()) is None,
            },
    {
        let ghost ms = self@.0;
        let mut i = self.modules.len();
        assert(ms.take(i as int) =~= ms);
        while i > 0
            invariant
                i <= self.modules@.len(),
                ms == self@.0,
                ms == mods_view(self.modules@),
                position_of(ms, path.deep_view()) == position_of(ms.take(i as int), path.deep_view()),
            decreases i,
        {
            assert(ms.take(i as int).drop_last() =~= ms.take(i - 1));
            assert(ms[i - 1].0 == self.modules@[i - 1].path.deep_view());
            if names_eq(&self.modules[i - 1].path, path) {
                assert(ms.take(i as int).last() == ms[i - 1]);
                return Some(i - 1);
            }
            i -= 1;
        }
        None
    }

    /// Makes sure that the module of `path` and its ancestors exist, and
    /// gives the module's position.
    fn get_or_create_module(&mut self, path: &str) -> (idx: usize)
        requires
            path@.len() > 0,
        ensures
            final(self)@.1 == old(self)@.1,
            final(self)@.0 == ensure_module(old(self)@.0, path@, old(self)@.1),
            position_of(final(self)@.0, path_names(path@)) == Some(idx as int),
            idx < final(self)@.0.len(),
    {
        let sep = chars_of("::");
        proof {
            reveal_strlit("::");
            assert(sep@ =~= path_sep());
        }
        let names = split_exec(&chars_of(path), &sep);
        let ghost nv = names.deep_view();
        let ghost ms0 = self@.0;
        let use_root = self.config.use_relative_root;
        let mut prefix: Vec<Vec<char>> = Vec::new();
        let mut k: usize = 0;
        assert(nv.take(0) =~= Seq::<Seq<char>>::empty());
        while k < names.len()
            invariant
                k <= nv.len(),
                nv == names.deep_view(),
                nv == path_names(path@),
                use_root == self@.1,
                use_root == old(self)@.1,
                ms0 == old(self)@.0,
                self@.0 == ensure_upto(ms0, nv, k as int, use_root),
                prefix.deep_view() == nv.take(k as int),
            decreases nv.len() - k,
        {
            let ghost prev = self@.0;
            let parent = self.find_module(&prefix);
            proof {
                lemma_position_of(prev, prefix.deep_view());
            }
            let c = copy_chars(&names[k]);
            assert(c@ == nv[k as int]);
            let ghost before = prefix.deep_view();
            prefix.push(c);
            assert(prefix.deep_view() =~= before.push(nv[k as int]));
            assert(nv.take(k + 1) =~= nv.take(k as int).push(nv[k as int]));
            let found = self.find_module(&prefix);
            if found.is_none() {
                let m = if k == 0 {
                    new_top_module(&names[0], use_root)
                } else {
                    let init = match parent {
                        Some(p) => {
                            assert(prev[p as int] == mod_view(self.modules@[p as int]));
                            copy_chars(&self.modules[p].initial_contents)
                        },
                        None => Vec::new(),
                    };
                    assert(init@ == match position_of(prev, nv.take(k as int)) {
                        Some(i) => prev[i].3,
                        None => Seq::<char>::empty(),
                    });
                    make_mod(clone_names(&prefix), true, Vec::new(), init)
                };
                let ghost mv = mod_view(m);
                self.modules.push(m);
                proof {
                    assert(mods_view(self.modules@) =~= prev.push(mv));
                    if k == 0 {
                        assert(nv[0] == names@[0]@);
                    }
                }
            }
            k += 1;
        }
        proof {
            assert(nv.take(nv.len() as int) =~= nv);
            lemma_split_on_nonempty(path@, path_sep());
            lemma_ensure_upto_found(ms0, nv, nv.len() as int, use_root);
        }
        match self.find_module(&names) {
            Some(i) => {
                proof {
                    lemma_position_of(self@.0, nv);
                }
                i
            },
            None => {
                assert(false);
                0
            },
        }
    }
}


/// A module with one more item appended.
pub open spec fn with_content(m: ModView, c: Seq<char>) -> ModView {
    (m.0, m.1, m.2, m.3, m.4.push(c), m.5)
}

/// The position of the module of `path` once it exists.
pub open spec fn module_position(ms: Seq<ModView>, path: Seq<char>) -> int {
    match position_of(ms, path_names(path)) {
        Some(i) => i,
        None => 0,
    }
}

/// Whether the first `n` names of `c` and `p` are equal.
fn names_prefix_eq(c: &Vec<Vec<char>>, p: &Vec<Vec<char>>, n: usize) -> (r: bool)
    requires
        n <= c@.len(),
        n <= p@.len(),
    ensures
        r == (c.deep_view().take(n as int) == p.deep_view().take(n as int)),
{
    let mut i: usize = 0;
    while i < n
        invariant
            i <= n,
            n <= c@.len(),
            n <= p@.len(),
            forall|j: int| 0 <= j < i ==> c.deep_view()[j] == p.deep_view()[j],
        decreases n - i,
    {
        assert(c.deep_view()[i as int] =~= c@[i as int]@);
        assert(p.deep_view()[i as int] =~= p@[i as int]@);
        if !chars_eq(&c[i], &p[i]) {
            assert(c.deep_view().take(n as int)[i as int] != p.deep_view().take(n as int)[i as int]);
            return false;
        }
        i += 1;
    }
    assert(c.deep_view().take(n as int) =~= p.deep_view().take(n as int));
    true
}

/// Whether module `c` is a submodule of module `p`.
fn is_child_exec(c: &RustMod, p: &RustMod) -> (r: bool)
    ensures
        r == is_child(mod_view(*c), mod_view(*p)),
{
    if c.path.len() == 0 || c.path.len() - 1 != p.path.len() {
        return false;
    }
    let r = names_prefix_eq(&c.path, &p.path, p.path.len());
    assert(p.path.deep_view().take(p.path@.len() as int) =~= p.path.deep_view());
    r
}

/// The opening of a module.
fn module_header_exec(m: &RustMod) -> (r: Vec<char>)
    ensures
        r@ == module_header(mod_view(*m)),
{
    let mut out = copy_chars(&m.module_attributes);
    if m.is_public {
        let p = chars_of("pub ");
        proof {
            reveal_strlit("pub ");
            assert(p@ =~= seq!['p', 'u', 'b', ' ']);
        }
        push_all(&mut out, &p);
    }
    let kw = chars_of("mod ");
    let open = chars_of(" {\n");
    proof {
        reveal_strlit("mod ");
        reveal_strlit(" {\n");
        assert(kw@ =~= seq!['m', 'o', 'd', ' ']);
        assert(open@ =~= seq![' ', '{', '\n']);
    }
    push_all(&mut out, &kw);
    if m.path.len() > 0 {
        let last = m.path.len() - 1;
        assert(m.path.deep_view()[last as int] =~= m.path@[last as int]@);
        push_all(&mut out, &m.path[last]);
    }
    push_all(&mut out, &open);
    push_all(&mut out, &m.initial_contents);
    proof {
        let mv = mod_view(*m);
        assert(out@ =~= module_header(mv));
    }
    out
}

impl RustModBuilder {
    /// Appends an item to the module of `path`, creating the module and its
    /// ancestors as needed.
    pub fn add(&mut self, path: &str, content: String)
        requires
            path@.len() > 0,
        ensures
            final(self)@.1 == old(self)@.1,
            final(self)@.0 == ensure_module(old(self)@.0, path@, old(self)@.1).update(
                module_position(ensure_module(old(self)@.0, path@, old(self)@.1), path@),
                with_content(
                    ensure_module(old(self)@.0, path@, old(self)@.1)[module_position(
                        ensure_module(old(self)@.0, path@, old(self)@.1),
                        path@,
                    )],
                    content@,
                ),
            ),
    {
        let idx = self.get_or_create_module(path);
        let ghost ms1 = self@.0;
        let mut m = self.modules.remove(idx);
        assert(ms1[idx as int] == mod_view(m));
        let ghost before = m.content.deep_view();
        let cc = chars_of(content.as_str());
        m.content.push(cc);
        assert(m.content.deep_view()[before.len() as int] =~= m.content@[before.len() as int]@);
        assert(m.content.deep_view() =~= before.push(content@));
        let ghost mv = mod_view(m);
        self.modules.insert(idx, m);
        assert(mods_view(self.modules@) =~= ms1.update(idx as int, mv));
    }

    /// Adds an item under a unique id to the module of `path`, creating the
    /// module and its ancestors as needed. Adding the same item under an id
    /// again changes nothing; adding another item under it is an error that
    /// shows both.
    pub fn add_unique(&mut self, path: &str, id: &str, content: String) -> (r: Result<(), RustModBuilderError>)
        requires
            path@.len() > 0,
        ensures
            final(self)@.1 == old(self)@.1,
            ({
                let ms1 = ensure_module(old(self)@.0, path@, old(self)@.1);
                let i = module_position(ms1, path@);
                match add_unique_spec(ms1[i], id@, content@) {
                    Ok(m2) => r is Ok && final(self)@.0 == ms1.update(i, m2),
                    Err(e) => final(self)@.0 == ms1 && (r matches Err(
                        RustModBuilderError::DuplicateContentError { id: a, existing: b, received: c },
                    ) && a@ == id@ && b@ == e && c@ == content@),
                }
            }),
    {
        let idx = self.get_or_create_module(path);
        let ghost ms1 = self@.0;
        let idc = chars_of(id);
        let cc = chars_of(content.as_str());
        let ghost mv0 = ms1[idx as int];
        assert(mv0 == mod_view(self.modules@[idx as int]));
        // Look the id up, from the last entry back.
        let m = &self.modules[idx];
        let ghost u = mv0.5;
        let mut p = m.unique_content.len();
        assert(u.take(p as int) =~= u);
        while p > 0
            invariant
                p <= m.unique_content@.len(),
                u == mod_view(*m).5,
                unique_position(u, idc@) == unique_position(u.take(p as int), idc@),
            ensures
                p <= m.unique_content@.len(),
                unique_position(u, idc@) == unique_position(u.take(p as int), idc@),
                p > 0 ==> u[p - 1].0 == idc@,
            decreases p,
        {
            assert(u.take(p as int).drop_last() =~= u.take(p - 1));
            assert(u[p - 1].0 == m.unique_content@[p - 1].0@);
            if chars_eq(&m.unique_content[p - 1].0, &idc) {
                break;
            }
            p -= 1;
        }
        proof {
            if p > 0 {
                assert(u.take(p as int).last() == u[p - 1]);
                assert(unique_position(u, idc@) == Some(p - 1));
            } else {
                assert(unique_position(u, idc@) is None);
            }
        }
        if p > 0 {
            let at = m.unique_content[p - 1].1;
            assert(u[p - 1].1 == at);
            if at < m.content.len() {
                assert(mv0.4[at as int] =~= m.content@[at as int]@);
                if !chars_eq(&m.content[at], &cc) {
                    let existing = string_of(&m.content[at]);
                    return Err(RustModBuilderError::DuplicateContentError {
                        id: string_of(&idc),
                        existing,
                        received: content,
                    });
                }
                assert(ms1.update(idx as int, mv0) =~= ms1);
                return Ok(());
            }
        }
        let mut m = self.modules.remove(idx);
        assert(mod_view(m) == mv0);
        let at = m.content.len();
        let ghost c0 = m.content.deep_view();
        m.content.push(cc);
        assert(m.content.deep_view()[c0.len() as int] =~= m.content@[c0.len() as int]@);
        assert(m.content.deep_view() =~= c0.push(content@));
        let ghost u0 = mod_view(m).5;
        if p > 0 {
            m.unique_content.set(p - 1, (idc, at));
            assert(mod_view(m).5 =~= u0.update(p - 1, (id@, at)));
        } else {
            m.unique_content.push((idc, at));
            assert(mod_view(m).5 =~= u0.push((id@, at)));
        }
        let ghost mv = mod_view(m);
        self.modules.insert(idx, m);
        assert(mods_view(self.modules@) =~= ms1.update(idx as int, mv));
        Ok(())
    }

    /// The text of module `k` with its submodules, to depth `fuel`.
    fn module_text_exec(&self, k: usize, fuel: usize) -> (r: Vec<char>)
        requires
            k < self@.0.len(),
        ensures
            r@ == module_text(self@.0, k as int, fuel as nat),
        decreases fuel,
    {
        let ghost ms = self@.0;
        if fuel == 0 {
            return Vec::new();
        }
        assert(ms[k as int] == mod_view(self.modules@[k as int]));
        let m = &self.modules[k];
        let mut out = module_header_exec(m);
        let mut i: usize = 0;
        while i < m.content.len()
            invariant
                i <= m.content@.len(),
                out@ == module_header(ms[k as int]) + contents_text(ms[k as int].4.take(i as int)),
                ms[k as int] == mod_view(*m),
            decreases m.content@.len() - i,
        {
            assert(ms[k as int].4.take(i + 1).drop_last() =~= ms[k as int].4.take(i as int));
            assert(ms[k as int].4[i as int] =~= m.content@[i as int]@);
            push_all(&mut out, &m.content[i]);
            out.push('\n');
            assert(out@ =~= module_header(ms[k as int]) + contents_text(ms[k as int].4.take(i + 1)));
            i += 1;
        }
        assert(ms[k as int].4.take(i as int) =~= ms[k as int].4);
        let ghost head = out@;
        let mut n: usize = 0;
        while n < self.modules.len()
            invariant
                n <= self.modules@.len(),
                ms == self@.0,
                ms == mods_view(self.modules@),
                k < ms.len(),
                fuel > 0,
                out@ == head + children_text(ms, k as int, (fuel - 1) as nat, n as nat),
            decreases self.modules@.len() - n,
        {
            assert(ms[n as int] == mod_view(self.modules@[n as int]));
            assert(ms[k as int] == mod_view(self.modules@[k as int]));
            if is_child_exec(&self.modules[n], &self.modules[k]) {
                let t = self.module_text_exec(n, fuel - 1);
                push_all(&mut out, &t);
            }
            assert(out@ =~= head + children_text(ms, k as int, (fuel - 1) as nat, (n + 1) as nat));
            n += 1;
        }
        out.push('}');
        out.push('\n');
        assert(out@ =~= module_text(ms, k as int, fuel as nat));
        out
    }

    /// The text of all modules: the top-level modules in order, each with
    /// its submodules.
    pub fn generate(&self) -> (r: String)
        ensures
            r@ == generated_text(self@.0),
    {
        let ghost ms = self@.0;
        let len = self.modules.len();
        let mut out: Vec<char> = Vec::new();
        let mut n: usize = 0;
        while n < len
            invariant
                n <= len,
                len == self.modules@.len(),
                ms == self@.0,
                ms == mods_view(self.modules@),
                out@ == top_text(ms, n as nat),
            decreases len - n,
        {
            assert(ms[n as int] == mod_view(self.modules@[n as int]));
            if self.modules[n].path.len() == 1 {
                let t = self.module_text_exec(n, len);
                push_all(&mut out, &t);
            }
            assert(out@ =~= top_text(ms, (n + 1) as nat));
            n += 1;
        }
        string_of(&out)
    }
}


/// The modules after adding `content` under `id` to the module of `path`,
/// and the existing item when that fails.
pub open spec fn add_unique_state(
    ms: Seq<ModView>,
    use_relative_root: bool,
    path: Seq<char>,
    id: Seq<char>,
    content: Seq<char>,
) -> (Seq<ModView>, Option<Seq<char>>) {
    let ms1 = ensure_module(ms, path, use_relative_root);
    let i = module_position(ms1, path);
    match add_unique_spec(ms1[i], id, content) {
        Ok(m2) => (ms1.update(i, m2), None),
        Err(e) => (ms1, Some(e)),
    }
}

/// An item to place in the module tree: its module (the default one when
/// it has none), its name and its text.
pub struct RustModItem {
    pub mod_path: Option<String>,
    pub name: String,
    pub item: String,
}

/// Abstract item: module path, name, text.
pub type ModItemView = (Option<Seq<char>>, Seq<char>, Seq<char>);

/// The abstract values of a list of items.
pub open spec fn mod_items_view(v: Seq<RustModItem>) -> Seq<ModItemView> {
    Seq::new(
        v.len(),
        |i: int| (match v[i].mod_path {
            Some(p) => Some(p@),
            None => None,
        }, v[i].name@, v[i].item@),
    )
}

/// The module path of an item.
pub open spec fn item_module(it: ModItemView, default_mod_path: Seq<char>) -> Seq<char> {
    match it.0 {
        Some(p) => p,
        None => default_mod_path,
    }
}

/// The modules after adding the first `n` items under their names, and the
/// index and existing text of the first item that failed, if one did.
pub open spec fn add_items_state(
    ms: Seq<ModView>,
    use_relative_root: bool,
    default_mod_path: Seq<char>,
    items: Seq<ModItemView>,
    n: int,
) -> (Seq<ModView>, Option<(int, Seq<char>)>)
    decreases n,
{
    if n <= 0 {
        (ms, None)
    } else {
        let prev = add_items_state(ms, use_relative_root, default_mod_path, items, n - 1);
        match prev.1 {
            Some(e) => prev,
            None => {
                let it = items[n - 1];
                let step = add_unique_state(prev.0, use_relative_root, item_module(it, default_mod_path), it.1, it.2);
                match step.1 {
                    Some(e) => (step.0, Some((n - 1, e))),
                    None => (step.0, None),
                }
            },
        }
    }
}

impl RustModBuilder {
    /// Adds items under their names to their modules (to
    /// `default_mod_path` for an item without one), stopping at the first
    /// that fails.
    pub fn add_items(&mut self, default_mod_path: &str, items: Vec<RustModItem>) -> (r: Result<(), RustModBuilderError>)
        requires
            default_mod_path@.len() > 0,
            forall|i: int| 0 <= i < items@.len() ==> ((#[trigger] items@[i]).mod_path matches Some(p) ==> p@.len() > 0),
        ensures
            final(self)@.1 == old(self)@.1,
            ({
                let st = add_items_state(old(self)@.0, old(self)@.1, default_mod_path@, mod_items_view(items@), items@.len() as int);
                &&& final(self)@.0 == st.0
                &&& match st.1 {
                    None => r is Ok,
                    Some((k, e)) => r matches Err(RustModBuilderError::DuplicateContentError { id: a, existing: b, received: c })
                        && a@ == items@[k].name@ && b@ == e && c@ == items@[k].item@,
                }
            }),
    {
        let ghost iv = mod_items_view(items@);
        let ghost ms0 = self@.0;
        let ghost use_root = self@.1;
        let mut i: usize = 0;
        while i < items.len()
            invariant
                i <= items@.len(),
                iv == mod_items_view(items@),
                self@.1 == use_root,
                use_root == old(self)@.1,
                ms0 == old(self)@.0,
                default_mod_path@.len() > 0,
                forall|j: int| 0 <= j < items@.len() ==> ((#[trigger] items@[j]).mod_path matches Some(p) ==> p@.len() > 0),
                add_items_state(ms0, use_root, default_mod_path@, iv, i as int) == (self@.0, None::<(int, Seq<char>)>),
            decreases items@.len() - i,
        {
            let it = &items[i];
            assert(iv[i as int] == (match it.mod_path {
                Some(p) => Some(p@),
                None => None::<Seq<char>>,
            }, it.name@, it.item@));
            let path: &str = match &it.mod_path {
                Some(p) => p.as_str(),
                None => default_mod_path,
            };
            let res = self.add_unique(path, it.name.as_str(), it.item.clone());
            match res {
                Ok(()) => {},
                Err(e) => {
                    proof {
                        let k = (items@.len() as int);
                        lemma_add_items_stops(ms0, use_root, default_mod_path@, iv, i + 1, k);
                    }
                    return Err(e);
                },
            }
            i += 1;
        }
        Ok(())
    }
}

proof fn lemma_add_items_stops(
    ms: Seq<ModView>,
    use_relative_root: bool,
    default_mod_path: Seq<char>,
    items: Seq<ModItemView>,
    n: int,
    m: int,
)
    requires
        n <= m,
        add_items_state(ms, use_relative_root, default_mod_path, items, n).1 is Some,
    ensures
        add_items_state(ms, use_relative_root, default_mod_path, items, m)
            == add_items_state(ms, use_relative_root, default_mod_path, items, n),
    decreases m - n,
{
    if n < m {
        lemma_add_items_stops(ms, use_relative_root, default_mod_path, items, n, m - 1);
    }
}


// ─── laws ───────────────────────────────────────────────────────────────────

proof fn lemma_position_of_last(ms: Seq<ModView>, path: Seq<Seq<char>>)
    ensures
        match position_of(ms, path) {
            Some(i) => forall|k: int| i < k < ms.len() ==> #[trigger] ms[k].0 != path,
            None => true,
        },
    decreases ms.len(),
{
    lemma_position_of(ms, path);
    if ms.len() > 0 && ms.last().0 != path {
        let init = ms.drop_last();
        lemma_position_of_last(init, path);
        match position_of(ms, path) {
            Some(i) => {
                assert forall|k: int| i < k < ms.len() implies #[trigger] ms[k].0 != path by {
                    if k < ms.len() - 1 {
                        assert(init[k].0 != path);
                        assert(init[k] == ms[k]);
                    }
                }
            },
            None => {},
        }
    }
}

proof fn lemma_position_of_push(ms: Seq<ModView>, m: ModView, path: Seq<Seq<char>>)
    requires
        position_of(ms, path) is Some,
        m.0 != path,
    ensures
        position_of(ms.push(m), path) == position_of(ms, path),
{
    assert(ms.push(m).drop_last() =~= ms);
}

proof fn lemma_position_of_update(ms: Seq<ModView>, i: int, m: ModView, path: Seq<Seq<char>>)
    requires
        0 <= i < ms.len(),
        m.0 == ms[i].0,
    ensures
        position_of(ms.update(i, m), path) == position_of(ms, path),
    decreases ms.len(),
{
    if ms.len() > 0 {
        let u = ms.update(i, m);
        if i < ms.len() - 1 {
            assert(u.drop_last() =~= ms.drop_last().update(i, m));
            lemma_position_of_update(ms.drop_last(), i, m, path);
        }
        assert(u.last().0 == ms.last().0);
        if i == ms.len() - 1 {
            assert(u.drop_last() =~= ms.drop_last());
        }
    }
}

proof fn lemma_ensure_upto_keeps_found(ms: Seq<ModView>, names: Seq<Seq<char>>, k: int, use_relative_root: bool, j: int)
    requires
        1 <= j <= k <= names.len(),
    ensures
        position_of(ensure_upto(ms, names, k, use_relative_root), names.take(j)) is Some,
    decreases k,
{
    if j == k {
        lemma_ensure_upto_found(ms, names, k, use_relative_root);
    } else {
        lemma_ensure_upto_keeps_found(ms, names, k - 1, use_relative_root, j);
        let prev = ensure_upto(ms, names, k - 1, use_relative_root);
        if position_of(prev, names.take(k)) is None {
            let pushed = ensure_upto(ms, names, k, use_relative_root);
            assert(pushed.last().0 == names.take(k)) by {
                if k == 1 {
                    assert(seq![names[0]] =~= names.take(1));
                }
            }
            assert(names.take(k).len() != names.take(j).len());
            lemma_position_of_push(prev, pushed.last(), names.take(j));
            assert(pushed =~= prev.push(pushed.last()));
        }
    }
}

proof fn lemma_ensure_upto_noop(ms: Seq<ModView>, names: Seq<Seq<char>>, k: int, use_relative_root: bool)
    requires
        0 <= k <= names.len(),
        forall|j: int| 1 <= j <= k ==> #[trigger] position_of(ms, names.take(j)) is Some,
    ensures
        ensure_upto(ms, names, k, use_relative_root) == ms,
    decreases k,
{
    if k > 0 {
        lemma_ensure_upto_noop(ms, names, k - 1, use_relative_root);
        assert(position_of(ms, names.take(k)) is Some);
    }
}

proof fn lemma_unique_position_last(u: Seq<(Seq<char>, usize)>, id: Seq<char>)
    ensures
        match unique_position(u, id) {
            Some(p) => 0 <= p < u.len() && u[p].0 == id && forall|q: int| p < q < u.len() ==> #[trigger] u[q].0 != id,
            None => forall|q: int| 0 <= q < u.len() ==> #[trigger] u[q].0 != id,
        },
    decreases u.len(),
{
    if u.len() > 0 && u.last().0 != id {
        lemma_unique_position_last(u.drop_last(), id);
        assert forall|q: int| 0 <= q < u.len() - 1 implies #[trigger] u[q] == u.drop_last()[q] by {}
    }
}

proof fn lemma_unique_position_found(u: Seq<(Seq<char>, usize)>, id: Seq<char>, p: int)
    requires
        0 <= p < u.len(),
        u[p].0 == id,
        forall|q: int| p < q < u.len() ==> #[trigger] u[q].0 != id,
    ensures
        unique_position(u, id) == Some(p),
    decreases u.len(),
{
    if p < u.len() - 1 {
        assert(u.last().0 != id) by {
            assert(u[u.len() - 1].0 != id);
        }
        assert forall|q: int| p < q < u.len() - 1 implies #[trigger] u.drop_last()[q].0 != id by {
            assert(u.drop_last()[q] == u[q]);
        }
        lemma_unique_position_found(u.drop_last(), id, p);
    }
}

proof fn lemma_unique_insert_found(u: Seq<(Seq<char>, usize)>, id: Seq<char>, v: usize)
    ensures
        unique_position(unique_insert(u, id, v), id) matches Some(p) && unique_insert(u, id, v)[p] == (id, v),
{
    lemma_unique_position_last(u, id);
    let r = unique_insert(u, id, v);
    match unique_position(u, id) {
        Some(p) => {
            assert forall|q: int| p < q < r.len() implies #[trigger] r[q].0 != id by {
                assert(r[q] == u[q]);
            }
            lemma_unique_position_found(r, id, p);
        },
        None => {
            assert(r.last() == (id, v));
        },
    }
}

/// Whether every module holds fewer than `usize::MAX` items.
pub open spec fn contents_bounded(ms: Seq<ModView>) -> bool {
    forall|k: int| 0 <= k < ms.len() ==> (#[trigger] ms[k]).4.len() < usize::MAX
}

proof fn lemma_ensure_upto_bounded(ms: Seq<ModView>, names: Seq<Seq<char>>, k: int, use_relative_root: bool)
    requires
        contents_bounded(ms),
    ensures
        contents_bounded(ensure_upto(ms, names, k, use_relative_root)),
    decreases k,
{
    if k > 0 {
        lemma_ensure_upto_bounded(ms, names, k - 1, use_relative_root);
        let prev = ensure_upto(ms, names, k - 1, use_relative_root);
        let r = ensure_upto(ms, names, k, use_relative_root);
        assert forall|j: int| 0 <= j < r.len() implies (#[trigger] r[j]).4.len() < usize::MAX by {
            if j < prev.len() {
                assert(r[j] == prev[j]);
            }
        }
    }
}

/// Adding an item under a unique id a second time, right after it was
/// added, leaves the module tree as it is and succeeds.
pub proof fn law_add_unique_is_idempotent(
    ms: Seq<ModView>,
    use_relative_root: bool,
    path: Seq<char>,
    id: Seq<char>,
    content: Seq<char>,
)
    requires
        contents_bounded(ms),
        add_unique_state(ms, use_relative_root, path, id, content).1 is None,
    ensures
        add_unique_state(
            add_unique_state(ms, use_relative_root, path, id, content).0,
            use_relative_root,
            path,
            id,
            content,
        ) == (add_unique_state(ms, use_relative_root, path, id, content).0, None::<Seq<char>>),
{
    let names = path_names(path);
    lemma_split_on_nonempty(path, path_sep());
    let n = names.len() as int;
    let ms1 = ensure_module(ms, path, use_relative_root);
    lemma_ensure_upto_found(ms, names, n, use_relative_root);
    lemma_ensure_upto_bounded(ms, names, n, use_relative_root);
    assert(names.take(n) =~= names);
    let i = module_position(ms1, path);
    lemma_position_of(ms1, names);
    let first = add_unique_state(ms, use_relative_root, path, id, content);
    let ms2 = first.0;
    let m2 = match add_unique_spec(ms1[i], id, content) {
        Ok(m) => m,
        Err(_) => ms1[i],
    };
    assert(m2.0 == ms1[i].0);
    assert(ms2 == ms1.update(i, m2));
    // The module and its ancestors are all still there.
    assert forall|j: int| 1 <= j <= n implies #[trigger] position_of(ms2, names.take(j)) is Some by {
        lemma_ensure_upto_keeps_found(ms, names, n, use_relative_root, j);
        lemma_position_of_update(ms1, i, m2, names.take(j));
    }
    lemma_ensure_upto_noop(ms2, names, n, use_relative_root);
    lemma_position_of_update(ms1, i, m2, names);
    assert(module_position(ms2, path) == i);
    assert(ms2[i] == m2);
    // The id now names the item.
    let m = ms1[i];
    lemma_unique_position_last(m.5, id);
    let found = match unique_position(m.5, id) {
        Some(p) => m.5[p].1 < m.4.len(),
        None => false,
    };
    if found {
        assert(m2 == m);
        assert(add_unique_spec(m2, id, content) == Ok::<ModView, Seq<char>>(m2));
    } else {
        assert(m.4.len() < usize::MAX);
        lemma_unique_insert_found(m.5, id, m.4.len() as usize);
        assert(m2.4[m.4.len() as int] == content);
        assert(add_unique_spec(m2, id, content) == Ok::<ModView, Seq<char>>(m2));
    }
    assert(ms2.update(i, m2) =~= ms2);
}

} // verus!
