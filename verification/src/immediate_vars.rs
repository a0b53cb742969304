//! Variables declared `var<immediate>` (push constants): the WESL compiler
//! reads them as `var<private>`, so their names are collected before
//! compiling and their address space is restored in the compiled WGSL.

use vstd::prelude::*;

use crate::adt::{contains_string, names_view};
use crate::text::{chars_of, push_all, replace_all, replace_exec, string_of};

verus! {

/// The names that the pattern `var<immediate>\s+(\w+)\s*:` captures in
/// `source`, in the order of their declarations.
pub uninterp spec fn immediate_var_captures(source: Seq<char>) -> Seq<Seq<char>>;

/// The names of the `var<immediate>` declarations of `source`, in order:
/// `regex::Regex::captures_iter` with the pattern of
/// `immediate_var_captures`, taking the first group of each match. The
/// pattern is valid, so compiling it does not fail.
#[verifier::external_body]
fn immediate_var_matches(source: &str) -> (r: Vec<String>)
    ensures
        names_view(r@) == immediate_var_captures(source@),
{
    let re = regex::Regex::new(r"var<immediate>\s+(\w+)\s*:").unwrap();
    re.captures_iter(source).map(|cap| cap[1].to_string()).collect()
}

/// The names of a list, each once, in the order of their first occurrence.
pub open spec fn distinct_names(names: Seq<Seq<char>>) -> Seq<Seq<char>>
    decreases names.len(),
{
    if names.len() == 0 {
        Seq::empty()
    } else {
        let rest = distinct_names(names.drop_last());
        if rest.contains(names.last()) {
            rest
        } else {
            rest.push(names.last())
        }
    }
}

/// The names of the variables that `source` declares `var<immediate>`,
/// each once, in the order of their first declaration.
pub fn collect_immediate_var_names(source: &str) -> (r: Vec<String>)
    ensures
        names_view(r@) == distinct_names(immediate_var_captures(source@)),
{
    let found = immediate_var_matches(source);
    let ghost fv = names_view(found@);
    let mut out: Vec<String> = Vec::new();
    let mut i: usize = 0;
    while i < found.len()
        invariant
            i <= found@.len(),
            fv == names_view(found@),
            names_view(out@) == distinct_names(fv.take(i as int)),
        decreases found@.len() - i,
    {
        assert(fv.take(i + 1).drop_last() =~= fv.take(i as int));
        assert(fv.take(i + 1).last() == found@[i as int]@);
        if !contains_string(&out, &found[i]) {
            let ghost before = names_view(out@);
            out.push(found[i].clone());
            assert(names_view(out@) =~= before.push(found@[i as int]@));
        }
        i += 1;
    }
    assert(fv.take(i as int) =~= fv);
    out
}

/// `source` with `var<private> NAME` turned back into `var<immediate> NAME`
/// for each of the first `n` names, one name after the other.
pub open spec fn restored_immediate_vars(source: Seq<char>, names: Seq<Seq<char>>, n: int) -> Seq<char>
    decreases n,
{
    if n <= 0 {
        source
    } else {
        replace_all(
            restored_immediate_vars(source, names, n - 1),
            "var<private> "@ + names[n - 1],
            "var<immediate> "@ + names[n - 1],
        )
    }
}

/// Turns `var<private> NAME` back into `var<immediate> NAME` in
/// `wgsl_source` for each name, in the order of `immediate_names`.
pub fn restore_immediate_vars(wgsl_source: String, immediate_names: &Vec<String>) -> (r: String)
    ensures
        r@ == restored_immediate_vars(wgsl_source@, names_view(immediate_names@), immediate_names@.len() as int),
{
    let ghost nv = names_view(immediate_names@);
    let mut out = chars_of(wgsl_source.as_str());
    let mut i: usize = 0;
    while i < immediate_names.len()
        invariant
            i <= immediate_names@.len(),
            nv == names_view(immediate_names@),
            out@ == restored_immediate_vars(wgsl_source@, nv, i as int),
        decreases immediate_names@.len() - i,
    {
        let name = chars_of(immediate_names[i].as_str());
        let mut from = chars_of("var<private> ");
        push_all(&mut from, &name);
        let mut to = chars_of("var<immediate> ");
        push_all(&mut to, &name);
        proof {
            reveal_strlit("var<private> ");
        }
        assert(nv[i as int] == immediate_names@[i as int]@);
        out = replace_exec(&out, &from, &to);
        i += 1;
    }
    string_of(&out)
}

} // verus!
