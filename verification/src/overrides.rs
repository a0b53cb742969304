//! Overrides of generated struct fields chosen by regular expressions: a
//! field whose struct and name match an override's patterns takes the
//! override's Rust type, and a field whose name matches a custom padding
//! pattern becomes padding.

use vstd::prelude::*;

use crate::text::{chars_of, string_of};

verus! {

/// Whether `regex::Regex::new` accepts the pattern.
pub uninterp spec fn regex_compiles(pattern: Seq<char>) -> bool;

/// Whether the regular expression of the pattern matches somewhere in the
/// text (`regex::Regex::is_match`).
pub uninterp spec fn regex_is_match(pattern: Seq<char>, text: Seq<char>) -> bool;

/// `regex::Regex::new(pattern)` and, when it compiles, `is_match(text)`:
/// none for a pattern that does not compile, else whether it matches.
#[verifier::external_body]
fn regex_match(pattern: &str, text: &str) -> (r: Option<bool>)
    ensures
        match r {
            Some(b) => regex_compiles(pattern@) && b == regex_is_match(pattern@, text@),
            None => !regex_compiles(pattern@),
        },
{
    match regex::Regex::new(pattern) {
        Ok(re) => Some(re.is_match(text)),
        Err(_) => None,
    }
}

/// An override of the Rust type of struct fields: the pattern of the
/// fully qualified struct names and of the field names it applies to, and
/// the type.
pub struct OverrideStructFieldType {
    pub struct_regex: String,
    pub field_regex: String,
    pub override_type: String,
}

/// Abstract override: the two patterns and the type.
pub type OverrideView = (Seq<char>, Seq<char>, Seq<char>);

impl View for OverrideStructFieldType {
    type V = OverrideView;

    open spec fn view(&self) -> OverrideView {
        (self.struct_regex@, self.field_regex@, self.override_type@)
    }
}

/// The abstract values of a list of overrides.
pub open spec fn overrides_view(os: Seq<OverrideStructFieldType>) -> Seq<OverrideView> {
    Seq::new(os.len(), |i: int| os[i]@)
}

/// Whether every pattern of the overrides compiles.
pub open spec fn overrides_compile(os: Seq<OverrideView>) -> bool {
    forall|i: int| 0 <= i < os.len() ==> regex_compiles((#[trigger] os[i]).0) && regex_compiles(os[i].1)
}

/// The type of the first override whose struct pattern matches the struct
/// name and whose field pattern matches the field name, if any.
pub open spec fn first_override(os: Seq<OverrideView>, struct_name: Seq<char>, field_name: Seq<char>) -> Option<
    Seq<char>,
>
    decreases os.len(),
{
    if os.len() == 0 {
        None
    } else if regex_is_match(os[0].0, struct_name) && regex_is_match(os[0].1, field_name) {
        Some(os[0].2)
    } else {
        first_override(os.drop_first(), struct_name, field_name)
    }
}

/// The Rust type that the first matching override gives the field
/// `field_name` of the struct `struct_name`, if one does.
pub fn field_type_override(overrides: &Vec<OverrideStructFieldType>, struct_name: &str, field_name: &str) -> (r:
    Option<String>)
    requires
        overrides_compile(overrides_view(overrides@)),
    ensures
        match r {
            Some(t) => first_override(overrides_view(overrides@), struct_name@, field_name@) == Some(t@),
            None => first_override(overrides_view(overrides@), struct_name@, field_name@) is None,
        },
{
    let ghost ov = overrides_view(overrides@);
    let mut i: usize = 0;
    assert(ov.skip(0) =~= ov);
    while i < overrides.len()
        invariant
            i <= overrides@.len(),
            ov == overrides_view(overrides@),
            overrides_compile(ov),
            first_override(ov, struct_name@, field_name@) == first_override(ov.skip(i as int), struct_name@, field_name@),
        decreases overrides@.len() - i,
    {
        let o = &overrides[i];
        assert(ov[i as int] == o@);
        assert(ov.skip(i as int)[0] == ov[i as int]);
        assert(ov.skip(i as int).drop_first() =~= ov.skip(i + 1));
        let s = regex_match(o.struct_regex.as_str(), struct_name);
        let f = regex_match(o.field_regex.as_str(), field_name);
        if s == Some(true) && f == Some(true) {
            return Some(string_of(&chars_of(o.override_type.as_str())));
        }
        i += 1;
    }
    None
}

/// Whether every pattern of the overrides compiles.
pub fn all_overrides_compile(overrides: &Vec<OverrideStructFieldType>) -> (r: bool)
    ensures
        r == overrides_compile(overrides_view(overrides@)),
{
    let ghost ov = overrides_view(overrides@);
    let mut i: usize = 0;
    while i < overrides.len()
        invariant
            i <= overrides@.len(),
            ov == overrides_view(overrides@),
            forall|k: int| 0 <= k < i ==> regex_compiles((#[trigger] ov[k]).0) && regex_compiles(ov[k].1),
        decreases overrides@.len() - i,
    {
        let o = &overrides[i];
        let ghost p = ov[i as int];
        assert(p == o@);
        if regex_match(o.struct_regex.as_str(), "").is_none() {
            assert(!regex_compiles(p.0));
            return false;
        }
        if regex_match(o.field_regex.as_str(), "").is_none() {
            assert(!regex_compiles(p.1));
            return false;
        }
        i += 1;
    }
    true
}

/// The overriding type of a field, when every pattern compiles: none when
/// one does not, else what `field_type_override` gives.
pub fn checked_field_type_override(
    overrides: &Vec<OverrideStructFieldType>,
    struct_name: &str,
    field_name: &str,
) -> (r: Option<Option<String>>)
    ensures
        r is None <==> !overrides_compile(overrides_view(overrides@)),
        r matches Some(Some(t)) ==> first_override(overrides_view(overrides@), struct_name@, field_name@) == Some(
            t@,
        ),
        r matches Some(None) ==> first_override(overrides_view(overrides@), struct_name@, field_name@) is None,
{
    if !all_overrides_compile(overrides) {
        return None;
    }
    Some(field_type_override(overrides, struct_name, field_name))
}

/// The Rust type of a member: the overriding type and `true` when an
/// override applies, else its own type and `false`.
pub fn get_rust_type(
    overrides: &Vec<OverrideStructFieldType>,
    fully_qualified_name: &str,
    rust_type: &str,
    member_name: &str,
) -> (r: (String, bool))
    requires
        overrides_compile(overrides_view(overrides@)),
    ensures
        match first_override(overrides_view(overrides@), fully_qualified_name@, member_name@) {
            Some(t) => r.0@ == t && r.1,
            None => r.0@ == rust_type@ && !r.1,
        },
{
    match field_type_override(overrides, fully_qualified_name, member_name) {
        Some(t) => (t, true),
        None => (string_of(&chars_of(rust_type)), false),
    }
}

/// Whether every custom padding pattern compiles.
pub open spec fn patterns_compile(patterns: Seq<Seq<char>>) -> bool {
    forall|i: int| 0 <= i < patterns.len() ==> regex_compiles(#[trigger] patterns[i])
}

/// The texts of a list of strings.
pub open spec fn patterns_view(patterns: Seq<String>) -> Seq<Seq<char>> {
    Seq::new(patterns.len(), |i: int| patterns[i]@)
}

/// Whether a field whose name matches one of the custom padding patterns
/// is padding.
pub fn is_custom_padding_field(patterns: &Vec<String>, name: &str) -> (r: bool)
    requires
        patterns_compile(patterns_view(patterns@)),
    ensures
        r == exists|i: int| 0 <= i < patterns@.len() && regex_is_match(#[trigger] patterns_view(patterns@)[i], name@),
{
    let ghost pv = patterns_view(patterns@);
    let mut i: usize = 0;
    while i < patterns.len()
        invariant
            i <= patterns@.len(),
            pv == patterns_view(patterns@),
            patterns_compile(pv),
            forall|k: int| 0 <= k < i ==> !regex_is_match(#[trigger] pv[k], name@),
        decreases patterns@.len() - i,
    {
        assert(pv[i as int] == patterns@[i as int]@);
        let m = regex_match(patterns[i].as_str(), name);
        if m == Some(true) {
            return true;
        }
        i += 1;
    }
    false
}

/// Whether a field is custom padding, when every pattern compiles: none
/// when one does not, else what `is_custom_padding_field` gives.
pub fn checked_is_custom_padding_field(patterns: &Vec<String>, name: &str) -> (r: Option<bool>)
    ensures
        r is None <==> !patterns_compile(patterns_view(patterns@)),
        r matches Some(b) ==> b == exists|i: int|
            0 <= i < patterns@.len() && regex_is_match(#[trigger] patterns_view(patterns@)[i], name@),
{
    let ghost pv = patterns_view(patterns@);
    let mut i: usize = 0;
    while i < patterns.len()
        invariant
            i <= patterns@.len(),
            pv == patterns_view(patterns@),
            forall|k: int| 0 <= k < i ==> regex_compiles(#[trigger] pv[k]),
        decreases patterns@.len() - i,
    {
        assert(pv[i as int] == patterns@[i as int]@);
        if regex_match(patterns[i].as_str(), "").is_none() {
            return None;
        }
        i += 1;
    }
    Some(is_custom_padding_field(patterns, name))
}

} // verus!
