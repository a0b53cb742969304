//! Rust identifiers made from shader names.

use vstd::prelude::*;

use case::CaseExt;
use heck::ToPascalCase;

use crate::text::{chars_of, replace_all, replace_exec, string_of};

verus! {

/// What `char::is_alphanumeric` says of a character (Unicode
/// `Alphabetic` or `Numeric`).
pub uninterp spec fn std_is_alphanumeric(c: char) -> bool;

/// What `str::to_uppercase` makes of a text (Unicode upper-casing).
pub uninterp spec fn std_to_uppercase(s: Seq<char>) -> Seq<char>;

/// What `str::to_lowercase` makes of a text (Unicode lower-casing).
pub uninterp spec fn std_to_lowercase(s: Seq<char>) -> Seq<char>;

/// What `heck::ToPascalCase::to_pascal_case` makes of a text.
pub uninterp spec fn heck_pascal_case(s: Seq<char>) -> Seq<char>;


/// Calls `char::is_alphanumeric`. The contract names the result.
#[verifier::external_body]
fn char_is_alphanumeric(c: char) -> (r: bool)
    ensures
        r == std_is_alphanumeric(c),
{
    c.is_alphanumeric()
}

/// Calls `str::to_uppercase`. The contract names the result.
#[verifier::external_body]
fn str_to_uppercase(s: &str) -> (r: String)
    ensures
        r@ == std_to_uppercase(s@),
{
    s.to_uppercase()
}

/// Calls `str::to_lowercase`. The contract names the result.
#[verifier::external_body]
pub(crate) fn str_to_lowercase(s: &str) -> (r: String)
    ensures
        r@ == std_to_lowercase(s@),
{
    s.to_lowercase()
}

/// Calls `heck::ToPascalCase::to_pascal_case`, which splits a text into
/// words and writes each word capitalized, without separators. The
/// contract names the result.
#[verifier::external_body]
fn to_pascal_case(s: &str) -> (r: String)
    ensures
        r@ == heck_pascal_case(s@),
{
    s.to_pascal_case()
}

/// Whether a character is an ASCII upper-case letter.
pub open spec fn is_ascii_upper(c: char) -> bool {
    'A' <= c && c <= 'Z'
}

/// A text in snake case as `case::CaseExt::to_snake` writes it: every ASCII
/// upper-case letter lower-cased, and preceded by `_` unless it is the
/// first character; every other character kept.
pub open spec fn case_snake(s: Seq<char>) -> Seq<char>
    decreases s.len(),
{
    if s.len() == 0 {
        Seq::empty()
    } else {
        let c = s.last();
        case_snake(s.drop_last()) + if is_ascii_upper(c) {
            (if s.len() > 1 {
                seq!['_']
            } else {
                Seq::empty()
            }) + seq![(c as int + 32) as char]
        } else {
            seq![c]
        }
    }
}

/// Calls `case::CaseExt::to_snake` (case-1.0.0 src/lib.rs), which puts `_`
/// before every ASCII upper-case letter but the first character and
/// lower-cases it.
#[verifier::external_body]
fn to_snake(s: &str) -> (r: String)
    ensures
        r@ == case_snake(s@),
{
    s.to_snake()
}

/// Whether a character may stay in an identifier: alphanumeric or `_`.
pub open spec fn is_ident_char(c: char) -> bool {
    std_is_alphanumeric(c) || c == '_'
}

/// The characters of `s` that may stay in an identifier, in order.
pub open spec fn ident_chars(s: Seq<char>) -> Seq<char>
    decreases s.len(),
{
    if s.len() == 0 {
        Seq::empty()
    } else if is_ident_char(s.last()) {
        ident_chars(s.drop_last()).push(s.last())
    } else {
        ident_chars(s.drop_last())
    }
}

/// Keeps the characters that may stay in an identifier.
pub fn keep_ident_chars(s: &[char]) -> (out: Vec<char>)
    ensures
        out@ == ident_chars(s@),
{
    let mut out: Vec<char> = Vec::new();
    let mut i: usize = 0;
    while i < s.len()
        invariant
            i <= s@.len(),
            out@ == ident_chars(s@.take(i as int)),
        decreases s@.len() - i,
    {
        assert(s@.take(i + 1).drop_last() =~= s@.take(i as int));
        if char_is_alphanumeric(s[i]) || s[i] == '_' {
            out.push(s[i]);
        }
        i += 1;
    }
    assert(s@.take(i as int) =~= s@);
    out
}

/// `v` without the characters that cannot stand in an identifier, in
/// PascalCase.
pub fn sanitize_and_pascal_case(v: &str) -> (out: String)
    ensures
        out@ == heck_pascal_case(ident_chars(v@)),
{
    let kept = string_of(&keep_ident_chars(&chars_of(v)));
    to_pascal_case(kept.as_str())
}

/// `v` without the characters that cannot stand in an identifier, in
/// UPPER_SNAKE_CASE.
pub fn sanitized_upper_snake_case(v: &str) -> (out: String)
    ensures
        out@ == std_to_uppercase(case_snake(ident_chars(v@))),
{
    let kept = string_of(&keep_ident_chars(&chars_of(v)));
    let snake = to_snake(kept.as_str());
    str_to_uppercase(snake.as_str())
}

/// The name of a shader registry variant for a shader entry: the entry name
/// without non-identifier characters, in PascalCase.
pub fn create_enum_variant_name(v: &str) -> (out: String)
    ensures
        out@ == heck_pascal_case(ident_chars(v@)),
{
    sanitize_and_pascal_case(v)
}

/// A name with `::` and spaces made into `_` and the other non-identifier
/// characters dropped.
pub open spec fn canonical_chars(name: Seq<char>) -> Seq<char> {
    ident_chars(replace_all(replace_all(name, seq![':', ':'], seq!['_']), seq![' '], seq!['_']))
}

/// A Rust variable name for a shader item: `::` and spaces become `_`,
/// other non-identifier characters are dropped, and the result is upper
/// case for a constant, lower case otherwise.
pub fn create_canonical_variable_name(name: &str, is_const: bool) -> (out: String)
    ensures
        is_const ==> out@ == std_to_uppercase(canonical_chars(name@)),
        !is_const ==> out@ == std_to_lowercase(canonical_chars(name@)),
{
    let sep = chars_of("::");
    let space = chars_of(" ");
    let underscore = chars_of("_");
    proof {
        reveal_strlit("::");
        reveal_strlit(" ");
        reveal_strlit("_");
        assert(sep@ =~= seq![':', ':']);
        assert(space@ =~= seq![' ']);
        assert(underscore@ =~= seq!['_']);
    }
    let a = replace_exec(&chars_of(name), &sep, &underscore);
    let b = replace_exec(&a, &space, &underscore);
    let c = string_of(&keep_ident_chars(&b));
    if is_const {
        str_to_uppercase(c.as_str())
    } else {
        str_to_lowercase(c.as_str())
    }
}

} // verus!
