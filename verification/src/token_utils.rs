//! The shapes of generated Rust items that recur: struct definitions,
//! constructors, impl blocks, constants, doc attributes and fields, as
//! Rust source text.

use vstd::prelude::*;

use crate::struct_layout::{derive_attribute, generate_derive_attributes};
use crate::text::{chars_of, join_exec, join_with, push_all, string_of};

verus! {

/// Whether a text has the shape of a string literal: it starts and ends
/// with a double quote.
pub open spec fn is_quoted(lit: Seq<char>) -> bool {
    lit.len() >= 2 && lit[0] == '"' && lit.last() == '"'
}

/// Whether every character of a text is printable ASCII (space to `~`)
/// other than `"` and `\`: the characters that a string literal holds as
/// they are.
pub open spec fn is_plain_text(s: Seq<char>) -> bool {
    forall|i: int| 0 <= i < s.len() ==> ' ' <= #[trigger] s[i] <= '~' && s[i] != '"' && s[i] != '\\'
}

/// A text between double quotes.
pub open spec fn quoted(s: Seq<char>) -> Seq<char> {
    seq!['"'] + s + seq!['"']
}

/// Whether `lit` is a string literal of the text `s`: it is quoted, and a
/// plain text stands in it unescaped.
pub open spec fn is_literal_of(lit: Seq<char>, s: Seq<char>) -> bool {
    is_quoted(lit) && (is_plain_text(s) ==> lit == quoted(s))
}

/// `proc_macro2::Literal::string`, written out: a string literal holding
/// the text, in double quotes. Inside a procedural macro the compiler's
/// literal escapes the text, outside it `proc_macro2`'s own escaper does;
/// both leave printable ASCII other than `"` and `\` as it is, so only
/// for such a text does the contract give the literal exactly. How other
/// characters are escaped is left unsaid.
#[verifier::external_body]
fn string_literal(s: &str) -> (r: String)
    ensures
        is_literal_of(r@, s@),
{
    proc_macro2::Literal::string(s).to_string()
}

/// The texts of a list of strings.
pub open spec fn texts(v: Seq<String>) -> Seq<Seq<char>> {
    Seq::new(v.len(), |i: int| v[i]@)
}

/// The texts of a list of strings, as character vectors.
fn char_vecs(v: &Vec<String>) -> (r: Vec<Vec<char>>)
    ensures
        r.deep_view() == texts(v@),
{
    let mut r: Vec<Vec<char>> = Vec::new();
    let mut i: usize = 0;
    while i < v.len()
        invariant
            i <= v@.len(),
            r@.len() == i,
            r.deep_view() == texts(v@).take(i as int),
        decreases v@.len() - i,
    {
        let ghost before = r.deep_view();
        r.push(chars_of(v[i].as_str()));
        assert(r.deep_view()[i as int] =~= r@[i as int]@);
        assert(r.deep_view() =~= texts(v@).take(i + 1));
        i += 1;
    }
    assert(texts(v@).take(i as int) =~= texts(v@));
    r
}

/// The text joined by `sep`.
fn joined(v: &Vec<String>, sep: &str) -> (r: Vec<char>)
    ensures
        r@ == join_with(texts(v@), sep@),
{
    join_exec(&char_vecs(v), &chars_of(sep))
}

/// A brace-delimited body: `{}` when there are no items, otherwise each
/// item on a line of its own, indented by `indent` plus four spaces, the
/// items separated by `sep`, and the closing brace indented by `indent`.
pub open spec fn braced(items: Seq<Seq<char>>, sep: Seq<char>, indent: Seq<char>) -> Seq<char> {
    if items.len() == 0 {
        "{}"@
    } else {
        "{\n"@ + indent + "    "@ + join_with(items, sep + "\n"@ + indent + "    "@) + "\n"@ + indent + "}"@
    }
}

fn braced_exec(items: &Vec<String>, sep: &str, indent: &str) -> (r: Vec<char>)
    ensures
        r@ == braced(texts(items@), sep@, indent@),
{
    if items.len() == 0 {
        return chars_of("{}");
    }
    let mut full_sep = chars_of(sep);
    push_all(&mut full_sep, &chars_of("\n"));
    push_all(&mut full_sep, &chars_of(indent));
    push_all(&mut full_sep, &chars_of("    "));
    let body = join_exec(&char_vecs(items), &full_sep);
    let mut out = chars_of("{\n");
    push_all(&mut out, &chars_of(indent));
    push_all(&mut out, &chars_of("    "));
    push_all(&mut out, &body);
    push_all(&mut out, &chars_of("\n"));
    push_all(&mut out, &chars_of(indent));
    push_all(&mut out, &chars_of("}"));
    out
}

/// An attribute line: the attribute and a newline, or nothing for no
/// attribute.
pub open spec fn attribute_line(attr: Seq<char>) -> Seq<char> {
    if attr.len() == 0 {
        Seq::empty()
    } else {
        attr + "\n"@
    }
}

/// A struct definition: its derive attribute and `repr` attribute, each
/// on a line of its own when present, then `vis struct Name` and the
/// fields, one per line.
pub open spec fn struct_definition_text(
    visibility: Seq<char>,
    struct_name: Seq<char>,
    derives: Seq<Seq<char>>,
    repr: Option<Seq<char>>,
    fields: Seq<Seq<char>>,
) -> Seq<char> {
    attribute_line(derive_attribute(derives)) + attribute_line(
        match repr {
            Some(r) => r,
            None => Seq::empty(),
        },
    ) + visibility + " struct "@ + struct_name + " "@ + braced(fields, ","@, Seq::empty())
}

/// A struct definition with the given derives, `repr` attribute and
/// fields.
pub fn generate_struct_definition(
    visibility: &str,
    struct_name: &str,
    derives: &Vec<String>,
    repr: Option<&str>,
    fields: &Vec<String>,
) -> (r: String)
    ensures
        r@ == struct_definition_text(
            visibility@,
            struct_name@,
            texts(derives@),
            match repr {
                Some(x) => Some(x@),
                None => None,
            },
            texts(fields@),
        ),
{
    let derive = generate_derive_attributes(derives);
    assert(Seq::new(derives@.len(), |i: int| derives@[i]@) =~= texts(derives@));
    let mut out: Vec<char> = Vec::new();
    let dc = chars_of(derive.as_str());
    if dc.len() > 0 {
        push_all(&mut out, &dc);
        push_all(&mut out, &chars_of("\n"));
    }
    match repr {
        Some(x) => {
            let rc = chars_of(x);
            if rc.len() > 0 {
                push_all(&mut out, &rc);
                push_all(&mut out, &chars_of("\n"));
            }
        },
        None => {},
    }
    push_all(&mut out, &chars_of(visibility));
    push_all(&mut out, &chars_of(" struct "));
    push_all(&mut out, &chars_of(struct_name));
    push_all(&mut out, &chars_of(" "));
    let body = braced_exec(fields, ",", "");
    push_all(&mut out, &body);
    proof {
        reveal_strlit("");
        assert(""@ =~= Seq::<char>::empty());
        assert(dc@ == derive_attribute(texts(derives@)));
        let rv = match repr {
            Some(x) => x@,
            None => Seq::<char>::empty(),
        };
        assert(out@ =~= attribute_line(derive_attribute(texts(derives@))) + attribute_line(rv) + visibility@
            + " struct "@ + struct_name@ + " "@ + braced(texts(fields@), ","@, Seq::empty()));
    }
    string_of(&out)
}

/// A `const fn` constructor: the parameters, then a body that builds the
/// struct from the field assignments, one per line.
pub open spec fn constructor_function_text(
    visibility: Seq<char>,
    function_name: Seq<char>,
    struct_name: Seq<char>,
    parameters: Seq<Seq<char>>,
    field_assignments: Seq<Seq<char>>,
) -> Seq<char> {
    visibility + " const fn "@ + function_name + "("@ + join_with(parameters, ", "@) + ") -> "@
        + struct_name + " {\n    "@ + struct_name + " "@ + braced(field_assignments, ","@, "    "@)
        + "\n}"@
}

/// A `const fn` constructor of a struct.
pub fn generate_constructor_function(
    visibility: &str,
    function_name: &str,
    struct_name: &str,
    parameters: &Vec<String>,
    field_assignments: &Vec<String>,
) -> (r: String)
    ensures
        r@ == constructor_function_text(
            visibility@,
            function_name@,
            struct_name@,
            texts(parameters@),
            texts(field_assignments@),
        ),
{
    let mut out = chars_of(visibility);
    push_all(&mut out, &chars_of(" const fn "));
    push_all(&mut out, &chars_of(function_name));
    push_all(&mut out, &chars_of("("));
    push_all(&mut out, &joined(parameters, ", "));
    push_all(&mut out, &chars_of(") -> "));
    push_all(&mut out, &chars_of(struct_name));
    push_all(&mut out, &chars_of(" {\n    "));
    push_all(&mut out, &chars_of(struct_name));
    push_all(&mut out, &chars_of(" "));
    push_all(&mut out, &braced_exec(field_assignments, ",", "    "));
    push_all(&mut out, &chars_of("\n}"));
    string_of(&out)
}

/// An impl block of the struct, with the generic parameters after both
/// `impl` and the struct's name when there are any, and the methods, one
/// after another.
pub open spec fn impl_block_text(
    struct_name: Seq<char>,
    generic_params: Option<Seq<char>>,
    methods: Seq<Seq<char>>,
) -> Seq<char> {
    let g = match generic_params {
        Some(p) => p,
        None => Seq::empty(),
    };
    "impl"@ + g + " "@ + struct_name + g + " "@ + braced(methods, Seq::empty(), Seq::empty())
}

/// An impl block of a struct with the given methods.
pub fn generate_impl_block(struct_name: &str, generic_params: Option<&str>, methods: &Vec<String>) -> (r: String)
    ensures
        r@ == impl_block_text(
            struct_name@,
            match generic_params {
                Some(p) => Some(p@),
                None => None,
            },
            texts(methods@),
        ),
{
    let g = match generic_params {
        Some(p) => chars_of(p),
        None => Vec::new(),
    };
    let mut out = chars_of("impl");
    push_all(&mut out, &g);
    push_all(&mut out, &chars_of(" "));
    push_all(&mut out, &chars_of(struct_name));
    push_all(&mut out, &g);
    push_all(&mut out, &chars_of(" "));
    push_all(&mut out, &braced_exec(methods, "", ""));
    proof {
        reveal_strlit("");
        assert(""@ =~= Seq::<char>::empty());
    }
    string_of(&out)
}

/// `pub const NAME: Type = value;`
pub open spec fn public_const_text(const_name: Seq<char>, const_type: Seq<char>, const_value: Seq<char>) -> Seq<char> {
    "pub const "@ + const_name + ": "@ + const_type + " = "@ + const_value + ";"@
}

/// A public constant.
pub fn generate_public_const(const_name: &str, const_type: &str, const_value: &str) -> (r: String)
    ensures
        r@ == public_const_text(const_name@, const_type@, const_value@),
{
    let mut out = chars_of("pub const ");
    push_all(&mut out, &chars_of(const_name));
    push_all(&mut out, &chars_of(": "));
    push_all(&mut out, &chars_of(const_type));
    push_all(&mut out, &chars_of(" = "));
    push_all(&mut out, &chars_of(const_value));
    push_all(&mut out, &chars_of(";"));
    string_of(&out)
}

/// `#[doc = lit]` for a string literal `lit`.
pub open spec fn doc_attribute(lit: Seq<char>) -> Seq<char> {
    "#[doc = "@ + lit + "]"@
}

/// A documentation attribute: `#[doc = ...]` with the text as a string
/// literal; a plain text stands in the literal as it is.
pub fn generate_doc_comment(doc_text: &str) -> (r: String)
    ensures
        exists|lit: Seq<char>| is_literal_of(lit, doc_text@) && r@ == #[trigger] doc_attribute(lit),
        is_plain_text(doc_text@) ==> r@ == doc_attribute(quoted(doc_text@)),
{
    let lit = string_literal(doc_text);
    let mut out = chars_of("#[doc = ");
    push_all(&mut out, &chars_of(lit.as_str()));
    push_all(&mut out, &chars_of("]"));
    assert(out@ == doc_attribute(lit@));
    string_of(&out)
}

/// A struct field: the lines before it (its documentation attribute, when
/// it has one), then its visibility (`pub` unless given), name and type.
pub open spec fn struct_field_text(
    field_name: Seq<char>,
    field_type: Seq<char>,
    doc_lines: Seq<char>,
    visibility: Option<Seq<char>>,
) -> Seq<char> {
    doc_lines + match visibility {
        Some(v) => v,
        None => "pub"@,
    } + " "@ + field_name + ": "@ + field_type
}

/// A struct field with optional documentation and visibility.
pub fn generate_struct_field(
    field_name: &str,
    field_type: &str,
    doc_comment: Option<&str>,
    visibility: Option<&str>,
) -> (r: String)
    ensures
        doc_comment is None ==> r@ == struct_field_text(
            field_name@,
            field_type@,
            Seq::empty(),
            match visibility {
                Some(v) => Some(v@),
                None => None,
            },
        ),
        doc_comment matches Some(d) ==> exists|lit: Seq<char>|
            is_literal_of(lit, d@) && r@ == struct_field_text(
                field_name@,
                field_type@,
                #[trigger] doc_attribute(lit) + "\n"@,
                match visibility {
                    Some(v) => Some(v@),
                    None => None,
                },
            ),
        doc_comment matches Some(d) ==> (is_plain_text(d@) ==> r@ == struct_field_text(
            field_name@,
            field_type@,
            doc_attribute(quoted(d@)) + "\n"@,
            match visibility {
                Some(v) => Some(v@),
                None => None,
            },
        )),
{
    let mut out: Vec<char> = Vec::new();
    let ghost mut lit_view: Seq<char> = Seq::empty();
    match doc_comment {
        Some(d) => {
            let doc = generate_doc_comment(d);
            proof {
                lit_view = choose|lit: Seq<char>| is_literal_of(lit, d@) && doc@ == #[trigger] doc_attribute(lit);
            }
            push_all(&mut out, &chars_of(doc.as_str()));
            push_all(&mut out, &chars_of("\n"));
        },
        None => {},
    }
    match visibility {
        Some(v) => push_all(&mut out, &chars_of(v)),
        None => push_all(&mut out, &chars_of("pub")),
    }
    push_all(&mut out, &chars_of(" "));
    push_all(&mut out, &chars_of(field_name));
    push_all(&mut out, &chars_of(": "));
    push_all(&mut out, &chars_of(field_type));
    proof {
        let vis = match visibility {
            Some(v) => Some(v@),
            None => None,
        };
        if doc_comment is Some {
            assert(out@ =~= struct_field_text(field_name@, field_type@, doc_attribute(lit_view) + "\n"@, vis));
        } else {
            assert(out@ =~= struct_field_text(field_name@, field_type@, Seq::empty(), vis));
        }
    }
    string_of(&out)
}

} // verus!
