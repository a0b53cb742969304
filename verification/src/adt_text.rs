//! Rust source text of the enums that mirror fwgsl algebraic data types: a
//! `#[repr(u32)]` enum with conversions from and to `u32` when no variant
//! carries a payload, else an enum whose variants wrap their payload
//! structs, with a method that gives each variant's tag.

use vstd::prelude::*;

use crate::adt::{
    adts_view, names_view, qualified_struct_path, select_unseen_adts, unseen_adts, AdtView, FwgslAdtType,
    VariantView,
};
use crate::binding_generator::push_decimal_usize;
use crate::fwgsl_loader::decimal;
use crate::options::WgslTypeSerializeStrategy;
use crate::struct_text::push_str;
use crate::text::{chars_of, path_sep, push_all, string_of};

verus! {

/// A fixed piece of the text of an ADT enum.
pub open spec fn adt_simple_head_text(name: Seq<char>) -> Seq<char> {
    "/// Rust mirror of the fwgsl algebraic data type (ADT) of the same name.\n///\n/// Each variant corresponds to a `u32` constructor tag emitted by the fwgsl compiler.\n/// Use [`TryFrom<u32>`] to decode a raw WGSL value and [`From<Self> for u32`] to\n/// write the enum into a WGSL-compatible buffer.\n#[repr(u32)]\n#[derive(Debug, Clone, Copy, PartialEq, Eq, Hash)]\npub enum "@ + name + " {\n"@
}

fn push_adt_simple_head(out: &mut Vec<char>, name: &Vec<char>)
    ensures
        final(out)@ == old(out)@ + adt_simple_head_text(name@),
{
    let ghost before = out@;
    push_str(out, "/// Rust mirror of the fwgsl algebraic data type (ADT) of the same name.\n///\n/// Each variant corresponds to a `u32` constructor tag emitted by the fwgsl compiler.\n/// Use [`TryFrom<u32>`] to decode a raw WGSL value and [`From<Self> for u32`] to\n/// write the enum into a WGSL-compatible buffer.\n#[repr(u32)]\n#[derive(Debug, Clone, Copy, PartialEq, Eq, Hash)]\npub enum ");
    push_all(out, name);
    push_str(out, " {\n");
    assert(out@ =~= before + adt_simple_head_text(name@));
}

/// A fixed piece of the text of an ADT enum.
pub open spec fn adt_simple_middle_text(name: Seq<char>) -> Seq<char> {
    "}\n\nimpl ::core::convert::TryFrom<u32> for "@ + name + " {\n    type Error = u32;\n    #[inline]\n    fn try_from(v: u32) -> ::core::result::Result<Self, u32> {\n        match v {\n"@
}

fn push_adt_simple_middle(out: &mut Vec<char>, name: &Vec<char>)
    ensures
        final(out)@ == old(out)@ + adt_simple_middle_text(name@),
{
    let ghost before = out@;
    push_str(out, "}\n\nimpl ::core::convert::TryFrom<u32> for ");
    push_all(out, name);
    push_str(out, " {\n    type Error = u32;\n    #[inline]\n    fn try_from(v: u32) -> ::core::result::Result<Self, u32> {\n        match v {\n");
    assert(out@ =~= before + adt_simple_middle_text(name@));
}

/// A fixed piece of the text of an ADT enum.
pub open spec fn adt_simple_tail_text(name: Seq<char>) -> Seq<char> {
    "            other => ::core::result::Result::Err(other),\n        }\n    }\n}\n\nimpl ::core::convert::From<"@ + name + "> for u32 {\n    #[inline]\n    fn from(e: "@ + name + ") -> u32 {\n        e as u32\n    }\n}\n"@
}

fn push_adt_simple_tail(out: &mut Vec<char>, name: &Vec<char>)
    ensures
        final(out)@ == old(out)@ + adt_simple_tail_text(name@),
{
    let ghost before = out@;
    push_str(out, "            other => ::core::result::Result::Err(other),\n        }\n    }\n}\n\nimpl ::core::convert::From<");
    push_all(out, name);
    push_str(out, "> for u32 {\n    #[inline]\n    fn from(e: ");
    push_all(out, name);
    push_str(out, ") -> u32 {\n        e as u32\n    }\n}\n");
    assert(out@ =~= before + adt_simple_tail_text(name@));
}

/// A fixed piece of the text of an ADT enum.
pub open spec fn adt_zeroable_text(name: Seq<char>) -> Seq<char> {
    "\nunsafe impl ::bytemuck::Zeroable for "@ + name + " {}\n"@
}

fn push_adt_zeroable(out: &mut Vec<char>, name: &Vec<char>)
    ensures
        final(out)@ == old(out)@ + adt_zeroable_text(name@),
{
    let ghost before = out@;
    push_str(out, "\nunsafe impl ::bytemuck::Zeroable for ");
    push_all(out, name);
    push_str(out, " {}\n");
    assert(out@ =~= before + adt_zeroable_text(name@));
}

/// A fixed piece of the text of an ADT enum.
pub open spec fn adt_data_head_text(name: Seq<char>) -> Seq<char> {
    "/// Rust mirror of the fwgsl algebraic data type (ADT) of the same name.\n///\n/// Each variant either wraps the WGSL struct holding the constructor's payload or\n/// is a unit variant for tag-only constructors. Call [`Self::tag()`] to obtain the\n/// `u32` discriminant value used in the corresponding WGSL shader code.\n#[derive(Debug, Clone, Copy)]\npub enum "@ + name + " {\n"@
}

fn push_adt_data_head(out: &mut Vec<char>, name: &Vec<char>)
    ensures
        final(out)@ == old(out)@ + adt_data_head_text(name@),
{
    let ghost before = out@;
    push_str(out, "/// Rust mirror of the fwgsl algebraic data type (ADT) of the same name.\n///\n/// Each variant either wraps the WGSL struct holding the constructor's payload or\n/// is a unit variant for tag-only constructors. Call [`Self::tag()`] to obtain the\n/// `u32` discriminant value used in the corresponding WGSL shader code.\n#[derive(Debug, Clone, Copy)]\npub enum ");
    push_all(out, name);
    push_str(out, " {\n");
    assert(out@ =~= before + adt_data_head_text(name@));
}

/// A fixed piece of the text of an ADT enum.
pub open spec fn adt_data_middle_text(name: Seq<char>) -> Seq<char> {
    "}\n\nimpl "@ + name + " {\n    /// Returns the `u32` discriminant tag used by fwgsl in the corresponding WGSL shader.\n    #[inline]\n    pub fn tag(&self) -> u32 {\n        match self {\n"@
}

fn push_adt_data_middle(out: &mut Vec<char>, name: &Vec<char>)
    ensures
        final(out)@ == old(out)@ + adt_data_middle_text(name@),
{
    let ghost before = out@;
    push_str(out, "}\n\nimpl ");
    push_all(out, name);
    push_str(out, " {\n    /// Returns the `u32` discriminant tag used by fwgsl in the corresponding WGSL shader.\n    #[inline]\n    pub fn tag(&self) -> u32 {\n        match self {\n");
    assert(out@ =~= before + adt_data_middle_text(name@));
}

/// A fixed piece of the text of an ADT enum.
pub open spec fn adt_data_tail_text() -> Seq<char> {
    "        }\n    }\n}\n"@
}

fn push_adt_data_tail(out: &mut Vec<char>)
    ensures
        final(out)@ == old(out)@ + adt_data_tail_text(),
{
    let ghost before = out@;
    push_str(out, "        }\n    }\n}\n");
    assert(out@ =~= before + adt_data_tail_text());
}

/// The lines that each variant contributes to an ADT enum's text.
#[derive(Clone, Copy, PartialEq, Eq, Structural)]
pub enum VariantPiece {
    /// A variant of a plain enum, with its tag as discriminant.
    SimpleVariant,
    /// The arm of `TryFrom<u32>` that decodes the variant's tag.
    TryFromArm,
    /// A variant of a payload enum, wrapping its payload struct if it has one.
    DataVariant,
    /// The arm of `tag()` that gives the variant's tag.
    TagArm,
}

/// The path of a payload struct from the module that holds the ADT.
pub open spec fn payload_path(module: Seq<char>, struct_name: Seq<char>) -> Seq<char> {
    if module.len() == 0 {
        struct_name
    } else {
        module + path_sep() + struct_name
    }
}

/// The line that a variant contributes to one piece.
pub open spec fn variant_line(piece: VariantPiece, module: Seq<char>, v: VariantView) -> Seq<char> {
    match piece {
        VariantPiece::SimpleVariant => "    "@ + v.0 + " = "@ + decimal(v.1 as nat) + ",\n"@,
        VariantPiece::TryFromArm => "            "@ + decimal(v.1 as nat) + " => ::core::result::Result::Ok(Self::"@
            + v.0 + "),\n"@,
        VariantPiece::DataVariant => "    "@ + v.0 + match v.2 {
            Some(s) => "("@ + payload_path(module, s) + ")"@,
            None => Seq::empty(),
        } + ",\n"@,
        VariantPiece::TagArm => "            Self::"@ + v.0 + (if v.2 is Some {
            "(_)"@
        } else {
            Seq::empty()
        }) + " => "@ + decimal(v.1 as nat) + ",\n"@,
    }
}

/// The lines that the first `n` variants contribute to one piece.
pub open spec fn variant_lines(piece: VariantPiece, module: Seq<char>, vs: Seq<VariantView>, n: int) -> Seq<char>
    decreases n,
{
    if n <= 0 {
        Seq::empty()
    } else {
        variant_lines(piece, module, vs, n - 1) + variant_line(piece, module, vs[n - 1])
    }
}

/// Whether no variant carries a payload.
pub open spec fn is_simple_adt(a: AdtView) -> bool {
    forall|i: int| 0 <= i < a.1.len() ==> a.1[i].2 is None
}

/// Whether the plain enum may be zeroed: with the `bytemuck` strategy and a
/// variant of tag 0.
pub open spec fn adt_zeroable(a: AdtView, strategy: WgslTypeSerializeStrategy) -> bool {
    strategy == WgslTypeSerializeStrategy::Bytemuck && exists|i: int| 0 <= i < a.1.len() && a.1[i].1 == 0
}

/// The Rust enum of an ADT declared in `module`: a plain `#[repr(u32)]`
/// enum, with `TryFrom<u32>`, `From<Self> for u32` and, when it may be
/// zeroed, `bytemuck::Zeroable`, if no variant carries a payload; else an
/// enum whose variants wrap their payload structs, with `tag()`.
pub open spec fn adt_text(a: AdtView, module: Seq<char>, strategy: WgslTypeSerializeStrategy) -> Seq<char> {
    let n = a.1.len() as int;
    if is_simple_adt(a) {
        adt_simple_head_text(a.0) + variant_lines(VariantPiece::SimpleVariant, module, a.1, n)
            + adt_simple_middle_text(a.0) + variant_lines(VariantPiece::TryFromArm, module, a.1, n)
            + adt_simple_tail_text(a.0) + if adt_zeroable(a, strategy) {
            adt_zeroable_text(a.0)
        } else {
            Seq::empty()
        }
    } else {
        adt_data_head_text(a.0) + variant_lines(VariantPiece::DataVariant, module, a.1, n)
            + adt_data_middle_text(a.0) + variant_lines(VariantPiece::TagArm, module, a.1, n)
            + adt_data_tail_text()
    }
}

/// The enums of a list of ADTs, one after the other.
pub open spec fn adts_text(adts: Seq<AdtView>, module: Seq<char>, strategy: WgslTypeSerializeStrategy) -> Seq<char>
    decreases adts.len(),
{
    if adts.len() == 0 {
        Seq::empty()
    } else {
        adts_text(adts.drop_last(), module, strategy) + adt_text(adts.last(), module, strategy)
    }
}

/// The lines that all variants of `adt` contribute to one piece.
fn variant_lines_exec(piece: VariantPiece, module_name: &str, adt: &FwgslAdtType) -> (r: Vec<char>)
    ensures
        r@ == variant_lines(piece, module_name@, adt@.1, adt@.1.len() as int),
{
    let ghost vs = adt@.1;
    let mut out: Vec<char> = Vec::new();
    let mut i: usize = 0;
    while i < adt.variants.len()
        invariant
            i <= adt.variants@.len(),
            vs == adt@.1,
            vs.len() == adt.variants@.len(),
            out@ == variant_lines(piece, module_name@, vs, i as int),
        decreases adt.variants@.len() - i,
    {
        let v = &adt.variants[i];
        assert(vs[i as int] == v@);
        let ghost before = out@;
        match piece {
            VariantPiece::SimpleVariant => {
                push_str(&mut out, "    ");
                push_str(&mut out, v.name.as_str());
                push_str(&mut out, " = ");
                push_decimal_usize(&mut out, v.tag as usize);
                push_str(&mut out, ",\n");
            },
            VariantPiece::TryFromArm => {
                push_str(&mut out, "            ");
                push_decimal_usize(&mut out, v.tag as usize);
                push_str(&mut out, " => ::core::result::Result::Ok(Self::");
                push_str(&mut out, v.name.as_str());
                push_str(&mut out, "),\n");
            },
            VariantPiece::DataVariant => {
                push_str(&mut out, "    ");
                push_str(&mut out, v.name.as_str());
                match &v.struct_name {
                    Some(s) => {
                        push_str(&mut out, "(");
                        let path = qualified_struct_path(module_name, s.as_str());
                        push_str(&mut out, path.as_str());
                        push_str(&mut out, ")");
                    },
                    None => {},
                }
                push_str(&mut out, ",\n");
            },
            VariantPiece::TagArm => {
                push_str(&mut out, "            Self::");
                push_str(&mut out, v.name.as_str());
                if v.struct_name.is_some() {
                    push_str(&mut out, "(_)");
                }
                push_str(&mut out, " => ");
                push_decimal_usize(&mut out, v.tag as usize);
                push_str(&mut out, ",\n");
            },
        }
        assert(out@ =~= before + variant_line(piece, module_name@, vs[i as int]));
        i += 1;
    }
    out
}

/// The Rust enum of an ADT declared in `module_name`.
pub fn generate_adt_text(adt: &FwgslAdtType, module_name: &str, strategy: WgslTypeSerializeStrategy) -> (r: String)
    ensures
        r@ == adt_text(adt@, module_name@, strategy),
{
    let name = chars_of(adt.name.as_str());
    let mut out: Vec<char> = Vec::new();
    if adt.is_simple_enum() {
        assert(is_simple_adt(adt@)) by {
            assert forall|i: int| 0 <= i < adt@.1.len() implies adt@.1[i].2 is None by {
                assert(adt@.1[i] == adt.variants@[i]@);
            }
        }
        push_adt_simple_head(&mut out, &name);
        push_all(&mut out, &variant_lines_exec(VariantPiece::SimpleVariant, module_name, adt));
        push_adt_simple_middle(&mut out, &name);
        push_all(&mut out, &variant_lines_exec(VariantPiece::TryFromArm, module_name, adt));
        push_adt_simple_tail(&mut out, &name);
        let zeroable = adt.allows_zeroable(strategy);
        assert(zeroable == adt_zeroable(adt@, strategy)) by {
            if zeroable {
                let i = choose|i: int| 0 <= i < adt.variants@.len() && adt.variants@[i].tag == 0;
                assert(adt@.1[i] == adt.variants@[i]@);
            }
            if adt_zeroable(adt@, strategy) {
                let i = choose|i: int| 0 <= i < adt@.1.len() && adt@.1[i].1 == 0;
                assert(adt@.1[i] == adt.variants@[i]@);
            }
        }
        if zeroable {
            push_adt_zeroable(&mut out, &name);
        }
    } else {
        assert(!is_simple_adt(adt@)) by {
            let i = choose|i: int| 0 <= i < adt.variants@.len() && !(adt.variants@[i].struct_name is None);
            assert(adt@.1[i] == adt.variants@[i]@);
        }
        push_adt_data_head(&mut out, &name);
        push_all(&mut out, &variant_lines_exec(VariantPiece::DataVariant, module_name, adt));
        push_adt_data_middle(&mut out, &name);
        push_all(&mut out, &variant_lines_exec(VariantPiece::TagArm, module_name, adt));
        push_adt_data_tail(&mut out);
    }
    assert(out@ =~= adt_text(adt@, module_name@, strategy));
    string_of(&out)
}

/// The enums of the ADTs of one WGSL entry whose names are not in
/// `seen_names` yet, which then gains them, so that an ADT shared by several
/// entries is emitted once.
pub fn adt_enum_text_dedup(
    adts: &[FwgslAdtType],
    module_name: &str,
    seen_names: &mut Vec<String>,
    strategy: WgslTypeSerializeStrategy,
) -> (r: String)
    ensures
        r@ == adts_text(unseen_adts(adts_view(adts@), names_view(old(seen_names)@)), module_name@, strategy),
        names_view(final(seen_names)@) == names_view(old(seen_names)@) + crate::adt::adt_names(
            unseen_adts(adts_view(adts@), names_view(old(seen_names)@)),
        ),
{
    let kept = select_unseen_adts(adts, seen_names);
    let ghost kv = adts_view(kept@);
    let mut out: Vec<char> = Vec::new();
    let mut i: usize = 0;
    while i < kept.len()
        invariant
            i <= kept@.len(),
            kv == adts_view(kept@),
            out@ == adts_text(kv.take(i as int), module_name@, strategy),
        decreases kept@.len() - i,
    {
        assert(kv.take(i + 1).drop_last() =~= kv.take(i as int));
        assert(kv.take(i + 1).last() == kept@[i as int]@);
        let text = generate_adt_text(&kept[i], module_name, strategy);
        push_all(&mut out, &chars_of(text.as_str()));
        i += 1;
    }
    assert(kv.take(i as int) =~= kv);
    string_of(&out)
}

} // verus!
