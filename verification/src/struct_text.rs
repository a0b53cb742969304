//! Rust source text of the items that a byte-copied struct needs beyond
//! its definition: the helper type that stores a padded array element, the
//! conversions into it, and the constructors of a struct whose last field
//! is a runtime-sized array.

use vstd::prelude::*;

use crate::binding_generator::push_decimal_usize;
use crate::fwgsl_loader::{decimal, digit_char, digit_to_char};
use crate::name_demangle::RustSourceItemPath;
use crate::options::{WgslTypeSerializeStrategy, WgslTypeVisibility};
use crate::rust_type_info::RustTypeInitConversion;
use crate::struct_layout::{
    directly_shareable, entries_plan_view, fields_name_members, first_runtime_array_field, generates_init_struct,
    init_convertible, members_view, needs_init, runtime_array_field, uses_padding, EntryPlanView,
    MemberLayout, MemberView, PadSize, RustStructMemberEntry,
};
use crate::text::{chars_of, push_all, string_of};

verus! {

/// Appends `s`.
pub(crate) fn push_str(out: &mut Vec<char>, s: &str)
    ensures
        final(out)@ == old(out)@ + s@,
{
    push_all(out, &chars_of(s));
}

/// The Rust text of a visibility.
pub open spec fn visibility_text(v: WgslTypeVisibility) -> Seq<char> {
    match v {
        WgslTypeVisibility::Public => "pub"@,
        WgslTypeVisibility::RestrictedCrate => "pub(crate)"@,
        WgslTypeVisibility::RestrictedSuper => "pub(super)"@,
    }
}

impl WgslTypeVisibility {
    /// The Rust text of the visibility.
    pub fn generate_quote(&self) -> (r: String)
        ensures
            r@ == visibility_text(*self),
    {
        match self {
            WgslTypeVisibility::Public => string_of(&chars_of("pub")),
            WgslTypeVisibility::RestrictedCrate => string_of(&chars_of("pub(crate)")),
            WgslTypeVisibility::RestrictedSuper => string_of(&chars_of("pub(super)")),
        }
    }
}

/// The expression that converts `value` with a conversion: an array maps
/// each element with the element conversion; a padded element is stored
/// with `WgslBindgenArrayElement::new`, after its own conversion if it has
/// one.
pub open spec fn conversion_text(c: RustTypeInitConversion, value: Seq<char>) -> Seq<char>
    decreases c,
{
    match c {
        RustTypeInitConversion::Array(inner) => value + ".map(|value| "@ + conversion_text(*inner, "value"@)
            + ")"@,
        RustTypeInitConversion::PaddedArrayElement(inner) => "WgslBindgenArrayElement::new("@ + match inner {
            Some(i) => conversion_text(*i, value),
            None => value,
        } + ")"@,
    }
}

impl RustTypeInitConversion {
    /// The expression that converts `value` into the stored type.
    pub fn generate(&self, value: &str) -> (r: String)
        ensures
            r@ == conversion_text(*self, value@),
        decreases self,
    {
        match self {
            RustTypeInitConversion::Array(inner) => {
                let converted = inner.generate("value");
                let mut out = chars_of(value);
                push_str(&mut out, ".map(|value| ");
                push_all(&mut out, &chars_of(converted.as_str()));
                push_str(&mut out, ")");
                string_of(&out)
            },
            RustTypeInitConversion::PaddedArrayElement(inner) => {
                let mut out = chars_of("WgslBindgenArrayElement::new(");
                match inner {
                    Some(i) => {
                        let converted = i.generate(value);
                        push_all(&mut out, &chars_of(converted.as_str()));
                    },
                    None => push_str(&mut out, value),
                }
                push_str(&mut out, ")");
                string_of(&out)
            },
        }
    }
}

/// The hexadecimal digit of `d` (below 16), in upper case.
pub open spec fn hex_digit(d: nat) -> char {
    if d < 10 {
        digit_char(d)
    } else if d == 10 {
        'A'
    } else if d == 11 {
        'B'
    } else if d == 12 {
        'C'
    } else if d == 13 {
        'D'
    } else if d == 14 {
        'E'
    } else {
        'F'
    }
}

/// The upper-case hexadecimal digits of a number, without leading zeros.
pub open spec fn hex_upper(n: nat) -> Seq<char>
    decreases n,
{
    if n < 16 {
        seq![hex_digit(n)]
    } else {
        hex_upper(n / 16).push(hex_digit(n % 16))
    }
}

/// Appends the upper-case hexadecimal digits of `n`.
fn push_hex_usize(out: &mut Vec<char>, n: usize)
    ensures
        final(out)@ == old(out)@ + hex_upper(n as nat),
    decreases n,
{
    if n >= 16 {
        push_hex_usize(out, n / 16);
    }
    let d = n % 16;
    let c = if d < 10 {
        digit_to_char(d as u32)
    } else if d == 10 {
        'A'
    } else if d == 11 {
        'B'
    } else if d == 12 {
        'C'
    } else if d == 13 {
        'D'
    } else if d == 14 {
        'E'
    } else {
        'F'
    };
    out.push(c);
}

/// The helper type that stores an array element padded to the array's
/// stride: a transparent, hidden `WgslBindgenArrayElement<STRIDE>` over
/// `[u8; STRIDE]` with `Debug`, `PartialEq`, `Clone` and `Copy`; `new`,
/// which copies the bytes of a `bytemuck::Pod` value (no longer than the
/// stride) and zeroes the rest of the stride; `bytemuck`'s `Zeroable` and `Pod`; and,
/// exactly when `derive_serde`, `serde` support as a tuple of `STRIDE`
/// bytes.
pub open spec fn array_element_helper_spec(derive_serde: bool) -> Seq<char> {
    array_element_helper_core() + if derive_serde {
        array_element_serde_impls()
    } else {
        Seq::empty()
    }
}

/// The helper type, its constructor and its `bytemuck` impls.
pub open spec fn array_element_helper_core() -> Seq<char> {
    "#[doc(hidden)]\n#[repr(transparent)]\n#[derive(Debug, PartialEq, Clone, Copy)]\npub struct WgslBindgenArrayElement<const STRIDE: usize>(pub [u8; STRIDE]);\n\nimpl<const STRIDE: usize> WgslBindgenArrayElement<STRIDE> {\n    pub fn new<T: bytemuck::Pod>(value: T) -> Self {\n        assert!(\n            ::core::mem::size_of::<T>() <= STRIDE,\n            \"Rust array element exceeds its WGSL stride\",\n        );\n        let value_bytes = bytemuck::bytes_of(&value);\n        let mut result = ::core::mem::MaybeUninit::<Self>::uninit();\n\n        unsafe {\n            let result_bytes = result.as_mut_ptr().cast::<u8>();\n            ::core::ptr::copy_nonoverlapping(value_bytes.as_ptr(), result_bytes, value_bytes.len());\n            ::core::ptr::write_bytes(result_bytes.add(value_bytes.len()), 0, STRIDE - value_bytes.len());\n            result.assume_init()\n        }\n    }\n}\n\nunsafe impl<const STRIDE: usize> bytemuck::Zeroable for WgslBindgenArrayElement<STRIDE> {}\nunsafe impl<const STRIDE: usize> bytemuck::Pod for WgslBindgenArrayElement<STRIDE> {}\n"@
}

/// `serde` support of the helper type: it serializes as a tuple of
/// `STRIDE` bytes and deserializes from exactly that many.
pub open spec fn array_element_serde_impls() -> Seq<char> {
    "\nimpl<const STRIDE: usize> serde::Serialize for WgslBindgenArrayElement<STRIDE> {\n    fn serialize<S>(&self, serializer: S) -> Result<S::Ok, S::Error>\n    where\n        S: serde::Serializer,\n    {\n        let mut tuple = serde::Serializer::serialize_tuple(serializer, STRIDE)?;\n        for byte in &self.0 {\n            serde::ser::SerializeTuple::serialize_element(&mut tuple, byte)?;\n        }\n        serde::ser::SerializeTuple::end(tuple)\n    }\n}\n\nstruct WgslBindgenArrayElementVisitor<const STRIDE: usize>;\n\nimpl<'de, const STRIDE: usize> serde::de::Visitor<'de> for WgslBindgenArrayElementVisitor<STRIDE> {\n    type Value = WgslBindgenArrayElement<STRIDE>;\n\n    fn expecting(&self, formatter: &mut std::fmt::Formatter<'_>) -> std::fmt::Result {\n        formatter.write_str(\"a byte array with the generated WGSL stride\")\n    }\n\n    fn visit_seq<A>(self, mut sequence: A) -> Result<Self::Value, A::Error>\n    where\n        A: serde::de::SeqAccess<'de>,\n    {\n        let mut bytes = [0u8; STRIDE];\n        for (index, byte) in bytes.iter_mut().enumerate() {\n            *byte = sequence\n                .next_element()?\n                .ok_or_else(|| serde::de::Error::invalid_length(index, &self))?;\n        }\n        if sequence.next_element::<serde::de::IgnoredAny>()?.is_some() {\n            return Err(serde::de::Error::invalid_length(STRIDE + 1, &self));\n        }\n        Ok(WgslBindgenArrayElement(bytes))\n    }\n}\n\nimpl<'de, const STRIDE: usize> serde::Deserialize<'de> for WgslBindgenArrayElement<STRIDE> {\n    fn deserialize<D>(deserializer: D) -> Result<Self, D::Error>\n    where\n        D: serde::Deserializer<'de>,\n    {\n        serde::Deserializer::deserialize_tuple(deserializer, STRIDE, WgslBindgenArrayElementVisitor::<STRIDE>)\n    }\n}\n"@
}

/// The helper type that stores padded array elements in `module`: its item
/// path, `module::WgslBindgenArrayElement`, and its text, with `serde`
/// support when `derive_serde`.
pub fn array_element_helper_item(module: &str, derive_serde: bool) -> (r: (
    RustSourceItemPath,
    String,
))
    ensures
        r.0.module@ == module@,
        r.0.name@ == "WgslBindgenArrayElement"@,
        r.1@ == array_element_helper_spec(derive_serde),
{
    let path = RustSourceItemPath {
        module: string_of(&chars_of(module)),
        name: string_of(&chars_of("WgslBindgenArrayElement")),
    };
    (path, array_element_helper_text(derive_serde))
}

/// The text of the helper type that stores padded array elements, with
/// `serde` support when `derive_serde`.
pub fn array_element_helper_text(derive_serde: bool) -> (r: String)
    ensures
        r@ == array_element_helper_spec(derive_serde),
{
    let mut out = chars_of(
        "#[doc(hidden)]\n#[repr(transparent)]\n#[derive(Debug, PartialEq, Clone, Copy)]\npub struct WgslBindgenArrayElement<const STRIDE: usize>(pub [u8; STRIDE]);\n\nimpl<const STRIDE: usize> WgslBindgenArrayElement<STRIDE> {\n    pub fn new<T: bytemuck::Pod>(value: T) -> Self {\n        assert!(\n            ::core::mem::size_of::<T>() <= STRIDE,\n            \"Rust array element exceeds its WGSL stride\",\n        );\n        let value_bytes = bytemuck::bytes_of(&value);\n        let mut result = ::core::mem::MaybeUninit::<Self>::uninit();\n\n        unsafe {\n            let result_bytes = result.as_mut_ptr().cast::<u8>();\n            ::core::ptr::copy_nonoverlapping(value_bytes.as_ptr(), result_bytes, value_bytes.len());\n            ::core::ptr::write_bytes(result_bytes.add(value_bytes.len()), 0, STRIDE - value_bytes.len());\n            result.assume_init()\n        }\n    }\n}\n\nunsafe impl<const STRIDE: usize> bytemuck::Zeroable for WgslBindgenArrayElement<STRIDE> {}\nunsafe impl<const STRIDE: usize> bytemuck::Pod for WgslBindgenArrayElement<STRIDE> {}\n",
    );
    if derive_serde {
        push_str(
            &mut out,
            "\nimpl<const STRIDE: usize> serde::Serialize for WgslBindgenArrayElement<STRIDE> {\n    fn serialize<S>(&self, serializer: S) -> Result<S::Ok, S::Error>\n    where\n        S: serde::Serializer,\n    {\n        let mut tuple = serde::Serializer::serialize_tuple(serializer, STRIDE)?;\n        for byte in &self.0 {\n            serde::ser::SerializeTuple::serialize_element(&mut tuple, byte)?;\n        }\n        serde::ser::SerializeTuple::end(tuple)\n    }\n}\n\nstruct WgslBindgenArrayElementVisitor<const STRIDE: usize>;\n\nimpl<'de, const STRIDE: usize> serde::de::Visitor<'de> for WgslBindgenArrayElementVisitor<STRIDE> {\n    type Value = WgslBindgenArrayElement<STRIDE>;\n\n    fn expecting(&self, formatter: &mut std::fmt::Formatter<'_>) -> std::fmt::Result {\n        formatter.write_str(\"a byte array with the generated WGSL stride\")\n    }\n\n    fn visit_seq<A>(self, mut sequence: A) -> Result<Self::Value, A::Error>\n    where\n        A: serde::de::SeqAccess<'de>,\n    {\n        let mut bytes = [0u8; STRIDE];\n        for (index, byte) in bytes.iter_mut().enumerate() {\n            *byte = sequence\n                .next_element()?\n                .ok_or_else(|| serde::de::Error::invalid_length(index, &self))?;\n        }\n        if sequence.next_element::<serde::de::IgnoredAny>()?.is_some() {\n            return Err(serde::de::Error::invalid_length(STRIDE + 1, &self));\n        }\n        Ok(WgslBindgenArrayElement(bytes))\n    }\n}\n\nimpl<'de, const STRIDE: usize> serde::Deserialize<'de> for WgslBindgenArrayElement<STRIDE> {\n    fn deserialize<D>(deserializer: D) -> Result<Self, D::Error>\n    where\n        D: serde::Deserializer<'de>,\n    {\n        serde::Deserializer::deserialize_tuple(deserializer, STRIDE, WgslBindgenArrayElementVisitor::<STRIDE>)\n    }\n}\n",
        );
    }
    string_of(&out)
}

/// A piece of the constructors of a struct with a runtime-sized tail.
pub open spec fn rt_head_text(vis: Seq<char>, sized: Seq<char>, sn: Seq<char>, elem: Seq<char>) -> Seq<char> {
    vis + " type "@ + sized + "<const N: usize> = "@ + sn + "<["@ + elem + "; N]>;\n\nimpl<const N: usize> "@ + sized + "<N> {\n    pub "@
}

fn push_rt_head(out: &mut Vec<char>, vis: &Vec<char>, sized: &Vec<char>, sn: &Vec<char>, elem: &Vec<char>)
    ensures
        final(out)@ == old(out)@ + rt_head_text(vis@, sized@, sn@, elem@),
{
    let ghost before = out@;
    push_all(out, vis);
    push_str(out, " type ");
    push_all(out, sized);
    push_str(out, "<const N: usize> = ");
    push_all(out, sn);
    push_str(out, "<[");
    push_all(out, elem);
    push_str(out, "; N]>;\n\nimpl<const N: usize> ");
    push_all(out, sized);
    push_str(out, "<N> {\n    pub ");
    assert(out@ =~= before + rt_head_text(vis@, sized@, sn@, elem@));
}

/// A piece of the constructors of a struct with a runtime-sized tail.
pub open spec fn rt_sized_fn_text(params: Seq<char>) -> Seq<char> {
    "fn new_sized(\n"@ + params + "    ) -> Self\n"@
}

fn push_rt_sized_fn(out: &mut Vec<char>, params: &Vec<char>)
    ensures
        final(out)@ == old(out)@ + rt_sized_fn_text(params@),
{
    let ghost before = out@;
    push_str(out, "fn new_sized(\n");
    push_all(out, params);
    push_str(out, "    ) -> Self\n");
    assert(out@ =~= before + rt_sized_fn_text(params@));
}

/// A piece of the constructors of a struct with a runtime-sized tail.
pub open spec fn rt_sized_where_text(input: Seq<char>) -> Seq<char> {
    "    where\n        "@ + input + ": bytemuck::Pod,\n"@
}

fn push_rt_sized_where(out: &mut Vec<char>, input: &Vec<char>)
    ensures
        final(out)@ == old(out)@ + rt_sized_where_text(input@),
{
    let ghost before = out@;
    push_str(out, "    where\n        ");
    push_all(out, input);
    push_str(out, ": bytemuck::Pod,\n");
    assert(out@ =~= before + rt_sized_where_text(input@));
}

/// A piece of the constructors of a struct with a runtime-sized tail.
pub open spec fn rt_sized_body_text(assigns: Seq<char>, byte_lines: Seq<char>, sn: Seq<char>) -> Seq<char> {
    "    {\n        Self {\n"@ + assigns + "        }\n    }\n\n    pub fn as_bytes(&self) -> &[u8]\n    where\n"@ + byte_lines + "    {\n        let __wgsl_bindgen_unsized: &"@ + sn + " = self;\n        __wgsl_bindgen_unsized.as_bytes()\n    }\n}\n\nimpl "@ + sn + " {\n    pub fn new(\n"@
}

fn push_rt_sized_body(out: &mut Vec<char>, assigns: &Vec<char>, byte_lines: &Vec<char>, sn: &Vec<char>)
    ensures
        final(out)@ == old(out)@ + rt_sized_body_text(assigns@, byte_lines@, sn@),
{
    let ghost before = out@;
    push_str(out, "    {\n        Self {\n");
    push_all(out, assigns);
    push_str(out, "        }\n    }\n\n    pub fn as_bytes(&self) -> &[u8]\n    where\n");
    push_all(out, byte_lines);
    push_str(out, "    {\n        let __wgsl_bindgen_unsized: &");
    push_all(out, sn);
    push_str(out, " = self;\n        __wgsl_bindgen_unsized.as_bytes()\n    }\n}\n\nimpl ");
    push_all(out, sn);
    push_str(out, " {\n    pub fn new(\n");
    assert(out@ =~= before + rt_sized_body_text(assigns@, byte_lines@, sn@));
}

/// A piece of the constructors of a struct with a runtime-sized tail.
pub open spec fn rt_new_sig_text(fixed_lines: Seq<char>, tail: Seq<char>, input: Seq<char>) -> Seq<char> {
    fixed_lines + "        "@ + tail + ": &["@ + input + "],\n    ) -> Box<Self>\n    where\n        "@ + input + ": bytemuck::Pod,\n    {\n        use std::{alloc, mem, ptr};\n\n"@
}

fn push_rt_new_sig(out: &mut Vec<char>, fixed_lines: &Vec<char>, tail: &Vec<char>, input: &Vec<char>)
    ensures
        final(out)@ == old(out)@ + rt_new_sig_text(fixed_lines@, tail@, input@),
{
    let ghost before = out@;
    push_all(out, fixed_lines);
    push_str(out, "        ");
    push_all(out, tail);
    push_str(out, ": &[");
    push_all(out, input);
    push_str(out, "],\n    ) -> Box<Self>\n    where\n        ");
    push_all(out, input);
    push_str(out, ": bytemuck::Pod,\n    {\n        use std::{alloc, mem, ptr};\n\n");
    assert(out@ =~= before + rt_new_sig_text(fixed_lines@, tail@, input@));
}

/// A piece of the constructors of a struct with a runtime-sized tail.
pub open spec fn rt_alloc_text(sized: Seq<char>, tail: Seq<char>, elem: Seq<char>) -> Seq<char> {
    "        let __wgsl_bindgen_tail_offset = mem::offset_of!("@ + sized + "<0>, "@ + tail + ");\n        let __wgsl_bindgen_tail_size = "@ + tail + "\n            .len()\n            .checked_mul(mem::size_of::<"@ + elem + ">())\n            .expect(\"runtime-sized struct allocation is too large\");\n        let __wgsl_bindgen_unpadded_size = __wgsl_bindgen_tail_offset\n            .checked_add(__wgsl_bindgen_tail_size)\n            .expect(\"runtime-sized struct allocation is too large\");\n        let __wgsl_bindgen_alignment = mem::align_of::<"@ + sized + "<0>>();\n        let __wgsl_bindgen_allocation_size = __wgsl_bindgen_unpadded_size\n            .checked_add(__wgsl_bindgen_alignment - 1)\n            .map(|size| size & !(__wgsl_bindgen_alignment - 1))\n            .expect(\"runtime-sized struct allocation is too large\");\n        let __wgsl_bindgen_layout = alloc::Layout::from_size_align(__wgsl_bindgen_allocation_size, __wgsl_bindgen_alignment)\n            .expect(\"runtime-sized struct has an invalid allocation layout\");\n"@
}

fn push_rt_alloc(out: &mut Vec<char>, sized: &Vec<char>, tail: &Vec<char>, elem: &Vec<char>)
    ensures
        final(out)@ == old(out)@ + rt_alloc_text(sized@, tail@, elem@),
{
    let ghost before = out@;
    push_str(out, "        let __wgsl_bindgen_tail_offset = mem::offset_of!(");
    push_all(out, sized);
    push_str(out, "<0>, ");
    push_all(out, tail);
    push_str(out, ");\n        let __wgsl_bindgen_tail_size = ");
    push_all(out, tail);
    push_str(out, "\n            .len()\n            .checked_mul(mem::size_of::<");
    push_all(out, elem);
    push_str(out, ">())\n            .expect(\"runtime-sized struct allocation is too large\");\n        let __wgsl_bindgen_unpadded_size = __wgsl_bindgen_tail_offset\n            .checked_add(__wgsl_bindgen_tail_size)\n            .expect(\"runtime-sized struct allocation is too large\");\n        let __wgsl_bindgen_alignment = mem::align_of::<");
    push_all(out, sized);
    push_str(out, "<0>>();\n        let __wgsl_bindgen_allocation_size = __wgsl_bindgen_unpadded_size\n            .checked_add(__wgsl_bindgen_alignment - 1)\n            .map(|size| size & !(__wgsl_bindgen_alignment - 1))\n            .expect(\"runtime-sized struct allocation is too large\");\n        let __wgsl_bindgen_layout = alloc::Layout::from_size_align(__wgsl_bindgen_allocation_size, __wgsl_bindgen_alignment)\n            .expect(\"runtime-sized struct has an invalid allocation layout\");\n");
    assert(out@ =~= before + rt_alloc_text(sized@, tail@, elem@));
}

/// A piece of the constructors of a struct with a runtime-sized tail.
pub open spec fn rt_validate_text(input: Seq<char>, elem: Seq<char>) -> Seq<char> {
    "        assert!(\n            mem::size_of::<"@ + input + ">() <= mem::size_of::<"@ + elem + ">(),\n            \"Rust array element exceeds its WGSL stride\",\n        );\n"@
}

fn push_rt_validate(out: &mut Vec<char>, input: &Vec<char>, elem: &Vec<char>)
    ensures
        final(out)@ == old(out)@ + rt_validate_text(input@, elem@),
{
    let ghost before = out@;
    push_str(out, "        assert!(\n            mem::size_of::<");
    push_all(out, input);
    push_str(out, ">() <= mem::size_of::<");
    push_all(out, elem);
    push_str(out, ">(),\n            \"Rust array element exceeds its WGSL stride\",\n        );\n");
    assert(out@ =~= before + rt_validate_text(input@, elem@));
}

/// A piece of the constructors of a struct with a runtime-sized tail.
pub open spec fn rt_unsafe_open_text(sized: Seq<char>, elem: Seq<char>, tail: Seq<char>) -> Seq<char> {
    "        unsafe {\n            let __wgsl_bindgen_allocation = if __wgsl_bindgen_allocation_size == 0 {\n                ptr::NonNull::<"@ + sized + "<0>>::dangling().as_ptr().cast::<u8>()\n            } else {\n                let allocation = alloc::alloc(__wgsl_bindgen_layout);\n                if allocation.is_null() {\n                    alloc::handle_alloc_error(__wgsl_bindgen_layout);\n                }\n                allocation\n            };\n            let __wgsl_bindgen_tail = ptr::slice_from_raw_parts_mut(__wgsl_bindgen_allocation.cast::<"@ + elem + ">(), "@ + tail + ".len());\n            let __wgsl_bindgen_this = __wgsl_bindgen_tail as *mut Self;\n"@
}

fn push_rt_unsafe_open(out: &mut Vec<char>, sized: &Vec<char>, elem: &Vec<char>, tail: &Vec<char>)
    ensures
        final(out)@ == old(out)@ + rt_unsafe_open_text(sized@, elem@, tail@),
{
    let ghost before = out@;
    push_str(out, "        unsafe {\n            let __wgsl_bindgen_allocation = if __wgsl_bindgen_allocation_size == 0 {\n                ptr::NonNull::<");
    push_all(out, sized);
    push_str(out, "<0>>::dangling().as_ptr().cast::<u8>()\n            } else {\n                let allocation = alloc::alloc(__wgsl_bindgen_layout);\n                if allocation.is_null() {\n                    alloc::handle_alloc_error(__wgsl_bindgen_layout);\n                }\n                allocation\n            };\n            let __wgsl_bindgen_tail = ptr::slice_from_raw_parts_mut(__wgsl_bindgen_allocation.cast::<");
    push_all(out, elem);
    push_str(out, ">(), ");
    push_all(out, tail);
    push_str(out, ".len());\n            let __wgsl_bindgen_this = __wgsl_bindgen_tail as *mut Self;\n");
    assert(out@ =~= before + rt_unsafe_open_text(sized@, elem@, tail@));
}

/// A piece of the constructors of a struct with a runtime-sized tail.
pub open spec fn rt_tail_convert_text(tail: Seq<char>, elem: Seq<char>, conv: Seq<char>) -> Seq<char> {
    "            let __wgsl_bindgen_tail_destination = ptr::addr_of_mut!((*__wgsl_bindgen_this)."@ + tail + ").cast::<"@ + elem + ">();\n            for (index, value) in "@ + tail + ".iter().copied().enumerate() {\n                __wgsl_bindgen_tail_destination.add(index).write("@ + conv + ");\n            }\n"@
}

fn push_rt_tail_convert(out: &mut Vec<char>, tail: &Vec<char>, elem: &Vec<char>, conv: &Vec<char>)
    ensures
        final(out)@ == old(out)@ + rt_tail_convert_text(tail@, elem@, conv@),
{
    let ghost before = out@;
    push_str(out, "            let __wgsl_bindgen_tail_destination = ptr::addr_of_mut!((*__wgsl_bindgen_this).");
    push_all(out, tail);
    push_str(out, ").cast::<");
    push_all(out, elem);
    push_str(out, ">();\n            for (index, value) in ");
    push_all(out, tail);
    push_str(out, ".iter().copied().enumerate() {\n                __wgsl_bindgen_tail_destination.add(index).write(");
    push_all(out, conv);
    push_str(out, ");\n            }\n");
    assert(out@ =~= before + rt_tail_convert_text(tail@, elem@, conv@));
}

/// A piece of the constructors of a struct with a runtime-sized tail.
pub open spec fn rt_tail_copy_text(tail: Seq<char>, elem: Seq<char>) -> Seq<char> {
    "            ptr::copy_nonoverlapping("@ + tail + ".as_ptr(), ptr::addr_of_mut!((*__wgsl_bindgen_this)."@ + tail + ").cast::<"@ + elem + ">(), "@ + tail + ".len());\n"@
}

fn push_rt_tail_copy(out: &mut Vec<char>, tail: &Vec<char>, elem: &Vec<char>)
    ensures
        final(out)@ == old(out)@ + rt_tail_copy_text(tail@, elem@),
{
    let ghost before = out@;
    push_str(out, "            ptr::copy_nonoverlapping(");
    push_all(out, tail);
    push_str(out, ".as_ptr(), ptr::addr_of_mut!((*__wgsl_bindgen_this).");
    push_all(out, tail);
    push_str(out, ").cast::<");
    push_all(out, elem);
    push_str(out, ">(), ");
    push_all(out, tail);
    push_str(out, ".len());\n");
    assert(out@ =~= before + rt_tail_copy_text(tail@, elem@));
}

/// A piece of the constructors of a struct with a runtime-sized tail.
pub open spec fn rt_close_text(sized: Seq<char>, tail: Seq<char>, byte_lines: Seq<char>) -> Seq<char> {
    "            Box::from_raw(__wgsl_bindgen_this)\n        }\n    }\n\n    pub fn as_bytes(&self) -> &[u8]\n    where\n"@ + byte_lines + "    {\n        let __wgsl_bindgen_len = ::core::mem::offset_of!("@ + sized + "<0>, "@ + tail + ") + ::core::mem::size_of_val(&self."@ + tail + ");\n        unsafe { std::slice::from_raw_parts(self as *const Self as *const u8, __wgsl_bindgen_len) }\n    }\n}\n"@
}

fn push_rt_close(out: &mut Vec<char>, sized: &Vec<char>, tail: &Vec<char>, byte_lines: &Vec<char>)
    ensures
        final(out)@ == old(out)@ + rt_close_text(sized@, tail@, byte_lines@),
{
    let ghost before = out@;
    push_str(out, "            Box::from_raw(__wgsl_bindgen_this)\n        }\n    }\n\n    pub fn as_bytes(&self) -> &[u8]\n    where\n");
    push_all(out, byte_lines);
    push_str(out, "    {\n        let __wgsl_bindgen_len = ::core::mem::offset_of!(");
    push_all(out, sized);
    push_str(out, "<0>, ");
    push_all(out, tail);
    push_str(out, ") + ::core::mem::size_of_val(&self.");
    push_all(out, tail);
    push_str(out, ");\n        unsafe { std::slice::from_raw_parts(self as *const Self as *const u8, __wgsl_bindgen_len) }\n    }\n}\n");
    assert(out@ =~= before + rt_close_text(sized@, tail@, byte_lines@));
}


/// The Rust types that the constructors of a struct write for a member:
/// the stored type (the element type, for a runtime-sized array) and the
/// init-friendly type that a value is given in, when it differs.
pub struct MemberTypeText {
    pub rust_type: String,
    pub init_type: Option<String>,
}

impl View for MemberTypeText {
    type V = (Seq<char>, Option<Seq<char>>);

    open spec fn view(&self) -> (Seq<char>, Option<Seq<char>>) {
        (
            self.rust_type@,
            match self.init_type {
                Some(t) => Some(t@),
                None => None,
            },
        )
    }
}

/// The abstract values of a list of member types.
pub open spec fn member_types_view(ts: Seq<MemberTypeText>) -> Seq<(Seq<char>, Option<Seq<char>>)> {
    Seq::new(ts.len(), |i: int| ts[i]@)
}

/// The init conversion of each member's Rust type.
pub open spec fn member_conversions(ms: Seq<MemberLayout>) -> Seq<Option<RustTypeInitConversion>> {
    Seq::new(ms.len(), |i: int| ms[i].rust_type.init_conversion)
}

/// The type a value of a member is given in: its init type when it has one.
pub open spec fn input_type(t: (Seq<char>, Option<Seq<char>>)) -> Seq<char> {
    match t.1 {
        Some(i) => i,
        None => t.0,
    }
}

/// A parameter of a constructor: the member's name and its type, which for
/// the runtime-sized array is an array of `N` input elements.
pub open spec fn new_param(m: MemberView, t: (Seq<char>, Option<Seq<char>>)) -> Seq<char> {
    m.0 + ": "@ + if m.3 is None {
        "["@ + input_type(t) + "; N]"@
    } else {
        t.0
    }
}

/// The size of the padding entry `k`: a byte count in hexadecimal, or the
/// slot size less the size of the Rust type of the field just before.
pub open spec fn pad_size_text(es: Seq<EntryPlanView>, ts: Seq<(Seq<char>, Option<Seq<char>>)>, k: int, size: PadSize) -> Seq<char> {
    match size {
        PadSize::Bytes(n) => "0x"@ + hex_upper(n as nat),
        PadSize::RemainderOf(n) => decimal(n as nat) + " - ::core::mem::size_of::<"@ + (if k > 0 {
            match es[k - 1] {
                EntryPlanView::Field(j) => ts[j as int].0,
                EntryPlanView::Padding(_, _) => Seq::empty(),
            }
        } else {
            Seq::empty()
        }) + ">()"@,
    }
}

/// The pieces of the constructors that each entry contributes, in order.
#[derive(Clone, Copy, PartialEq, Eq, Structural)]
pub enum ConstructorPiece {
    /// A parameter line of `new_sized`, or of `new` of a struct generic over
    /// its tail: a runtime-sized array is given as an array of `N` input
    /// elements.
    SizedParam,
    /// A parameter line of `new` of a struct that is not generic over its
    /// tail: each field is given in its stored type.
    PlainParam,
    /// A member line of the struct that `new` builds: the field as given, or
    /// zeroed padding.
    PlainAssign,
    /// A field line of the init struct: a runtime-sized array of a struct
    /// generic over its tail (when the flag is set) is an array of `N` input
    /// elements; any other field has its init type, or its stored type.
    InitMember(bool),
    /// A member line of the struct that `build` makes from the init struct:
    /// each field converted from its init type, or copied; padding zeroed.
    InitAssign,
    /// A member line of the struct that `new_sized` builds.
    SizedAssign,
    /// A `bytemuck::Pod` bound line on a field's type.
    ByteBound,
    /// A parameter line of `new` for a field before the tail.
    FixedParam,
    /// A line of `new` that writes a field before the tail, or zeroes padding.
    RawWrite,
}

/// What entry `k` contributes to one piece.
pub open spec fn entry_piece(
    piece: ConstructorPiece,
    es: Seq<EntryPlanView>,
    ms: Seq<MemberView>,
    ts: Seq<(Seq<char>, Option<Seq<char>>)>,
    cs: Seq<Option<RustTypeInitConversion>>,
    k: int,
) -> Seq<char> {
    match es[k] {
        EntryPlanView::Field(i) => {
            let m = ms[i as int];
            let t = ts[i as int];
            match piece {
                ConstructorPiece::SizedParam => "        "@ + new_param(m, t) + ",\n"@,
                ConstructorPiece::PlainParam => "        "@ + m.0 + ": "@ + t.0 + ",\n"@,
                ConstructorPiece::PlainAssign => "            "@ + m.0 + ",\n"@,
                ConstructorPiece::InitMember(generic) => "    pub "@ + m.0 + ": "@ + (if m.3 is None && generic {
                    "["@ + input_type(t) + "; N]"@
                } else {
                    input_type(t)
                }) + ",\n"@,
                ConstructorPiece::InitAssign => "            "@ + m.0 + ": "@ + (if t.1 is Some {
                    match cs[i as int] {
                        Some(c) => if m.3 is None {
                            "self."@ + m.0 + ".map(|value| "@ + conversion_text(c, "value"@) + ")"@
                        } else {
                            conversion_text(c, "self."@ + m.0)
                        },
                        None => Seq::empty(),
                    }
                } else {
                    "self."@ + m.0
                }) + ",\n"@,
                ConstructorPiece::SizedAssign => "            "@ + (if m.3 is None && t.1 is Some {
                    m.0 + ": "@ + m.0 + ".map(|value| "@ + match cs[i as int] {
                        Some(c) => conversion_text(c, "value"@),
                        None => Seq::empty(),
                    } + ")"@
                } else {
                    m.0
                }) + ",\n"@,
                ConstructorPiece::ByteBound => "        "@ + t.0 + ": bytemuck::Pod,\n"@,
                ConstructorPiece::FixedParam => if m.3 is None {
                    Seq::empty()
                } else {
                    "        "@ + new_param(m, t) + ",\n"@
                },
                ConstructorPiece::RawWrite => if m.3 is None {
                    Seq::empty()
                } else {
                    "            ::core::ptr::addr_of_mut!((*__wgsl_bindgen_this)."@ + m.0 + ").write("@ + m.0
                        + ");\n"@
                },
            }
        },
        EntryPlanView::Padding(name, size) => match piece {
            ConstructorPiece::SizedAssign | ConstructorPiece::PlainAssign
            | ConstructorPiece::InitAssign => "            "@ + name + ": [0; "@
                + pad_size_text(es, ts, k, size) + "],\n"@,
            ConstructorPiece::RawWrite => "            ::core::ptr::addr_of_mut!((*__wgsl_bindgen_this)."@ + name
                + ").write([0; "@ + pad_size_text(es, ts, k, size) + "]);\n"@,
            _ => Seq::empty(),
        },
    }
}

/// What the first `n` entries contribute to one piece, in order.
pub open spec fn entry_pieces(
    piece: ConstructorPiece,
    es: Seq<EntryPlanView>,
    ms: Seq<MemberView>,
    ts: Seq<(Seq<char>, Option<Seq<char>>)>,
    cs: Seq<Option<RustTypeInitConversion>>,
    n: int,
) -> Seq<char>
    decreases n,
{
    if n <= 0 {
        Seq::empty()
    } else {
        entry_pieces(piece, es, ms, ts, cs, n - 1) + entry_piece(piece, es, ms, ts, cs, n - 1)
    }
}

/// The constructors of a byte-copied struct `struct_name` whose last field
/// is a runtime-sized array (the tail):
/// - a type alias `<struct_name>Sized<N>` for the struct with a tail of `N`
///   elements, with `new_sized` (a `const fn` unless the tail's elements
///   are given in an init type, which it then converts) and `as_bytes`;
/// - on the struct itself, `new`, which takes the fields before the tail
///   and a slice of tail elements and returns the struct in a `Box`: it
///   allocates room for the fields and the tail, zeroes the padding,
///   writes the fields and converts or copies the tail elements (checking
///   first that an init element fits the stride), and `as_bytes`, which
///   views the fields and the tail as bytes.
pub open spec fn fn_new_runtime_spec(
    struct_name: Seq<char>,
    visibility: WgslTypeVisibility,
    es: Seq<EntryPlanView>,
    ms: Seq<MemberView>,
    ts: Seq<(Seq<char>, Option<Seq<char>>)>,
    cs: Seq<Option<RustTypeInitConversion>>,
) -> Seq<char> {
    match first_runtime_array_field(es, ms, 0) {
        Some(t) => {
            let sized = struct_name + "Sized"@;
            let tail = ms[t as int].0;
            let elem = ts[t as int].0;
            let input = input_type(ts[t as int]);
            let has_init = ts[t as int].1 is Some;
            let n = es.len() as int;
            let byte_lines = entry_pieces(ConstructorPiece::ByteBound, es, ms, ts, cs, n);
            rt_head_text(visibility_text(visibility), sized, struct_name, elem) + (if has_init {
                Seq::empty()
            } else {
                "const "@
            }) + rt_sized_fn_text(entry_pieces(ConstructorPiece::SizedParam, es, ms, ts, cs, n)) + (if has_init {
                rt_sized_where_text(input)
            } else {
                Seq::empty()
            }) + rt_sized_body_text(
                entry_pieces(ConstructorPiece::SizedAssign, es, ms, ts, cs, n),
                byte_lines,
                struct_name,
            ) + rt_new_sig_text(entry_pieces(ConstructorPiece::FixedParam, es, ms, ts, cs, n), tail, input)
                + rt_alloc_text(sized, tail, elem) + (if has_init {
                rt_validate_text(input, elem)
            } else {
                Seq::empty()
            }) + rt_unsafe_open_text(sized, elem, tail) + entry_pieces(
                ConstructorPiece::RawWrite,
                es,
                ms,
                ts,
                cs,
                n,
            ) + (if has_init {
                match cs[t as int] {
                    Some(c) => rt_tail_convert_text(tail, elem, conversion_text(c, "value"@)),
                    None => Seq::empty(),
                }
            } else {
                rt_tail_copy_text(tail, elem)
            }) + rt_close_text(sized, tail, byte_lines)
        },
        None => Seq::empty(),
    }
}

/// The size text of padding entry `k`.
fn pad_size_exec(entries: &Vec<RustStructMemberEntry>, types: &Vec<MemberTypeText>, k: usize, size: PadSize) -> (r: Vec<char>)
    requires
        k < entries@.len(),
        forall|q: int|
            0 <= q < entries@.len() ==> (#[trigger] entries_plan_view(entries@)[q] matches EntryPlanView::Field(
                i,
            ) ==> i < types@.len()),
    ensures
        r@ == pad_size_text(entries_plan_view(entries@), member_types_view(types@), k as int, size),
{
    let ghost ev = entries_plan_view(entries@);
    let ghost tv = member_types_view(types@);
    match size {
        PadSize::Bytes(n) => {
            let mut out = chars_of("0x");
            push_hex_usize(&mut out, n);
            out
        },
        PadSize::RemainderOf(n) => {
            let mut out: Vec<char> = Vec::new();
            push_decimal_usize(&mut out, n);
            push_str(&mut out, " - ::core::mem::size_of::<");
            if k > 0 {
                assert(ev[k - 1] == entries@[k - 1]@);
                match &entries[k - 1] {
                    RustStructMemberEntry::Field(j) => {
                        assert(tv[*j as int] == types@[*j as int]@);
                        push_str(&mut out, types[*j].rust_type.as_str());
                    },
                    RustStructMemberEntry::Padding(_) => {},
                }
            }
            push_str(&mut out, ">()");
            out
        },
    }
}

/// What entry `k` contributes to one piece.
fn entry_piece_exec(
    piece: ConstructorPiece,
    entries: &Vec<RustStructMemberEntry>,
    members: &Vec<MemberLayout>,
    types: &Vec<MemberTypeText>,
    k: usize,
) -> (r: Vec<char>)
    requires
        k < entries@.len(),
        fields_name_members(entries_plan_view(entries@), members_view(members@)),
        types@.len() == members@.len(),
    ensures
        r@ == entry_piece(
            piece,
            entries_plan_view(entries@),
            members_view(members@),
            member_types_view(types@),
            member_conversions(members@),
            k as int,
        ),
{
    let ghost ev = entries_plan_view(entries@);
    let ghost mv = members_view(members@);
    let ghost tv = member_types_view(types@);
    let ghost cv = member_conversions(members@);
    assert(ev[k as int] == entries@[k as int]@);
    assert forall|q: int|
        0 <= q < entries@.len() implies (#[trigger] ev[q] matches EntryPlanView::Field(i) ==> i
        < types@.len()) by {
        assert(ev[q] matches EntryPlanView::Field(i) ==> i < mv.len());
    }
    let mut out: Vec<char> = Vec::new();
    match &entries[k] {
        RustStructMemberEntry::Field(i) => {
            let i = *i;
            assert(i < mv.len());
            assert(mv[i as int] == members@[i as int]@);
            assert(tv[i as int] == types@[i as int]@);
            let m = &members[i];
            let t = &types[i];
            let is_rsa = m.rust_type.size.is_none();
            let name = m.name.as_str();
            match piece {
                ConstructorPiece::SizedParam | ConstructorPiece::FixedParam => {
                    if is_rsa && piece == ConstructorPiece::FixedParam {
                        return out;
                    }
                    push_str(&mut out, "        ");
                    push_str(&mut out, name);
                    push_str(&mut out, ": ");
                    if is_rsa {
                        push_str(&mut out, "[");
                        match &t.init_type {
                            Some(it) => push_str(&mut out, it.as_str()),
                            None => push_str(&mut out, t.rust_type.as_str()),
                        }
                        push_str(&mut out, "; N]");
                    } else {
                        push_str(&mut out, t.rust_type.as_str());
                    }
                    push_str(&mut out, ",\n");
                },
                ConstructorPiece::SizedAssign => {
                    push_str(&mut out, "            ");
                    push_str(&mut out, name);
                    if is_rsa && t.init_type.is_some() {
                        push_str(&mut out, ": ");
                        push_str(&mut out, name);
                        push_str(&mut out, ".map(|value| ");
                        assert(cv[i as int] == members@[i as int].rust_type.init_conversion);
                        match &m.rust_type.init_conversion {
                            Some(c) => {
                                let converted = c.generate("value");
                                push_str(&mut out, converted.as_str());
                            },
                            None => {},
                        }
                        push_str(&mut out, ")");
                    }
                    push_str(&mut out, ",\n");
                },
                ConstructorPiece::PlainParam => {
                    push_str(&mut out, "        ");
                    push_str(&mut out, name);
                    push_str(&mut out, ": ");
                    push_str(&mut out, t.rust_type.as_str());
                    push_str(&mut out, ",\n");
                },
                ConstructorPiece::PlainAssign => {
                    push_str(&mut out, "            ");
                    push_str(&mut out, name);
                    push_str(&mut out, ",\n");
                },
                ConstructorPiece::InitMember(generic) => {
                    push_str(&mut out, "    pub ");
                    push_str(&mut out, name);
                    push_str(&mut out, ": ");
                    if is_rsa && generic {
                        push_str(&mut out, "[");
                    }
                    match &t.init_type {
                        Some(it) => push_str(&mut out, it.as_str()),
                        None => push_str(&mut out, t.rust_type.as_str()),
                    }
                    if is_rsa && generic {
                        push_str(&mut out, "; N]");
                    }
                    push_str(&mut out, ",\n");
                },
                ConstructorPiece::InitAssign => {
                    push_str(&mut out, "            ");
                    push_str(&mut out, name);
                    push_str(&mut out, ": ");
                    if t.init_type.is_some() {
                        assert(cv[i as int] == members@[i as int].rust_type.init_conversion);
                        match &m.rust_type.init_conversion {
                            Some(c) => {
                                if is_rsa {
                                    push_str(&mut out, "self.");
                                    push_str(&mut out, name);
                                    push_str(&mut out, ".map(|value| ");
                                    let converted = c.generate("value");
                                    push_str(&mut out, converted.as_str());
                                    push_str(&mut out, ")");
                                } else {
                                    let mut value = chars_of("self.");
                                    push_str(&mut value, name);
                                    let value = string_of(&value);
                                    let converted = c.generate(value.as_str());
                                    push_str(&mut out, converted.as_str());
                                }
                            },
                            None => {},
                        }
                    } else {
                        push_str(&mut out, "self.");
                        push_str(&mut out, name);
                    }
                    push_str(&mut out, ",\n");
                },
                ConstructorPiece::ByteBound => {
                    push_str(&mut out, "        ");
                    push_str(&mut out, t.rust_type.as_str());
                    push_str(&mut out, ": bytemuck::Pod,\n");
                },
                ConstructorPiece::RawWrite => {
                    if !is_rsa {
                        push_str(&mut out, "            ::core::ptr::addr_of_mut!((*__wgsl_bindgen_this).");
                        push_str(&mut out, name);
                        push_str(&mut out, ").write(");
                        push_str(&mut out, name);
                        push_str(&mut out, ");\n");
                    }
                },
            }
        },
        RustStructMemberEntry::Padding(p) => {
            match piece {
                ConstructorPiece::SizedAssign | ConstructorPiece::PlainAssign | ConstructorPiece::InitAssign => {
                    push_str(&mut out, "            ");
                    push_str(&mut out, p.pad_name.as_str());
                    push_str(&mut out, ": [0; ");
                    push_all(&mut out, &pad_size_exec(entries, types, k, p.pad_size));
                    push_str(&mut out, "],\n");
                },
                ConstructorPiece::RawWrite => {
                    push_str(&mut out, "            ::core::ptr::addr_of_mut!((*__wgsl_bindgen_this).");
                    push_str(&mut out, p.pad_name.as_str());
                    push_str(&mut out, ").write([0; ");
                    push_all(&mut out, &pad_size_exec(entries, types, k, p.pad_size));
                    push_str(&mut out, "]);\n");
                },
                _ => {},
            }
        },
    }
    out
}

/// What all entries contribute to one piece, in order.
fn entry_pieces_exec(
    piece: ConstructorPiece,
    entries: &Vec<RustStructMemberEntry>,
    members: &Vec<MemberLayout>,
    types: &Vec<MemberTypeText>,
) -> (r: Vec<char>)
    requires
        fields_name_members(entries_plan_view(entries@), members_view(members@)),
        types@.len() == members@.len(),
    ensures
        r@ == entry_pieces(
            piece,
            entries_plan_view(entries@),
            members_view(members@),
            member_types_view(types@),
            member_conversions(members@),
            entries@.len() as int,
        ),
{
    let mut out: Vec<char> = Vec::new();
    let mut k: usize = 0;
    while k < entries.len()
        invariant
            k <= entries@.len(),
            fields_name_members(entries_plan_view(entries@), members_view(members@)),
            types@.len() == members@.len(),
            out@ == entry_pieces(
                piece,
                entries_plan_view(entries@),
                members_view(members@),
                member_types_view(types@),
                member_conversions(members@),
                k as int,
            ),
        decreases entries@.len() - k,
    {
        let more = entry_piece_exec(piece, entries, members, types, k);
        push_all(&mut out, &more);
        k += 1;
    }
    out
}


/// The runtime-sized field that the search from entry `k` finds names a
/// member.
proof fn lemma_first_runtime_field_is_member(es: Seq<EntryPlanView>, ms: Seq<MemberView>, k: int)
    requires
        fields_name_members(es, ms),
    ensures
        first_runtime_array_field(es, ms, k) matches Some(i) ==> i < ms.len(),
    decreases es.len() - k,
{
    if 0 <= k < es.len() {
        assert(es[k] matches EntryPlanView::Field(i) ==> i < ms.len());
        lemma_first_runtime_field_is_member(es, ms, k + 1);
    }
}

/// The constructors of the byte-copied struct `struct_name` whose last
/// field is a runtime-sized array; `types` gives the Rust types of the
/// members, in the order of `members`.
#[verifier::rlimit(50)]
pub fn fn_new_runtime_text(
    struct_name: &str,
    visibility: WgslTypeVisibility,
    entries: &Vec<RustStructMemberEntry>,
    members: &Vec<MemberLayout>,
    types: &Vec<MemberTypeText>,
) -> (r: String)
    requires
        fields_name_members(entries_plan_view(entries@), members_view(members@)),
        types@.len() == members@.len(),
        first_runtime_array_field(entries_plan_view(entries@), members_view(members@), 0) is Some,
        forall|i: int|
            0 <= i < members@.len() && members@[i].rust_type.size is None && #[trigger] types@[i].init_type
                is Some ==> members@[i].rust_type.init_conversion is Some,
    ensures
        r@ == fn_new_runtime_spec(
            struct_name@,
            visibility,
            entries_plan_view(entries@),
            members_view(members@),
            member_types_view(types@),
            member_conversions(members@),
        ),
{
    let ghost ev = entries_plan_view(entries@);
    let ghost mv = members_view(members@);
    let ghost tv = member_types_view(types@);
    let ghost cv = member_conversions(members@);
    let t = match runtime_array_field(entries, members, true) {
        Some(t) => t,
        None => {
            return String::new();
        },
    };
    proof {
        lemma_first_runtime_field_is_member(ev, mv, 0);
    }
    assert(t < mv.len());
    assert(mv[t as int] == members@[t as int]@);
    assert(tv[t as int] == types@[t as int]@);
    assert(cv[t as int] == members@[t as int].rust_type.init_conversion);
    let m = &members[t];
    let ty = &types[t];
    let name = chars_of(struct_name);
    let mut sized = chars_of(struct_name);
    push_str(&mut sized, "Sized");
    let tail = chars_of(m.name.as_str());
    let elem = chars_of(ty.rust_type.as_str());
    let input = match &ty.init_type {
        Some(it) => chars_of(it.as_str()),
        None => chars_of(ty.rust_type.as_str()),
    };
    let has_init = ty.init_type.is_some();
    let vis = chars_of(visibility.generate_quote().as_str());
    let sized_params = entry_pieces_exec(ConstructorPiece::SizedParam, entries, members, types);
    let assigns = entry_pieces_exec(ConstructorPiece::SizedAssign, entries, members, types);
    let byte_lines = entry_pieces_exec(ConstructorPiece::ByteBound, entries, members, types);
    let fixed_lines = entry_pieces_exec(ConstructorPiece::FixedParam, entries, members, types);
    let raw_lines = entry_pieces_exec(ConstructorPiece::RawWrite, entries, members, types);

    let mut out: Vec<char> = Vec::new();
    push_rt_head(&mut out, &vis, &sized, &name, &elem);
    if !has_init {
        push_str(&mut out, "const ");
    }
    push_rt_sized_fn(&mut out, &sized_params);
    if has_init {
        push_rt_sized_where(&mut out, &input);
    }
    push_rt_sized_body(&mut out, &assigns, &byte_lines, &name);
    push_rt_new_sig(&mut out, &fixed_lines, &tail, &input);
    push_rt_alloc(&mut out, &sized, &tail, &elem);
    if has_init {
        push_rt_validate(&mut out, &input, &elem);
    }
    push_rt_unsafe_open(&mut out, &sized, &elem, &tail);
    push_all(&mut out, &raw_lines);
    if has_init {
        match &m.rust_type.init_conversion {
            Some(c) => {
                let converted = chars_of(c.generate("value").as_str());
                push_rt_tail_convert(&mut out, &tail, &elem, &converted);
            },
            None => {},
        }
    } else {
        push_rt_tail_copy(&mut out, &tail, &elem);
    }
    push_rt_close(&mut out, &sized, &tail, &byte_lines);
    proof {
        let spec_vis = visibility_text(visibility);
        assert(vis@ == spec_vis);
        assert(out@ =~= fn_new_runtime_spec(struct_name@, visibility, ev, mv, tv, cv));
    }
    string_of(&out)
}


/// Whether the constructor of a struct with `n` entries is the short one:
/// a free function named after the struct, when a limit is set and the
/// struct has no more entries than it (a negative limit admits any number).
pub open spec fn uses_short_constructor(short_constructor: Option<i32>, n: int) -> bool {
    match short_constructor {
        Some(max) => max < 0 || n <= max,
        None => false,
    }
}

/// The `const` constructor of a struct that takes each field and zeroes
/// the padding: `new` in an impl of the struct (of `<struct_name>Sized<N>`
/// when it is generic over its tail), or, under the short-constructor
/// limit, a free function named after the struct.
pub open spec fn fn_new_spec(
    struct_name: Seq<char>,
    generic_tail: bool,
    short_constructor: Option<i32>,
    es: Seq<EntryPlanView>,
    ms: Seq<MemberView>,
    ts: Seq<(Seq<char>, Option<Seq<char>>)>,
    cs: Seq<Option<RustTypeInitConversion>>,
) -> Seq<char> {
    let n = es.len() as int;
    let params = entry_pieces(
        if generic_tail {
            ConstructorPiece::SizedParam
        } else {
            ConstructorPiece::PlainParam
        },
        es,
        ms,
        ts,
        cs,
        n,
    );
    let assigns = entry_pieces(ConstructorPiece::PlainAssign, es, ms, ts, cs, n);
    let usage = if generic_tail {
        struct_name + "Sized<N>"@
    } else {
        struct_name
    };
    let generics = if generic_tail {
        "<const N: usize>"@
    } else {
        Seq::empty()
    };
    if uses_short_constructor(short_constructor, n) {
        "pub const fn "@ + struct_name + generics + "(\n"@ + params + "    ) -> "@ + usage + " {\n        "@
            + struct_name + " {\n"@ + assigns + "        }\n    }\n"@
    } else {
        "impl"@ + generics + " "@ + usage + " {\n    pub const fn new(\n"@ + params
            + "    ) -> Self {\n        Self {\n"@ + assigns + "        }\n    }\n}\n"@
    }
}

/// The `const` constructor of the struct `struct_name`; `types` gives the
/// Rust types of the members, in the order of `members`.
pub fn fn_new_text(
    struct_name: &str,
    generic_tail: bool,
    short_constructor: Option<i32>,
    entries: &Vec<RustStructMemberEntry>,
    members: &Vec<MemberLayout>,
    types: &Vec<MemberTypeText>,
) -> (r: String)
    requires
        fields_name_members(entries_plan_view(entries@), members_view(members@)),
        types@.len() == members@.len(),
    ensures
        r@ == fn_new_spec(
            struct_name@,
            generic_tail,
            short_constructor,
            entries_plan_view(entries@),
            members_view(members@),
            member_types_view(types@),
            member_conversions(members@),
        ),
{
    let params = entry_pieces_exec(
        if generic_tail {
            ConstructorPiece::SizedParam
        } else {
            ConstructorPiece::PlainParam
        },
        entries,
        members,
        types,
    );
    let assigns = entry_pieces_exec(ConstructorPiece::PlainAssign, entries, members, types);
    let short = match short_constructor {
        Some(max) => max < 0 || entries.len() <= max as usize,
        None => false,
    };
    let mut out: Vec<char> = Vec::new();
    if short {
        push_str(&mut out, "pub const fn ");
        push_str(&mut out, struct_name);
        if generic_tail {
            push_str(&mut out, "<const N: usize>");
        }
        push_str(&mut out, "(\n");
        push_all(&mut out, &params);
        push_str(&mut out, "    ) -> ");
        push_str(&mut out, struct_name);
        if generic_tail {
            push_str(&mut out, "Sized<N>");
        }
        push_str(&mut out, " {\n        ");
        push_str(&mut out, struct_name);
        push_str(&mut out, " {\n");
        push_all(&mut out, &assigns);
        push_str(&mut out, "        }\n    }\n");
    } else {
        push_str(&mut out, "impl");
        if generic_tail {
            push_str(&mut out, "<const N: usize>");
        }
        push_str(&mut out, " ");
        push_str(&mut out, struct_name);
        if generic_tail {
            push_str(&mut out, "Sized<N>");
        }
        push_str(&mut out, " {\n    pub const fn new(\n");
        push_all(&mut out, &params);
        push_str(&mut out, "    ) -> Self {\n        Self {\n");
        push_all(&mut out, &assigns);
        push_str(&mut out, "        }\n    }\n}\n");
    }
    assert(out@ =~= fn_new_spec(
        struct_name@,
        generic_tail,
        short_constructor,
        entries_plan_view(entries@),
        members_view(members@),
        member_types_view(types@),
        member_conversions(members@),
    ));
    string_of(&out)
}


/// The init struct of the struct `struct_name`: a `#[repr(C)]` struct
/// `<struct_name>Init` whose fields have their init-friendly types and no
/// padding, with `build`, which makes the struct (`<struct_name>Sized<N>`
/// when it is generic over its tail) by converting each field and zeroing
/// the padding, and `From` of the init struct for the struct.
pub open spec fn init_struct_spec(
    struct_name: Seq<char>,
    visibility: WgslTypeVisibility,
    generic_tail: bool,
    es: Seq<EntryPlanView>,
    ms: Seq<MemberView>,
    ts: Seq<(Seq<char>, Option<Seq<char>>)>,
    cs: Seq<Option<RustTypeInitConversion>>,
) -> Seq<char> {
    let n = es.len() as int;
    let init_name = struct_name + "Init"@;
    let (generics, args, sized) = if generic_tail {
        ("<const N: usize>"@, "<N>"@, struct_name + "Sized"@)
    } else {
        (Seq::empty(), Seq::empty(), struct_name)
    };
    "#[repr(C)]\n#[derive(Debug, PartialEq, Clone, Copy)]\n"@ + visibility_text(visibility) + " struct "@ + init_name
        + generics + " {\n"@ + entry_pieces(ConstructorPiece::InitMember(generic_tail), es, ms, ts, cs, n)
        + "}\n\nimpl"@ + generics + " "@ + init_name + args + " {\n    pub fn build(&self) -> "@ + sized + args
        + " {\n        "@ + sized + " {\n"@ + entry_pieces(ConstructorPiece::InitAssign, es, ms, ts, cs, n)
        + "        }\n    }\n}\n\nimpl"@ + generics + " From<"@ + init_name + args + "> for "@ + sized + args
        + " {\n    fn from(data: "@ + init_name + args + ") -> Self {\n        data.build()\n    }\n}\n"@
}

/// The init struct of the struct `struct_name`, for a byte-copied struct
/// that has padding or fields with init types, or always when asked to;
/// nothing otherwise. `types` gives the Rust types of the members, in the
/// order of `members`.
pub fn init_struct_text(
    struct_name: &str,
    visibility: WgslTypeVisibility,
    generic_tail: bool,
    strategy: WgslTypeSerializeStrategy,
    host_sharable: bool,
    always_generate_init_struct: bool,
    entries: &Vec<RustStructMemberEntry>,
    members: &Vec<MemberLayout>,
    types: &Vec<MemberTypeText>,
) -> (r: String)
    requires
        fields_name_members(entries_plan_view(entries@), members_view(members@)),
        types@.len() == members@.len(),
        forall|i: int|
            0 <= i < members@.len() && #[trigger] types@[i].init_type is Some
                ==> members@[i].rust_type.init_conversion is Some,
    ensures
        r@ == if directly_shareable(strategy, host_sharable) && ((exists|k: int|
            0 <= k < entries@.len() && needs_init(
                #[trigger] entries_plan_view(entries@)[k],
                members_view(members@),
                init_convertible(members@),
            )) || always_generate_init_struct) {
            init_struct_spec(
                struct_name@,
                visibility,
                generic_tail,
                entries_plan_view(entries@),
                members_view(members@),
                member_types_view(types@),
                member_conversions(members@),
            )
        } else {
            Seq::empty()
        },
{
    let has_padding = uses_padding(entries, members);
    if !generates_init_struct(strategy, host_sharable, has_padding, always_generate_init_struct) {
        return String::new();
    }
    let vis = visibility.generate_quote();
    let mut init_name = chars_of(struct_name);
    push_str(&mut init_name, "Init");
    let mut sized = chars_of(struct_name);
    if generic_tail {
        push_str(&mut sized, "Sized");
    }
    let generics = if generic_tail {
        chars_of("<const N: usize>")
    } else {
        Vec::new()
    };
    let args = if generic_tail {
        chars_of("<N>")
    } else {
        Vec::new()
    };
    let members_text = entry_pieces_exec(ConstructorPiece::InitMember(generic_tail), entries, members, types);
    let assigns = entry_pieces_exec(ConstructorPiece::InitAssign, entries, members, types);
    let mut out = chars_of("#[repr(C)]\n#[derive(Debug, PartialEq, Clone, Copy)]\n");
    push_str(&mut out, vis.as_str());
    push_str(&mut out, " struct ");
    push_all(&mut out, &init_name);
    push_all(&mut out, &generics);
    push_str(&mut out, " {\n");
    push_all(&mut out, &members_text);
    push_str(&mut out, "}\n\nimpl");
    push_all(&mut out, &generics);
    push_str(&mut out, " ");
    push_all(&mut out, &init_name);
    push_all(&mut out, &args);
    push_str(&mut out, " {\n    pub fn build(&self) -> ");
    push_all(&mut out, &sized);
    push_all(&mut out, &args);
    push_str(&mut out, " {\n        ");
    push_all(&mut out, &sized);
    push_str(&mut out, " {\n");
    push_all(&mut out, &assigns);
    push_str(&mut out, "        }\n    }\n}\n\nimpl");
    push_all(&mut out, &generics);
    push_str(&mut out, " From<");
    push_all(&mut out, &init_name);
    push_all(&mut out, &args);
    push_str(&mut out, "> for ");
    push_all(&mut out, &sized);
    push_all(&mut out, &args);
    push_str(&mut out, " {\n    fn from(data: ");
    push_all(&mut out, &init_name);
    push_all(&mut out, &args);
    push_str(&mut out, ") -> Self {\n        data.build()\n    }\n}\n");
    assert(out@ =~= init_struct_spec(
        struct_name@,
        visibility,
        generic_tail,
        entries_plan_view(entries@),
        members_view(members@),
        member_types_view(types@),
        member_conversions(members@),
    ));
    string_of(&out)
}

} // verus!
