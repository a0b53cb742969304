use wgsl_bindgen::options::{WgslTypeSerializeStrategy, WgslTypeVisibility};
use wgsl_bindgen::rust_type_info::{RustTypeInfo, RustTypeInitConversion};
use wgsl_bindgen::struct_layout::{MemberLayout, PadSize, Padding, RustStructMemberEntry};
use wgsl_bindgen::struct_text::{
    array_element_helper_item, array_element_helper_text, fn_new_runtime_text, fn_new_text, init_struct_text,
    MemberTypeText,
};

fn member(name: &str, offset: u32, size: Option<usize>, init: Option<RustTypeInitConversion>) -> MemberLayout {
    MemberLayout {
        name: name.to_string(),
        offset,
        wgsl_size: 4,
        rust_type: RustTypeInfo { size, alignment: 4, init_conversion: init },
        type_overridden: false,
        is_builtin: false,
        is_custom_padding: false,
    }
}

fn ty(rust_type: &str, init_type: Option<&str>) -> MemberTypeText {
    MemberTypeText { rust_type: rust_type.to_string(), init_type: init_type.map(|s| s.to_string()) }
}

#[test]
fn visibility_text_of_each_variant() {
    assert_eq!(WgslTypeVisibility::Public.generate_quote(), "pub");
    assert_eq!(WgslTypeVisibility::RestrictedCrate.generate_quote(), "pub(crate)");
    assert_eq!(WgslTypeVisibility::RestrictedSuper.generate_quote(), "pub(super)");
}

#[test]
fn conversions_wrap_padded_elements() {
    let padded = RustTypeInitConversion::PaddedArrayElement(None);
    assert_eq!(padded.generate("x"), "WgslBindgenArrayElement::new(x)");
    let array = RustTypeInitConversion::Array(Box::new(RustTypeInitConversion::PaddedArrayElement(None)));
    assert_eq!(array.generate("v"), "v.map(|value| WgslBindgenArrayElement::new(value))");
}

#[test]
fn array_element_helper_has_serde_only_when_asked() {
    let plain = array_element_helper_text(false);
    assert!(plain.starts_with("#[doc(hidden)]\n#[repr(transparent)]\n#[derive(Debug, PartialEq, Clone, Copy)]\n"));
    assert!(plain.contains("pub struct WgslBindgenArrayElement<const STRIDE: usize>(pub [u8; STRIDE]);"));
    assert!(plain.contains("unsafe impl<const STRIDE: usize> bytemuck::Pod for WgslBindgenArrayElement<STRIDE> {}"));
    assert!(!plain.contains("serde"));
    let with_serde = array_element_helper_text(true);
    assert!(with_serde.starts_with(&plain));
    assert!(with_serde.contains("impl<const STRIDE: usize> serde::Serialize for WgslBindgenArrayElement<STRIDE>"));
    assert!(with_serde.contains("impl<'de, const STRIDE: usize> serde::Deserialize<'de> for WgslBindgenArrayElement<STRIDE>"));
}

#[test]
fn array_element_helper_lives_in_its_module() {
    let (path, text) = array_element_helper_item("shader::types", true);
    assert_eq!(path.module, "shader::types");
    assert_eq!(path.name, "WgslBindgenArrayElement");
    assert_eq!(text, array_element_helper_text(true));
}

#[test]
fn runtime_constructors_copy_a_plain_tail() {
    let members = vec![member("count", 0, Some(4), None), member("data", 16, None, None)];
    let types = vec![ty("u32", None), ty("[f32; 4]", None)];
    let entries = vec![
        RustStructMemberEntry::Field(0),
        RustStructMemberEntry::Padding(Padding { pad_name: "_pad_count".to_string(), pad_size: PadSize::Bytes(12) }),
        RustStructMemberEntry::Field(1),
    ];
    let text = fn_new_runtime_text("Particles", WgslTypeVisibility::Public, &entries, &members, &types);
    assert!(text.starts_with(
        "pub type ParticlesSized<const N: usize> = Particles<[[f32; 4]; N]>;\n\nimpl<const N: usize> ParticlesSized<N> {\n    pub const fn new_sized(\n        count: u32,\n        data: [[f32; 4]; N],\n    ) -> Self\n    {\n        Self {\n            count,\n            _pad_count: [0; 0xC],\n            data,\n        }\n    }\n"
    ));
    assert!(text.contains("    where\n        u32: bytemuck::Pod,\n        [f32; 4]: bytemuck::Pod,\n    {\n"));
    assert!(text.contains("impl Particles {\n    pub fn new(\n        count: u32,\n        data: &[[f32; 4]],\n    ) -> Box<Self>\n"));
    assert!(text.contains("            ::core::ptr::addr_of_mut!((*__wgsl_bindgen_this).count).write(count);\n            ::core::ptr::addr_of_mut!((*__wgsl_bindgen_this)._pad_count).write([0; 0xC]);\n"));
    assert!(text.contains("ptr::copy_nonoverlapping(data.as_ptr(), ptr::addr_of_mut!((*__wgsl_bindgen_this).data).cast::<[f32; 4]>(), data.len());"));
    assert!(text.contains("mem::offset_of!(ParticlesSized<0>, data)"));
    assert!(!text.contains("Rust array element exceeds its WGSL stride"));
    assert!(text.ends_with("std::slice::from_raw_parts(self as *const Self as *const u8, __wgsl_bindgen_len) }\n    }\n}\n"));
}

#[test]
fn runtime_constructors_convert_an_init_tail() {
    let members = vec![
        member("count", 0, Some(4), None),
        member("points", 16, None, Some(RustTypeInitConversion::PaddedArrayElement(None))),
    ];
    let types = vec![ty("u32", None), ty("WgslBindgenArrayElement<16>", Some("[f32; 3]"))];
    let entries = vec![
        RustStructMemberEntry::Field(0),
        RustStructMemberEntry::Padding(Padding { pad_name: "_pad_count".to_string(), pad_size: PadSize::RemainderOf(16) }),
        RustStructMemberEntry::Field(1),
    ];
    let text = fn_new_runtime_text("Mesh", WgslTypeVisibility::RestrictedCrate, &entries, &members, &types);
    assert!(text.starts_with("pub(crate) type MeshSized<const N: usize> = Mesh<[WgslBindgenArrayElement<16>; N]>;\n"));
    assert!(text.contains("    pub fn new_sized(\n        count: u32,\n        points: [[f32; 3]; N],\n    ) -> Self\n    where\n        [f32; 3]: bytemuck::Pod,\n"));
    assert!(!text.contains("const fn new_sized"));
    assert!(text.contains("            _pad_count: [0; 16 - ::core::mem::size_of::<u32>()],\n"));
    assert!(text.contains("            points: points.map(|value| WgslBindgenArrayElement::new(value)),\n"));
    assert!(text.contains("        points: &[[f32; 3]],\n"));
    assert!(text.contains("mem::size_of::<[f32; 3]>() <= mem::size_of::<WgslBindgenArrayElement<16>>()"));
    assert!(text.contains(".write(WgslBindgenArrayElement::new(value));"));
}

fn padded_vec3_struct() -> (Vec<RustStructMemberEntry>, Vec<MemberLayout>, Vec<MemberTypeText>) {
    let members = vec![
        member("position", 0, Some(12), None),
        member("scale", 16, Some(4), None),
    ];
    let types = vec![ty("[f32; 3]", None), ty("f32", None)];
    let entries = vec![
        RustStructMemberEntry::Field(0),
        RustStructMemberEntry::Padding(Padding { pad_name: "_pad_position".to_string(), pad_size: PadSize::RemainderOf(16) }),
        RustStructMemberEntry::Field(1),
        RustStructMemberEntry::Padding(Padding { pad_name: "_pad_scale".to_string(), pad_size: PadSize::Bytes(12) }),
    ];
    (entries, members, types)
}

#[test]
fn new_takes_the_fields_and_zeroes_padding() {
    let (entries, members, types) = padded_vec3_struct();
    let text = fn_new_text("Transform", false, None, &entries, &members, &types);
    assert_eq!(
        text,
        "impl Transform {\n    pub const fn new(\n        position: [f32; 3],\n        scale: f32,\n    ) -> Self {\n        Self {\n            position,\n            _pad_position: [0; 16 - ::core::mem::size_of::<[f32; 3]>()],\n            scale,\n            _pad_scale: [0; 0xC],\n        }\n    }\n}\n"
    );
}

#[test]
fn short_constructor_applies_within_its_limit() {
    let (entries, members, types) = padded_vec3_struct();
    let short = fn_new_text("Transform", false, Some(4), &entries, &members, &types);
    assert!(short.starts_with("pub const fn Transform(\n        position: [f32; 3],\n        scale: f32,\n    ) -> Transform {\n        Transform {\n"));
    let long = fn_new_text("Transform", false, Some(3), &entries, &members, &types);
    assert!(long.starts_with("impl Transform {\n    pub const fn new(\n"));
    let any = fn_new_text("Transform", false, Some(-1), &entries, &members, &types);
    assert!(any.starts_with("pub const fn Transform("));
}

#[test]
fn init_struct_converts_fields_and_zeroes_padding() {
    let members = vec![
        member("count", 0, Some(4), None),
        member("colors", 16, Some(32), Some(RustTypeInitConversion::Array(Box::new(RustTypeInitConversion::PaddedArrayElement(None))))),
    ];
    let types = vec![ty("u32", None), ty("[WgslBindgenArrayElement<16>; 2]", Some("[[f32; 3]; 2]"))];
    let entries = vec![
        RustStructMemberEntry::Field(0),
        RustStructMemberEntry::Padding(Padding { pad_name: "_pad_count".to_string(), pad_size: PadSize::Bytes(12) }),
        RustStructMemberEntry::Field(1),
    ];
    let text = init_struct_text(
        "Palette",
        WgslTypeVisibility::Public,
        false,
        WgslTypeSerializeStrategy::Bytemuck,
        true,
        false,
        &entries,
        &members,
        &types,
    );
    assert_eq!(
        text,
        "#[repr(C)]\n#[derive(Debug, PartialEq, Clone, Copy)]\npub struct PaletteInit {\n    pub count: u32,\n    pub colors: [[f32; 3]; 2],\n}\n\nimpl PaletteInit {\n    pub fn build(&self) -> Palette {\n        Palette {\n            count: self.count,\n            _pad_count: [0; 0xC],\n            colors: self.colors.map(|value| WgslBindgenArrayElement::new(value)),\n        }\n    }\n}\n\nimpl From<PaletteInit> for Palette {\n    fn from(data: PaletteInit) -> Self {\n        data.build()\n    }\n}\n"
    );
    let encase = init_struct_text(
        "Palette",
        WgslTypeVisibility::Public,
        false,
        WgslTypeSerializeStrategy::Encase,
        true,
        true,
        &entries,
        &members,
        &types,
    );
    assert_eq!(encase, "");
}

#[test]
fn init_struct_only_when_needed_or_asked() {
    let members = vec![member("a", 0, Some(4), None)];
    let types = vec![ty("u32", None)];
    let entries = vec![RustStructMemberEntry::Field(0)];
    let none = init_struct_text("A", WgslTypeVisibility::Public, false, WgslTypeSerializeStrategy::Bytemuck, true, false, &entries, &members, &types);
    assert_eq!(none, "");
    let asked = init_struct_text("A", WgslTypeVisibility::RestrictedSuper, false, WgslTypeSerializeStrategy::Bytemuck, true, true, &entries, &members, &types);
    assert!(asked.starts_with("#[repr(C)]\n#[derive(Debug, PartialEq, Clone, Copy)]\npub(super) struct AInit {\n    pub a: u32,\n}\n"));
    assert!(asked.contains("            a: self.a,\n"));
}
