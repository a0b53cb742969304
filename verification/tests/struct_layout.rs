use wgsl_bindgen::layout::{get_stride_and_padding, map_mat_type, map_vec_type, round_up, ScalarKind};
use wgsl_bindgen::options::WgslTypeSerializeStrategy;
use wgsl_bindgen::rust_type_info::{
    constant_array_type_info, dynamic_array_type_info, rust_scalar_type, ArrayStorage, RustTypeInfo,
    RustTypeInitConversion,
};
use wgsl_bindgen::name_demangle::RustSourceItemPath;
use wgsl_bindgen::struct_layout::{
    build_layout_assertion, calculate_actual_struct_size, TailElement, expected_struct_size_exec, generates_init_struct,
    is_directly_shareable, runtime_array_field, struct_member_entries, uses_generics_for_rts,
    uses_padding, MemberLayout, PadSize, RustStructMemberEntry,
};
use wgsl_bindgen::wgsl_type::{WgslMatType, WgslVecType};

fn member(name: &str, offset: u32, wgsl_size: u32, size: Option<usize>, alignment: u32) -> MemberLayout {
    MemberLayout {
        name: name.to_string(),
        offset,
        wgsl_size,
        rust_type: RustTypeInfo { size, alignment, init_conversion: None },
        type_overridden: false,
        is_builtin: false,
        is_custom_padding: false,
    }
}

fn describe(entries: &[RustStructMemberEntry], members: &[MemberLayout]) -> Vec<String> {
    entries
        .iter()
        .map(|e| match e {
            RustStructMemberEntry::Field(i) => members[*i].name.clone(),
            RustStructMemberEntry::Padding(p) => match p.pad_size {
                PadSize::Bytes(n) => format!("{}[{}]", p.pad_name, n),
                PadSize::RemainderOf(n) => format!("{}[{} - size]", p.pad_name, n),
            },
        })
        .collect()
}

#[test]
fn round_up_examples() {
    assert_eq!(round_up(16, 0), 0);
    assert_eq!(round_up(16, 1), 16);
    assert_eq!(round_up(16, 12), 16);
    assert_eq!(round_up(16, 16), 16);
    assert_eq!(round_up(8, 17), 24);
    assert_eq!(round_up(4, 4), 4);
}

#[test]
fn stride_and_padding_of_vectors() {
    // vec3<f32>: 12 bytes used, 16 with the alignment.
    assert_eq!(get_stride_and_padding(16, 3, 4, WgslTypeSerializeStrategy::Bytemuck), (16, 4));
    assert_eq!(get_stride_and_padding(16, 3, 4, WgslTypeSerializeStrategy::Encase), (16, 0));
    assert_eq!(get_stride_and_padding(8, 2, 4, WgslTypeSerializeStrategy::Bytemuck), (8, 0));
}

#[test]
fn vector_and_matrix_types() {
    assert_eq!(map_vec_type(3, ScalarKind::Float, 4), Some(WgslVecType::Vec3f));
    assert_eq!(map_vec_type(2, ScalarKind::Float, 2), Some(WgslVecType::Vec2h));
    assert_eq!(map_vec_type(4, ScalarKind::Uint, 4), Some(WgslVecType::Vec4u));
    assert_eq!(map_vec_type(3, ScalarKind::Bool, 1), None);
    assert_eq!(map_mat_type(4, 3, ScalarKind::Float, 4), Some(WgslMatType::Mat4x3f));
    assert_eq!(map_mat_type(2, 2, ScalarKind::Float, 2), Some(WgslMatType::Mat2x2h));
    assert_eq!(map_mat_type(2, 2, ScalarKind::Sint, 4), None);
}

#[test]
fn bytemuck_struct_gets_padding_after_short_fields() {
    // struct { a: vec3<f32>, b: f32, c: vec2<f32> } with c's slot padded to 16.
    let members = vec![
        member("a", 0, 12, Some(12), 16),
        member("b", 12, 4, Some(4), 4),
        member("c", 16, 8, Some(8), 8),
    ];
    let entries = struct_member_entries(&members, 32, true);
    assert_eq!(describe(&entries, &members), vec!["a", "_pad_a[12 - size]", "b", "c", "_pad_c[16 - size]"]);
    assert!(uses_padding(&entries, &members));
    assert_eq!(calculate_actual_struct_size(&entries, &members, 16), 32);
}

#[test]
fn encase_struct_has_no_padding() {
    let members = vec![member("a", 0, 12, Some(12), 16), member("b", 16, 4, Some(4), 4)];
    let entries = struct_member_entries(&members, 32, false);
    assert_eq!(describe(&entries, &members), vec!["a", "b"]);
    assert!(!uses_padding(&entries, &members));
}

#[test]
fn builtin_and_custom_padding_members() {
    let mut position = member("position", 0, 16, Some(16), 16);
    position.is_builtin = true;
    let mut pad = member("_padding", 16, 4, Some(4), 4);
    pad.is_custom_padding = true;
    let members = vec![position, pad, member("x", 20, 4, Some(4), 4), member("y", 24, 8, Some(8), 8)];
    let entries = struct_member_entries(&members, 32, true);
    assert_eq!(
        describe(&entries, &members),
        vec!["_pad_position[16]", "_padding[4]", "x", "y"]
    );
}

#[test]
fn overridden_field_always_gets_padding() {
    let mut m = member("m", 0, 16, Some(16), 16);
    m.type_overridden = true;
    let members = vec![m];
    let entries = struct_member_entries(&members, 16, true);
    assert_eq!(describe(&entries, &members), vec!["m", "_pad_m[16 - size]"]);
}

#[test]
fn runtime_sized_tail() {
    let members = vec![member("count", 0, 4, Some(4), 4), member("items", 16, 0, None, 16)];
    let entries = struct_member_entries(&members, 16, true);
    assert_eq!(describe(&entries, &members), vec!["count", "_pad_count[16 - size]", "items"]);
    assert_eq!(runtime_array_field(&entries, &members, true), Some(1));
    assert_eq!(runtime_array_field(&entries, &members, false), None);
    assert!(uses_generics_for_rts(true, WgslTypeSerializeStrategy::Bytemuck));
    assert!(!uses_generics_for_rts(true, WgslTypeSerializeStrategy::Encase));
}

#[test]
fn struct_sizes() {
    assert_eq!(expected_struct_size_exec(true, 20, None), 20);
    assert_eq!(expected_struct_size_exec(true, 20, Some(16)), 32);
    assert_eq!(expected_struct_size_exec(false, 20, Some(16)), 0);
    let members = vec![member("a", 0, 4, Some(4), 4)];
    let entries = struct_member_entries(&members, 4, true);
    assert_eq!(calculate_actual_struct_size(&entries, &members, 16), 16);
    assert_eq!(calculate_actual_struct_size(&vec![], &members, 16), 0);
}

#[test]
fn init_struct_and_sharing_flags() {
    assert!(is_directly_shareable(WgslTypeSerializeStrategy::Bytemuck, true));
    assert!(!is_directly_shareable(WgslTypeSerializeStrategy::Encase, true));
    assert!(generates_init_struct(WgslTypeSerializeStrategy::Bytemuck, true, true, false));
    assert!(generates_init_struct(WgslTypeSerializeStrategy::Bytemuck, true, false, true));
    assert!(!generates_init_struct(WgslTypeSerializeStrategy::Bytemuck, true, false, false));
    assert!(!generates_init_struct(WgslTypeSerializeStrategy::Encase, true, true, true));
}

#[test]
fn array_types() {
    let vec3 = RustTypeInfo { size: Some(12), alignment: 16, init_conversion: None };
    let (info, storage) =
        constant_array_type_info(&vec3, 4, 16, 16, WgslTypeSerializeStrategy::Bytemuck);
    assert_eq!(info.size, Some(64));
    assert_eq!(storage, ArrayStorage::PaddedElements);
    assert!(info.uses_array_element_helper());

    let vec4 = RustTypeInfo { size: Some(16), alignment: 16, init_conversion: None };
    let (info, storage) =
        constant_array_type_info(&vec4, 4, 16, 16, WgslTypeSerializeStrategy::Bytemuck);
    assert_eq!(storage, ArrayStorage::Elements);
    assert!(info.init_conversion.is_none());

    let (info, storage) = dynamic_array_type_info(&vec3, 16, 16, WgslTypeSerializeStrategy::Encase);
    assert_eq!(storage, ArrayStorage::Vector);
    assert!(info.size.is_none());
    let (info, storage) = dynamic_array_type_info(&vec3, 16, 16, WgslTypeSerializeStrategy::Bytemuck);
    assert_eq!(storage, ArrayStorage::PaddedElements);
    assert!(matches!(info.init_conversion, Some(RustTypeInitConversion::PaddedArrayElement(None))));
    assert_eq!(vec3.aligned_size(), Some(16));
    assert_eq!(vec3.alignment_value(), 16);
}

#[test]
fn rust_types_of_scalars() {
    let (name, info) = rust_scalar_type(ScalarKind::Float, 2, 2);
    assert_eq!(name, "half::f16");
    assert_eq!(info.size, Some(2));
    assert_eq!(info.alignment, 2);
    let (name, info) = rust_scalar_type(ScalarKind::Sint, 4, 16);
    assert_eq!(name, "i32");
    assert_eq!(info.size, Some(4));
    assert_eq!(info.alignment, 16);
    assert_eq!(rust_scalar_type(ScalarKind::Bool, 1, 1).0, "bool");
    assert_eq!(rust_scalar_type(ScalarKind::Uint, 1, 1).0, "u8");
    assert_eq!(rust_scalar_type(ScalarKind::Float, 8, 8).0, "f64");
}

#[test]
fn mapped_types_have_the_wgsl_layout() {
    let vec3 = map_vec_type(3, ScalarKind::Float, 4).unwrap();
    assert_eq!(vec3.alignment_and_size(), (16, 12));
    let vec2h = map_vec_type(2, ScalarKind::Float, 2).unwrap();
    assert_eq!(vec2h.alignment_and_size(), (4, 4));
    let mat3 = map_mat_type(3, 3, ScalarKind::Float, 4).unwrap();
    assert_eq!(mat3.alignment_and_size(), (16, 48));
    let mat4x2h = map_mat_type(4, 2, ScalarKind::Float, 2).unwrap();
    assert_eq!(mat4x2h.alignment_and_size(), (4, 16));
}

#[test]
fn layout_assertion_checks_offsets_alignment_and_size() {
    let members = vec![member("a", 0, 4, Some(4), 4), member("b", 16, 16, Some(16), 16)];
    let entries = struct_member_entries(&members, 32, true);
    let path = RustSourceItemPath { module: "shader".to_string(), name: "Uniforms".to_string() };
    let text = build_layout_assertion(&path, &entries, &members, true, false, None, 32, 16, None);
    assert_eq!(
        text,
        "const SHADER_UNIFORMS_ASSERTS: () = {\n\
         \x20   assert!(std::mem::offset_of!(shader::Uniforms, a) == 0);\n\
         \x20   assert!(std::mem::offset_of!(shader::Uniforms, b) == 16);\n\
         \x20   assert!(std::mem::align_of::<shader::Uniforms>() == 16);\n\
         \x20   assert!(std::mem::size_of::<shader::Uniforms>() == 32);\n\
         };\n"
    );
    assert_eq!(build_layout_assertion(&path, &entries, &members, false, false, None, 32, 16, None), "");
    let aligned = build_layout_assertion(&path, &entries, &members, true, false, None, 32, 16, Some(64));
    assert!(aligned.contains("align_of::<shader::Uniforms>() == 64"));
    assert!(aligned.contains("size_of::<shader::Uniforms>() == 64"));
}

#[test]
fn layout_assertion_of_a_runtime_sized_tail() {
    let members = vec![member("count", 0, 4, Some(4), 4), member("items", 16, 0, None, 16)];
    let entries = struct_member_entries(&members, 16, true);
    let path = RustSourceItemPath { module: "m".to_string(), name: "Rts".to_string() };
    let tail = TailElement { stride: 16, padded: true, rust_type: "[f32; 3]".to_string() };
    let text = build_layout_assertion(&path, &entries, &members, true, true, Some(&tail), 16, 16, None);
    assert!(text.starts_with("const M_RTS_ASSERTS: () = {\n"));
    assert!(text.contains("assert!(std::mem::offset_of!(m::RtsSized<0>, items) == 16);"));
    assert!(text.contains("assert!(std::mem::size_of::<m::WgslBindgenArrayElement<16>>() == 16);"));
    let plain = TailElement { stride: 16, padded: false, rust_type: "[f32; 4]".to_string() };
    let text = build_layout_assertion(&path, &entries, &members, true, true, Some(&plain), 16, 16, None);
    assert!(text.contains("assert!(std::mem::size_of::<[f32; 4]>() == 16);"));
}

#[test]
fn bytemuck_impls_for_fixed_size_structs() {
    let path = RustSourceItemPath { module: "shader".to_string(), name: "Uniforms".to_string() };
    assert_eq!(
        wgsl_bindgen::struct_layout::build_bytemuck_impls(&path, WgslTypeSerializeStrategy::Bytemuck, false),
        "unsafe impl bytemuck::Zeroable for shader::Uniforms {}\nunsafe impl bytemuck::Pod for shader::Uniforms {}\n"
    );
    assert_eq!(wgsl_bindgen::struct_layout::build_bytemuck_impls(&path, WgslTypeSerializeStrategy::Bytemuck, true), "");
    assert_eq!(wgsl_bindgen::struct_layout::build_bytemuck_impls(&path, WgslTypeSerializeStrategy::Encase, false), "");
}
