use wgsl_bindgen::layout::ScalarKind;
use wgsl_bindgen::options::WgslTypeSerializeStrategy;
use wgsl_bindgen::rust_type::{matrix_type_info, vector_type_info};
use wgsl_bindgen::wgsl_type::{WgslMatType, WgslType, WgslVecType};

#[test]
fn unmapped_vectors_are_scalar_arrays_over_the_stride() {
    let map = vec![];
    let (text, info) = vector_type_info(&map, 3, ScalarKind::Float, 4, 16, WgslTypeSerializeStrategy::Bytemuck);
    assert_eq!(text, "[f32; 4]");
    assert_eq!((info.size, info.alignment), (Some(16), 16));
    let (text, info) = vector_type_info(&map, 2, ScalarKind::Uint, 4, 8, WgslTypeSerializeStrategy::Encase);
    assert_eq!(text, "[u32; 2]");
    assert_eq!((info.size, info.alignment), (Some(8), 8));
    let (text, info) = vector_type_info(&map, 3, ScalarKind::Float, 2, 8, WgslTypeSerializeStrategy::Bytemuck);
    assert_eq!(text, "[half::f16; 4]");
    assert_eq!(info.size, Some(8));
}

#[test]
fn mapped_vectors_take_the_mapped_type_and_its_layout() {
    let map = vec![
        (WgslType::Vector(WgslVecType::Vec3f), "first::Vec3".to_string()),
        (WgslType::Vector(WgslVecType::Vec3f), "glam::Vec3A".to_string()),
    ];
    let (text, info) = vector_type_info(&map, 3, ScalarKind::Float, 4, 16, WgslTypeSerializeStrategy::Bytemuck);
    assert_eq!(text, "glam::Vec3A");
    assert_eq!((info.size, info.alignment), (Some(12), 16));
    let (text, _) = vector_type_info(&map, 4, ScalarKind::Float, 4, 16, WgslTypeSerializeStrategy::Bytemuck);
    assert_eq!(text, "[f32; 4]");
}

#[test]
fn matrices_are_arrays_of_padded_columns_unless_mapped() {
    let map = vec![(WgslType::Matrix(WgslMatType::Mat4x4f), "glam::Mat4".to_string())];
    let (text, info) = matrix_type_info(&map, 3, 3, ScalarKind::Float, 4, 16, WgslTypeSerializeStrategy::Bytemuck);
    assert_eq!(text, "[[f32; 4]; 3]");
    assert_eq!((info.size, info.alignment), (Some(48), 16));
    let (text, info) = matrix_type_info(&map, 4, 4, ScalarKind::Float, 4, 16, WgslTypeSerializeStrategy::Bytemuck);
    assert_eq!(text, "glam::Mat4");
    assert_eq!((info.size, info.alignment), (Some(64), 16));
    let (text, info) = matrix_type_info(&map, 2, 2, ScalarKind::Float, 4, 8, WgslTypeSerializeStrategy::Encase);
    assert_eq!(text, "[[f32; 2]; 2]");
    assert_eq!(info.size, Some(16));
}

fn scalar(kind: ScalarKind, width: u8, alignment: u32) -> wgsl_bindgen::rust_type::ShaderType {
    wgsl_bindgen::rust_type::ShaderType {
        inner: wgsl_bindgen::rust_type::ShaderTypeInner::Scalar(kind, width),
        alignment,
    }
}

fn vec3f() -> wgsl_bindgen::rust_type::ShaderType {
    wgsl_bindgen::rust_type::ShaderType {
        inner: wgsl_bindgen::rust_type::ShaderTypeInner::Vector(3, ScalarKind::Float, 4),
        alignment: 16,
    }
}

fn array(
    base: wgsl_bindgen::rust_type::ShaderType,
    count: Option<u32>,
    stride: u32,
    alignment: u32,
) -> wgsl_bindgen::rust_type::ShaderType {
    wgsl_bindgen::rust_type::ShaderType {
        inner: wgsl_bindgen::rust_type::ShaderTypeInner::Array(Box::new(base), count, stride),
        alignment,
    }
}

#[test]
fn arrays_of_elements_that_fill_their_stride() {
    let t = array(scalar(ScalarKind::Uint, 4, 4), Some(8), 4, 4);
    let r = wgsl_bindgen::rust_type::rust_type(&vec![], &t, WgslTypeSerializeStrategy::Bytemuck);
    assert_eq!(r.text, "[u32; 8]");
    assert_eq!(r.init_type, None);
    assert_eq!((r.info.size, r.info.alignment), (Some(32), 4));
    assert!(r.info.init_conversion.is_none());
}

#[test]
fn arrays_of_vec3_with_a_mapped_type_store_padded_blocks() {
    let map = vec![(WgslType::Vector(WgslVecType::Vec3f), "glam::Vec3".to_string())];
    let t = array(vec3f(), Some(2), 16, 16);
    let r = wgsl_bindgen::rust_type::rust_type(&map, &t, WgslTypeSerializeStrategy::Bytemuck);
    assert_eq!(r.text, "[WgslBindgenArrayElement<16>; 2]");
    assert_eq!(r.init_type, Some("[glam::Vec3; 2]".to_string()));
    assert_eq!(r.info.size, Some(32));
    assert!(r.info.init_conversion.is_some());
    let encase = wgsl_bindgen::rust_type::rust_type(&map, &t, WgslTypeSerializeStrategy::Encase);
    assert_eq!(encase.text, "[glam::Vec3; 2]");
    assert_eq!(encase.init_type, None);
}

#[test]
fn runtime_sized_arrays_and_structs() {
    let map = vec![(
        WgslType::Struct { fully_qualified_name: "shader::Light".to_string() },
        "my::Light".to_string(),
    )];
    let light = wgsl_bindgen::rust_type::ShaderType {
        inner: wgsl_bindgen::rust_type::ShaderTypeInner::Struct("shader::Light".to_string(), 32, false),
        alignment: 16,
    };
    let lights = array(light, None, 32, 16);
    let r = wgsl_bindgen::rust_type::rust_type(&map, &lights, WgslTypeSerializeStrategy::Bytemuck);
    assert_eq!(r.text, "my::Light");
    assert_eq!(r.info.size, None);
    let v = wgsl_bindgen::rust_type::rust_type(&map, &lights, WgslTypeSerializeStrategy::Encase);
    assert_eq!(v.text, "Vec<my::Light>");
    let other = wgsl_bindgen::rust_type::ShaderType {
        inner: wgsl_bindgen::rust_type::ShaderTypeInner::Struct("shader::Particles".to_string(), 16, true),
        alignment: 16,
    };
    let p = wgsl_bindgen::rust_type::rust_type(&map, &other, WgslTypeSerializeStrategy::Bytemuck);
    assert_eq!(p.text, "shader::Particles");
    assert_eq!(p.info.size, None);
    let padded = array(vec3f(), None, 16, 16);
    let q = wgsl_bindgen::rust_type::rust_type(&vec![], &padded, WgslTypeSerializeStrategy::Bytemuck);
    assert_eq!(q.text, "[f32; 4]");
    assert_eq!(q.init_type, None);
}
