use wgsl_bindgen::binding_generator::WgslBindgenOptionBuilder;
use wgsl_bindgen::options::{GlamWgslTypeMap, NalgebraWgslTypeMap, RustWgslTypeMap, WgslTypeSerializeStrategy};
use wgsl_bindgen::type_maps::{OverrideStruct, WgslTypeMapBuild};
use wgsl_bindgen::wgsl_type::{WgslMatType, WgslType, WgslVecType};

fn entry_text(map: &[(WgslType, String)], key: &WgslType) -> Option<String> {
    map.iter().find(|(k, _)| k == key).map(|(_, v)| v.clone())
}

fn builder() -> WgslBindgenOptionBuilder {
    WgslBindgenOptionBuilder {
        extra_binding_generator: None,
        serialization_strategy: Some(WgslTypeSerializeStrategy::Bytemuck),
        type_map: None,
        override_struct: vec![],
    }
}

#[test]
fn nalgebra_map_names_vectors_and_matrices() {
    let map = NalgebraWgslTypeMap.build(WgslTypeSerializeStrategy::Encase);
    assert_eq!(map.len(), 18);
    assert_eq!(entry_text(&map, &WgslType::Vector(WgslVecType::Vec3u)), Some("nalgebra::SVector<u32, 3>".to_string()));
    assert_eq!(
        entry_text(&map, &WgslType::Matrix(WgslMatType::Mat2x3f)),
        Some("nalgebra::SMatrix<f32, 3, 2>".to_string())
    );
    assert_eq!(entry_text(&map, &WgslType::Vector(WgslVecType::Vec2h)), None);
}

#[test]
fn glam_map_names_square_matrices() {
    let map = GlamWgslTypeMap.build(WgslTypeSerializeStrategy::Bytemuck);
    assert_eq!(map.len(), 12);
    assert_eq!(entry_text(&map, &WgslType::Matrix(WgslMatType::Mat3x3f)), Some("glam::Mat3A".to_string()));
    assert_eq!(entry_text(&map, &WgslType::Vector(WgslVecType::Vec4i)), Some("glam::IVec4".to_string()));
    assert_eq!(entry_text(&map, &WgslType::Matrix(WgslMatType::Mat2x3f)), None);
    assert!(RustWgslTypeMap.build(WgslTypeSerializeStrategy::Bytemuck).is_empty());
}

#[test]
fn type_maps_extend_and_replace_in_place() {
    let mut b = builder();
    b.type_map(GlamWgslTypeMap);
    let custom = vec![
        (WgslType::Vector(WgslVecType::Vec2f), "my::V2".to_string()),
        (WgslType::Vector(WgslVecType::Vec2h), "my::H2".to_string()),
    ];
    b.type_map(custom);
    let map = b.type_map.as_ref().unwrap();
    assert_eq!(map.len(), 13);
    assert_eq!(map[6], (WgslType::Vector(WgslVecType::Vec2f), "my::V2".to_string()));
    assert_eq!(map[12], (WgslType::Vector(WgslVecType::Vec2h), "my::H2".to_string()));
}

#[test]
fn struct_overrides_join_the_type_map() {
    let mut b = builder();
    b.override_struct = vec![OverrideStruct { from: "lib::Fp64".to_string(), to: "crate::Fp64".to_string(), alignment: 8 }];
    b.merge_struct_type_overrides();
    assert_eq!(
        b.type_map.unwrap(),
        vec![(WgslType::Struct { fully_qualified_name: "lib::Fp64".to_string() }, "crate::Fp64".to_string())]
    );
}
