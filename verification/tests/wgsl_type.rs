use wgsl_bindgen::wgsl_type::{WgslMatType, WgslVecType};

/// The matrices of a uniform buffer laid out as plain `f32` arrays match
/// their WGSL sizes: mat4x4 is 4 columns of 4, mat3x4 is 3 columns of 4,
/// mat2x4 is 2 columns of 4, and mat4x3 pads each column of 3 to 4.
#[test]
fn test_check_generated_buffer_match() {
    let f32_size = std::mem::size_of::<f32>();
    assert_eq!(WgslMatType::Mat4x4f.alignment_and_size().1, std::mem::size_of::<[[f32; 4]; 4]>());
    assert_eq!(WgslMatType::Mat3x4f.alignment_and_size().1, std::mem::size_of::<[[f32; 4]; 3]>());
    assert_eq!(WgslMatType::Mat2x4f.alignment_and_size().1, std::mem::size_of::<[[f32; 4]; 2]>());
    assert_eq!(WgslMatType::Mat4x3f.alignment_and_size().1, 4 * 4 * f32_size);
    assert_eq!(
        WgslMatType::Mat4x3f.alignment_and_size().1 - std::mem::size_of::<[[f32; 3]; 4]>(),
        4 * f32_size
    );
}

#[test]
fn vector_alignment_and_size() {
    assert_eq!(WgslVecType::Vec2f.alignment_and_size(), (8, 8));
    assert_eq!(WgslVecType::Vec3f.alignment_and_size(), (16, 12));
    assert_eq!(WgslVecType::Vec4u.alignment_and_size(), (16, 16));
    assert_eq!(WgslVecType::Vec3h.alignment_and_size(), (8, 6));
}

#[test]
fn matrix_alignment_and_size() {
    assert_eq!(WgslMatType::Mat2x2f.alignment_and_size(), (8, 16));
    assert_eq!(WgslMatType::Mat3x3f.alignment_and_size(), (16, 48));
    assert_eq!(WgslMatType::Mat4x2h.alignment_and_size(), (4, 16));
    assert_eq!(WgslMatType::Mat2x3h.alignment_and_size(), (8, 16));
}
