//! WGSL vector and matrix types, with their alignment and size.
//! See <https://www.w3.org/TR/WGSL/#alignment-and-size>.

use vstd::prelude::*;

use crate::layout::ScalarKind;

verus! {

/// WGSL vector types.
#[derive(Debug, Clone, Copy, Hash, PartialEq, Eq, Structural)]
pub enum WgslVecType {
    Vec2i,
    Vec3i,
    Vec4i,
    Vec2u,
    Vec3u,
    Vec4u,
    Vec2f,
    Vec3f,
    Vec4f,
    Vec2h,
    Vec3h,
    Vec4h,
}

/// WGSL matrix types, named `MatCxR` (C columns of R-vectors).
#[derive(Debug, Clone, Copy, Hash, PartialEq, Eq, Structural)]
pub enum WgslMatType {
    Mat2x2f,
    Mat2x3f,
    Mat2x4f,
    Mat3x2f,
    Mat3x3f,
    Mat3x4f,
    Mat4x2f,
    Mat4x3f,
    Mat4x4f,
    Mat2x2h,
    Mat2x3h,
    Mat2x4h,
    Mat3x2h,
    Mat3x3h,
    Mat3x4h,
    Mat4x2h,
    Mat4x3h,
    Mat4x4h,
}

/// A WGSL type that a type map can name: a vector, a matrix or a struct.
#[derive(Debug, Hash, PartialEq, Eq)]
pub enum WgslType {
    Vector(WgslVecType),
    Matrix(WgslMatType),
    Struct { fully_qualified_name: String },
}

/// Abstract WGSL type that a type map can name: the struct by its name's
/// text.
pub enum WgslTypeView {
    Vector(WgslVecType),
    Matrix(WgslMatType),
    Struct(Seq<char>),
}

impl View for WgslType {
    type V = WgslTypeView;

    open spec fn view(&self) -> WgslTypeView {
        match self {
            WgslType::Vector(v) => WgslTypeView::Vector(*v),
            WgslType::Matrix(m) => WgslTypeView::Matrix(*m),
            WgslType::Struct { fully_qualified_name } => WgslTypeView::Struct(fully_qualified_name@),
        }
    }
}

/// Size in bytes of a vector's component.
pub open spec fn vec_component_size(v: WgslVecType) -> nat {
    match v {
        WgslVecType::Vec2h | WgslVecType::Vec3h | WgslVecType::Vec4h => 2,
        _ => 4,
    }
}

/// The kind of a vector's components: the `i` vectors hold signed
/// integers, the `u` vectors unsigned ones, the `f` and `h` vectors floats.
pub open spec fn vec_scalar_kind(v: WgslVecType) -> ScalarKind {
    match v {
        WgslVecType::Vec2i | WgslVecType::Vec3i | WgslVecType::Vec4i => ScalarKind::Sint,
        WgslVecType::Vec2u | WgslVecType::Vec3u | WgslVecType::Vec4u => ScalarKind::Uint,
        _ => ScalarKind::Float,
    }
}

/// Number of components of a vector.
pub open spec fn vec_width(v: WgslVecType) -> nat {
    match v {
        WgslVecType::Vec2i | WgslVecType::Vec2u | WgslVecType::Vec2f | WgslVecType::Vec2h => 2,
        WgslVecType::Vec3i | WgslVecType::Vec3u | WgslVecType::Vec3f | WgslVecType::Vec3h => 3,
        _ => 4,
    }
}

/// `SizeOf(vecN<T>)`: N times the component size.
pub open spec fn vec_byte_size(v: WgslVecType) -> nat {
    let c = vec_component_size(v);
    if vec_width(v) == 2 {
        2 * c
    } else if vec_width(v) == 3 {
        3 * c
    } else {
        4 * c
    }
}

/// `AlignOf(vecN<T>)`: twice the component size for N = 2, four times
/// otherwise.
pub open spec fn vec_align_of(width: nat, component: nat) -> nat {
    if width == 2 {
        2 * component
    } else {
        4 * component
    }
}

/// Columns, rows and component size of a matrix.
pub open spec fn mat_shape(m: WgslMatType) -> (nat, nat, nat) {
    match m {
        WgslMatType::Mat2x2f => (2, 2, 4),
        WgslMatType::Mat2x3f => (2, 3, 4),
        WgslMatType::Mat2x4f => (2, 4, 4),
        WgslMatType::Mat3x2f => (3, 2, 4),
        WgslMatType::Mat3x3f => (3, 3, 4),
        WgslMatType::Mat3x4f => (3, 4, 4),
        WgslMatType::Mat4x2f => (4, 2, 4),
        WgslMatType::Mat4x3f => (4, 3, 4),
        WgslMatType::Mat4x4f => (4, 4, 4),
        WgslMatType::Mat2x2h => (2, 2, 2),
        WgslMatType::Mat2x3h => (2, 3, 2),
        WgslMatType::Mat2x4h => (2, 4, 2),
        WgslMatType::Mat3x2h => (3, 2, 2),
        WgslMatType::Mat3x3h => (3, 3, 2),
        WgslMatType::Mat3x4h => (3, 4, 2),
        WgslMatType::Mat4x2h => (4, 2, 2),
        WgslMatType::Mat4x3h => (4, 3, 2),
        WgslMatType::Mat4x4h => (4, 4, 2),
    }
}

impl WgslVecType {
    /// `(AlignOf, SizeOf)` of the vector.
    pub fn alignment_and_size(&self) -> (r: (u8, usize))
        ensures
            r.0 as nat == vec_align_of(vec_width(*self), vec_component_size(*self)),
            r.1 as nat == vec_byte_size(*self),
    {
        match self {
            WgslVecType::Vec2i => (8, 8),
            WgslVecType::Vec2u => (8, 8),
            WgslVecType::Vec2f => (8, 8),
            WgslVecType::Vec2h => (4, 4),
            WgslVecType::Vec3i => (16, 12),
            WgslVecType::Vec3u => (16, 12),
            WgslVecType::Vec3f => (16, 12),
            WgslVecType::Vec3h => (8, 6),
            WgslVecType::Vec4i => (16, 16),
            WgslVecType::Vec4u => (16, 16),
            WgslVecType::Vec4f => (16, 16),
            WgslVecType::Vec4h => (8, 8),
        }
    }
}

impl WgslMatType {
    /// `(AlignOf, SizeOf)` of the matrix `matCxR`: the alignment of its
    /// column vector `vecR`, and C columns each padded to that alignment.
    pub fn alignment_and_size(&self) -> (r: (u8, usize))
        ensures
            r.0 as nat == vec_align_of(mat_shape(*self).1, mat_shape(*self).2),
            r.1 as nat == mat_shape(*self).0 * vec_align_of(mat_shape(*self).1, mat_shape(*self).2),
    {
        match self {
            WgslMatType::Mat2x2f => (8, 16),
            WgslMatType::Mat2x2h => (4, 8),
            WgslMatType::Mat3x2f => (8, 24),
            WgslMatType::Mat3x2h => (4, 12),
            WgslMatType::Mat4x2f => (8, 32),
            WgslMatType::Mat4x2h => (4, 16),
            WgslMatType::Mat2x3f => (16, 32),
            WgslMatType::Mat2x3h => (8, 16),
            WgslMatType::Mat3x3f => (16, 48),
            WgslMatType::Mat3x3h => (8, 24),
            WgslMatType::Mat4x3f => (16, 64),
            WgslMatType::Mat4x3h => (8, 32),
            WgslMatType::Mat2x4f => (16, 32),
            WgslMatType::Mat2x4h => (8, 16),
            WgslMatType::Mat3x4f => (16, 48),
            WgslMatType::Mat3x4h => (8, 24),
            WgslMatType::Mat4x4f => (16, 64),
            WgslMatType::Mat4x4h => (8, 32),
        }
    }
}

} // verus!
