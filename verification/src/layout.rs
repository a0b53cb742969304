//! Memory layout of generated structs: rounding to alignments, the stride
//! of padded vectors, which WGSL vector and matrix types a shader's types
//! are, and the plan of fields and padding that makes a Rust struct match
//! its WGSL layout.

use vstd::prelude::*;

use crate::options::WgslTypeSerializeStrategy;
use crate::wgsl_type::{mat_shape, vec_component_size, vec_scalar_kind, vec_width, WgslMatType, WgslVecType};

verus! {

/// `n` rounded up to the next multiple of the alignment `a`.
pub open spec fn round_up_spec(a: u32, n: u32) -> int {
    ((n + a - 1) / (a as int)) * a
}

/// Rounds `n` up to the next multiple of the alignment `a`: the smallest
/// multiple of `a` that is at least `n`.
pub fn round_up(a: u32, n: u32) -> (r: u32)
    requires
        a > 0,
        n + a - 1 <= u32::MAX,
    ensures
        r == round_up_spec(a, n),
        r % a == 0,
        n <= r < n + a,
{
    let s = n + (a - 1);
    let q = s / a;
    assert(q * a <= s) by (nonlinear_arith)
        requires
            q == s / a,
            a > 0,
    ;
    assert(s < q * a + a) by (nonlinear_arith)
        requires
            q == s / a,
            a > 0,
    ;
    assert((q * a) % (a as int) == 0) by (nonlinear_arith)
        requires
            a > 0,
    ;
    (q * a) as u32
}

/// The stride of a vector of `rows` scalars of `width` bytes at the given
/// alignment, and the padding bytes after its scalars, which only a
/// byte-copied (`bytemuck`) layout spells out.
pub open spec fn stride_and_padding(
    a: u32,
    rows: u32,
    width: u8,
    strategy: WgslTypeSerializeStrategy,
) -> (int, int) {
    let used = rows * width;
    let total = round_up_spec(a, used as u32);
    if strategy == WgslTypeSerializeStrategy::Bytemuck {
        (total, total - used)
    } else {
        (total, 0)
    }
}

/// The array stride and padding in bytes of a vector type.
pub fn get_stride_and_padding(
    alignment: u32,
    rows: u32,
    width: u8,
    strategy: WgslTypeSerializeStrategy,
) -> (r: (u32, u32))
    requires
        alignment > 0,
        2 <= rows <= 4,
        rows * width + alignment - 1 <= u32::MAX,
    ensures
        (r.0 as int, r.1 as int) == stride_and_padding(alignment, rows, width, strategy),
{
    let w = width as u32;
    assert(rows * w <= 4 * 255) by (nonlinear_arith)
        requires
            2 <= rows <= 4,
            w <= 255,
    ;
    let used = rows * w;
    let total = round_up(alignment, used);
    match strategy {
        WgslTypeSerializeStrategy::Bytemuck => (total, total - used),
        WgslTypeSerializeStrategy::Encase => (total, 0),
    }
}

/// The kinds of scalar of a shader type.
#[derive(Debug, Clone, Copy, PartialEq, Eq, Structural)]
pub enum ScalarKind {
    Sint,
    Uint,
    Float,
    Bool,
    AbstractInt,
    AbstractFloat,
}

/// The WGSL vector type of `size` scalars of the given kind and width in
/// bytes, if there is one.
pub open spec fn vec_type_of(size: u32, kind: ScalarKind, width: u8) -> Option<WgslVecType> {
    match (size, kind, width) {
        (2, ScalarKind::Sint, 4) => Some(WgslVecType::Vec2i),
        (3, ScalarKind::Sint, 4) => Some(WgslVecType::Vec3i),
        (4, ScalarKind::Sint, 4) => Some(WgslVecType::Vec4i),
        (2, ScalarKind::Uint, 4) => Some(WgslVecType::Vec2u),
        (3, ScalarKind::Uint, 4) => Some(WgslVecType::Vec3u),
        (4, ScalarKind::Uint, 4) => Some(WgslVecType::Vec4u),
        (2, ScalarKind::Float, 4) => Some(WgslVecType::Vec2f),
        (3, ScalarKind::Float, 4) => Some(WgslVecType::Vec3f),
        (4, ScalarKind::Float, 4) => Some(WgslVecType::Vec4f),
        (2, ScalarKind::Float, 2) => Some(WgslVecType::Vec2h),
        (3, ScalarKind::Float, 2) => Some(WgslVecType::Vec3h),
        (4, ScalarKind::Float, 2) => Some(WgslVecType::Vec4h),
        _ => None,
    }
}

/// The WGSL vector type of `size` scalars of the given kind and width.
pub fn map_vec_type(size: u32, kind: ScalarKind, width: u8) -> (r: Option<WgslVecType>)
    ensures
        r == vec_type_of(size, kind, width),
{
    match (size, kind, width) {
        (2, ScalarKind::Sint, 4) => Some(WgslVecType::Vec2i),
        (3, ScalarKind::Sint, 4) => Some(WgslVecType::Vec3i),
        (4, ScalarKind::Sint, 4) => Some(WgslVecType::Vec4i),
        (2, ScalarKind::Uint, 4) => Some(WgslVecType::Vec2u),
        (3, ScalarKind::Uint, 4) => Some(WgslVecType::Vec3u),
        (4, ScalarKind::Uint, 4) => Some(WgslVecType::Vec4u),
        (2, ScalarKind::Float, 4) => Some(WgslVecType::Vec2f),
        (3, ScalarKind::Float, 4) => Some(WgslVecType::Vec3f),
        (4, ScalarKind::Float, 4) => Some(WgslVecType::Vec4f),
        (2, ScalarKind::Float, 2) => Some(WgslVecType::Vec2h),
        (3, ScalarKind::Float, 2) => Some(WgslVecType::Vec3h),
        (4, ScalarKind::Float, 2) => Some(WgslVecType::Vec4h),
        _ => None,
    }
}

/// The WGSL matrix type of `columns` columns of `rows` floats of the given
/// width in bytes, if there is one.
pub open spec fn mat_type_of(columns: u32, rows: u32, kind: ScalarKind, width: u8) -> Option<
    WgslMatType,
> {
    if kind != ScalarKind::Float {
        None
    } else {
        match (columns, rows, width) {
            (2, 2, 4) => Some(WgslMatType::Mat2x2f),
            (2, 2, 2) => Some(WgslMatType::Mat2x2h),
            (3, 2, 4) => Some(WgslMatType::Mat3x2f),
            (3, 2, 2) => Some(WgslMatType::Mat3x2h),
            (4, 2, 4) => Some(WgslMatType::Mat4x2f),
            (4, 2, 2) => Some(WgslMatType::Mat4x2h),
            (2, 3, 4) => Some(WgslMatType::Mat2x3f),
            (2, 3, 2) => Some(WgslMatType::Mat2x3h),
            (3, 3, 4) => Some(WgslMatType::Mat3x3f),
            (3, 3, 2) => Some(WgslMatType::Mat3x3h),
            (4, 3, 4) => Some(WgslMatType::Mat4x3f),
            (4, 3, 2) => Some(WgslMatType::Mat4x3h),
            (2, 4, 4) => Some(WgslMatType::Mat2x4f),
            (2, 4, 2) => Some(WgslMatType::Mat2x4h),
            (3, 4, 4) => Some(WgslMatType::Mat3x4f),
            (3, 4, 2) => Some(WgslMatType::Mat3x4h),
            (4, 4, 4) => Some(WgslMatType::Mat4x4f),
            (4, 4, 2) => Some(WgslMatType::Mat4x4h),
            _ => None,
        }
    }
}

/// The WGSL matrix type of `columns` columns of `rows` scalars of the given
/// kind and width.
pub fn map_mat_type(columns: u32, rows: u32, kind: ScalarKind, width: u8) -> (r: Option<WgslMatType>)
    ensures
        r == mat_type_of(columns, rows, kind, width),
{
    if kind != ScalarKind::Float {
        return None;
    }
    match (columns, rows, width) {
        (2, 2, 4) => Some(WgslMatType::Mat2x2f),
        (2, 2, 2) => Some(WgslMatType::Mat2x2h),
        (3, 2, 4) => Some(WgslMatType::Mat3x2f),
        (3, 2, 2) => Some(WgslMatType::Mat3x2h),
        (4, 2, 4) => Some(WgslMatType::Mat4x2f),
        (4, 2, 2) => Some(WgslMatType::Mat4x2h),
        (2, 3, 4) => Some(WgslMatType::Mat2x3f),
        (2, 3, 2) => Some(WgslMatType::Mat2x3h),
        (3, 3, 4) => Some(WgslMatType::Mat3x3f),
        (3, 3, 2) => Some(WgslMatType::Mat3x3h),
        (4, 3, 4) => Some(WgslMatType::Mat4x3f),
        (4, 3, 2) => Some(WgslMatType::Mat4x3h),
        (2, 4, 4) => Some(WgslMatType::Mat2x4f),
        (2, 4, 2) => Some(WgslMatType::Mat2x4h),
        (3, 4, 4) => Some(WgslMatType::Mat3x4f),
        (3, 4, 2) => Some(WgslMatType::Mat3x4h),
        (4, 4, 4) => Some(WgslMatType::Mat4x4f),
        (4, 4, 2) => Some(WgslMatType::Mat4x4h),
        _ => None,
    }
}

/// The built-in type chosen for a WGSL vector or matrix has its shape: the
/// same number of components (columns and rows) of the same width, so its
/// alignment and size are those that the WGSL layout rules give the shader
/// type.
pub proof fn law_mapped_types_keep_their_shape(columns: u32, rows: u32, kind: ScalarKind, width: u8)
    ensures
        vec_type_of(rows, kind, width) matches Some(t) ==> vec_width(t) == rows && vec_component_size(t)
            == width,
        mat_type_of(columns, rows, kind, width) matches Some(m) ==> mat_shape(m) == (
            columns as nat,
            rows as nat,
            width as nat,
        ),
{
}

/// The WGSL vector type chosen for `size` scalars of a kind and a width has
/// exactly that many components, of that kind and that width; there is one
/// for 2 to 4 signed or unsigned 4-byte integers and 4- or 2-byte floats,
/// and none otherwise.
pub proof fn law_vector_type_matches_its_scalars(size: u32, kind: ScalarKind, width: u8)
    ensures
        vec_type_of(size, kind, width) is Some <==> (2 <= size <= 4 && ((kind == ScalarKind::Sint
            || kind == ScalarKind::Uint) && width == 4 || kind == ScalarKind::Float && (width == 4 || width == 2))),
        vec_type_of(size, kind, width) matches Some(v) ==> vec_width(v) == size && vec_scalar_kind(v) == kind
            && vec_component_size(v) == width,
{
}

/// The WGSL matrix type chosen for `columns` columns of `rows` scalars of a
/// kind and a width has exactly that many columns and rows of floats of
/// that width; there is one for 2 to 4 columns and rows of 4- or 2-byte
/// floats, and none otherwise.
pub proof fn law_matrix_type_matches_its_scalars(columns: u32, rows: u32, kind: ScalarKind, width: u8)
    ensures
        mat_type_of(columns, rows, kind, width) is Some <==> (2 <= columns <= 4 && 2 <= rows <= 4 && kind
            == ScalarKind::Float && (width == 4 || width == 2)),
        mat_type_of(columns, rows, kind, width) matches Some(m) ==> mat_shape(m) == (
            columns as nat,
            rows as nat,
            width as nat,
        ),
{
}

} // verus!
