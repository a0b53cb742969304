//! The Rust type of a shader type: for a vector, a matrix or a struct the
//! type that the type map gives it, else an array of its scalars laid out
//! at the WGSL stride, or the struct's name; arrays of their elements, or
//! of padded blocks of their stride.

use vstd::prelude::*;

use crate::binding_generator::push_decimal_usize;
use crate::fwgsl_loader::decimal;
use crate::layout::{
    get_stride_and_padding, map_mat_type, map_vec_type, mat_type_of, stride_and_padding, vec_type_of,
    ScalarKind,
};
use crate::options::WgslTypeSerializeStrategy;
use crate::rust_type_info::{
    constant_array_type, constant_array_type_info, dynamic_array_type, dynamic_array_type_info, rust_scalar_type,
    scalar_rust_type, ArrayStorage, RustTypeInfo, RustTypeInitConversion,
};
use crate::struct_text::push_str;
use crate::text::{chars_eq, chars_of, push_all, string_of};
use crate::wgsl_type::{mat_shape, vec_align_of, vec_byte_size, vec_component_size, vec_width, WgslMatType, WgslType, WgslVecType};

verus! {

/// The type that the last entry of the map for the vector gives, if any.
pub open spec fn mapped_vec_type(map: Seq<(WgslType, String)>, v: WgslVecType) -> Option<Seq<char>>
    decreases map.len(),
{
    if map.len() == 0 {
        None
    } else if map.last().0 == WgslType::Vector(v) {
        Some(map.last().1@)
    } else {
        mapped_vec_type(map.drop_last(), v)
    }
}

/// The type that the last entry of the map for the matrix gives, if any.
pub open spec fn mapped_mat_type(map: Seq<(WgslType, String)>, m: WgslMatType) -> Option<Seq<char>>
    decreases map.len(),
{
    if map.len() == 0 {
        None
    } else if map.last().0 == WgslType::Matrix(m) {
        Some(map.last().1@)
    } else {
        mapped_mat_type(map.drop_last(), m)
    }
}

/// The text of a scalar type that the bindings support.
pub open spec fn scalar_text(kind: ScalarKind, width: u8) -> Seq<char> {
    match scalar_rust_type(kind, width) {
        Some((t, _)) => t,
        None => Seq::empty(),
    }
}

/// The size of a scalar type that the bindings support.
pub open spec fn scalar_size(kind: ScalarKind, width: u8) -> usize {
    match scalar_rust_type(kind, width) {
        Some((_, size)) => size,
        None => 0,
    }
}

/// The Rust type of a vector of `size` scalars, with its size and
/// alignment: the mapped type of a WGSL vector type that the map names,
/// with that type's size and alignment; otherwise an array of scalars that
/// spans the stride (padding scalars included in a byte-copied layout).
pub open spec fn vector_rust_type(
    map: Seq<(WgslType, String)>,
    size: u32,
    kind: ScalarKind,
    width: u8,
    alignment: u32,
    strategy: WgslTypeSerializeStrategy,
) -> (Seq<char>, int, int) {
    match vec_type_of(size, kind, width) {
        Some(v) if mapped_vec_type(map, v) is Some => (
            mapped_vec_type(map, v)->0,
            vec_byte_size(v) as int,
            vec_align_of(vec_width(v), vec_component_size(v)) as int,
        ),
        _ => {
            let stride = stride_and_padding(alignment, size, width, strategy).0;
            ("["@ + scalar_text(kind, width) + "; "@ + decimal((stride / width as int) as nat) + "]"@, stride, alignment as int)
        },
    }
}

/// The Rust type of a matrix of `columns` columns of `rows` scalars, with
/// its size and alignment: the mapped type of a WGSL matrix type that the
/// map names, with that type's size and alignment; otherwise an array of
/// columns, each an array of scalars that spans the column stride.
pub open spec fn matrix_rust_type(
    map: Seq<(WgslType, String)>,
    columns: u32,
    rows: u32,
    kind: ScalarKind,
    width: u8,
    alignment: u32,
    strategy: WgslTypeSerializeStrategy,
) -> (Seq<char>, int, int) {
    match mat_type_of(columns, rows, kind, width) {
        Some(m) if mapped_mat_type(map, m) is Some => (
            mapped_mat_type(map, m)->0,
            (mat_shape(m).0 * vec_align_of(mat_shape(m).1, mat_shape(m).2)) as int,
            vec_align_of(mat_shape(m).1, mat_shape(m).2) as int,
        ),
        _ => {
            let col_stride = stride_and_padding(alignment, rows, width, strategy).0;
            (
                "[["@ + scalar_text(kind, width) + "; "@ + decimal((col_stride / width as int) as nat) + "]; "@
                    + decimal(columns as nat) + "]"@,
                col_stride * columns,
                alignment as int,
            )
        },
    }
}

/// The mapped type of a vector, from the last entry of the map for it.
fn lookup_vec(map: &Vec<(WgslType, String)>, v: WgslVecType) -> (r: Option<String>)
    ensures
        match r {
            Some(t) => mapped_vec_type(map@, v) == Some(t@),
            None => mapped_vec_type(map@, v) is None,
        },
{
    let mut i = map.len();
    assert(map@.take(i as int) =~= map@);
    while i > 0
        invariant
            i <= map@.len(),
            mapped_vec_type(map@, v) == mapped_vec_type(map@.take(i as int), v),
        decreases i,
    {
        assert(map@.take(i as int).drop_last() =~= map@.take(i - 1));
        let hit = match &map[i - 1].0 {
            WgslType::Vector(w) => *w == v,
            _ => false,
        };
        if hit {
            return Some(map[i - 1].1.clone());
        }
        i -= 1;
    }
    None
}

/// The mapped type of a matrix, from the last entry of the map for it.
fn lookup_mat(map: &Vec<(WgslType, String)>, m: WgslMatType) -> (r: Option<String>)
    ensures
        match r {
            Some(t) => mapped_mat_type(map@, m) == Some(t@),
            None => mapped_mat_type(map@, m) is None,
        },
{
    let mut i = map.len();
    assert(map@.take(i as int) =~= map@);
    while i > 0
        invariant
            i <= map@.len(),
            mapped_mat_type(map@, m) == mapped_mat_type(map@.take(i as int), m),
        decreases i,
    {
        assert(map@.take(i as int).drop_last() =~= map@.take(i - 1));
        let hit = match &map[i - 1].0 {
            WgslType::Matrix(w) => *w == m,
            _ => false,
        };
        if hit {
            return Some(map[i - 1].1.clone());
        }
        i -= 1;
    }
    None
}

/// The Rust type of a vector of `size` scalars of the given kind and width,
/// whose WGSL alignment is `alignment`.
pub fn vector_type_info(
    map: &Vec<(WgslType, String)>,
    size: u32,
    kind: ScalarKind,
    width: u8,
    alignment: u32,
    strategy: WgslTypeSerializeStrategy,
) -> (r: (String, RustTypeInfo))
    requires
        2 <= size <= 4,
        scalar_rust_type(kind, width) is Some,
        alignment > 0,
        size * width + alignment - 1 <= u32::MAX,
        vec_type_of(size, kind, width) matches Some(v) ==> alignment == vec_align_of(
            vec_width(v),
            vec_component_size(v),
        ),
    ensures
        (r.0@, r.1.size->0 as int, r.1.alignment as int) == vector_rust_type(
            map@,
            size,
            kind,
            width,
            alignment,
            strategy,
        ),
        r.1.size is Some,
        r.1.init_conversion is None,
{
    match map_vec_type(size, kind, width) {
        Some(v) => {
            match lookup_vec(map, v) {
                Some(t) => {
                    let (align, bytes) = v.alignment_and_size();
                    return (t, RustTypeInfo { size: Some(bytes), alignment: align as u32, init_conversion: None });
                },
                None => {},
            }
        },
        None => {},
    }
    let (stride, _) = get_stride_and_padding(alignment, size, width, strategy);
    let (scalar, _) = rust_scalar_type(kind, width, alignment);
    let mut out = chars_of("[");
    push_str(&mut out, scalar.as_str());
    push_str(&mut out, "; ");
    push_decimal_usize(&mut out, (stride / (width as u32)) as usize);
    push_str(&mut out, "]");
    (string_of(&out), RustTypeInfo { size: Some(stride as usize), alignment, init_conversion: None })
}

/// The Rust type of a matrix of `columns` columns of `rows` scalars of the
/// given kind and width, whose WGSL alignment is `alignment`.
pub fn matrix_type_info(
    map: &Vec<(WgslType, String)>,
    columns: u32,
    rows: u32,
    kind: ScalarKind,
    width: u8,
    alignment: u32,
    strategy: WgslTypeSerializeStrategy,
) -> (r: (String, RustTypeInfo))
    requires
        2 <= columns <= 4,
        2 <= rows <= 4,
        scalar_rust_type(kind, width) is Some,
        alignment > 0,
        4 * (rows * width + alignment) <= u32::MAX,
        mat_type_of(columns, rows, kind, width) matches Some(m) ==> alignment == vec_align_of(
            mat_shape(m).1,
            mat_shape(m).2,
        ),
    ensures
        (r.0@, r.1.size->0 as int, r.1.alignment as int) == matrix_rust_type(
            map@,
            columns,
            rows,
            kind,
            width,
            alignment,
            strategy,
        ),
        r.1.size is Some,
        r.1.init_conversion is None,
{
    match map_mat_type(columns, rows, kind, width) {
        Some(m) => {
            match lookup_mat(map, m) {
                Some(t) => {
                    let (align, bytes) = m.alignment_and_size();
                    return (t, RustTypeInfo { size: Some(bytes), alignment: align as u32, init_conversion: None });
                },
                None => {},
            }
        },
        None => {},
    }
    let (col_stride, _) = get_stride_and_padding(alignment, rows, width, strategy);
    let (scalar, _) = rust_scalar_type(kind, width, alignment);
    let mut out = chars_of("[[");
    push_str(&mut out, scalar.as_str());
    push_str(&mut out, "; ");
    push_decimal_usize(&mut out, (col_stride / (width as u32)) as usize);
    push_str(&mut out, "]; ");
    push_decimal_usize(&mut out, columns as usize);
    push_str(&mut out, "]");
    proof {
        let used: int = rows * width;
        let q: int = (used + alignment - 1) / (alignment as int);
        assert(q * alignment <= used + alignment - 1) by (nonlinear_arith)
            requires
                alignment > 0,
                used >= 0,
                q == (used + alignment - 1) / (alignment as int),
        ;
        assert(col_stride == q * alignment);
    }
    assert(col_stride * columns <= 4 * (rows * width + alignment)) by (nonlinear_arith)
        requires
            col_stride <= rows * width + alignment,
            columns <= 4,
    ;
    (string_of(&out), RustTypeInfo { size: Some((col_stride * columns) as usize), alignment, init_conversion: None })
}


/// A shader type as its Rust type depends on it: its kind, and its WGSL
/// alignment in bytes.
pub struct ShaderType {
    pub inner: ShaderTypeInner,
    pub alignment: u32,
}

/// The kind of a shader type.
pub enum ShaderTypeInner {
    /// A scalar of a kind and a width in bytes.
    Scalar(ScalarKind, u8),
    /// A vector of a number of scalars.
    Vector(u32, ScalarKind, u8),
    /// A matrix of columns of rows of scalars.
    Matrix(u32, u32, ScalarKind, u8),
    /// An atomic scalar.
    Atomic(ScalarKind, u8),
    /// An array of a base type: its number of elements (none for a
    /// runtime-sized array) and its stride.
    Array(Box<ShaderType>, Option<u32>, u32),
    /// A struct: its fully qualified Rust name, its size, and whether its
    /// last member is a runtime-sized array.
    Struct(String, usize, bool),
}

/// The Rust type of a shader type: its text, the text of the type that an
/// initializer gives it in (when that differs), its size (none when
/// runtime-sized), its alignment and the conversion from the init type.
pub type RustTypeView = (Seq<char>, Option<Seq<char>>, Option<usize>, u32, Option<RustTypeInitConversion>);

/// The type that the last entry of the map for the struct gives, if any.
pub open spec fn mapped_struct_type(map: Seq<(WgslType, String)>, name: Seq<char>) -> Option<Seq<char>>
    decreases map.len(),
{
    if map.len() == 0 {
        None
    } else if map.last().0 matches WgslType::Struct { fully_qualified_name: n } && n@ == name {
        Some(map.last().1@)
    } else {
        mapped_struct_type(map.drop_last(), name)
    }
}

/// The text of an array type of elements of type `inner`: a fixed-size
/// array of the elements, or of padded blocks of the stride; for a
/// runtime-sized array, a vector, a padded block, or the element type.
pub open spec fn array_text(inner: Seq<char>, storage: ArrayStorage, count: Option<u32>, stride: u32) -> Seq<char> {
    let padded = "WgslBindgenArrayElement<"@ + decimal(stride as nat) + ">"@;
    match count {
        Some(n) => "["@ + (if storage == ArrayStorage::PaddedElements {
            padded
        } else {
            inner
        }) + "; "@ + decimal(n as nat) + "]"@,
        None => match storage {
            ArrayStorage::Vector => "Vec<"@ + inner + ">"@,
            ArrayStorage::PaddedElements => padded,
            ArrayStorage::Elements => inner,
        },
    }
}

/// Whether the bindings can give a shader type a Rust type: its scalars are
/// supported, its vectors and matrices have 2 to 4 rows and columns and the
/// WGSL alignment of their types, and its arrays fit in memory.
pub open spec fn shader_type_supported(t: ShaderType) -> bool
    decreases t,
{
    let a = t.alignment;
    match t.inner {
        ShaderTypeInner::Scalar(k, w) | ShaderTypeInner::Atomic(k, w) => scalar_rust_type(k, w) is Some,
        ShaderTypeInner::Vector(n, k, w) => {
            &&& 2 <= n <= 4
            &&& scalar_rust_type(k, w) is Some
            &&& a > 0
            &&& n * w + a - 1 <= u32::MAX
            &&& vec_type_of(n, k, w) matches Some(v) ==> a == vec_align_of(vec_width(v), vec_component_size(v))
        },
        ShaderTypeInner::Matrix(c, r, k, w) => {
            &&& 2 <= c <= 4
            &&& 2 <= r <= 4
            &&& scalar_rust_type(k, w) is Some
            &&& a > 0
            &&& 4 * (r * w + a) <= u32::MAX
            &&& mat_type_of(c, r, k, w) matches Some(m) ==> a == vec_align_of(mat_shape(m).1, mat_shape(m).2)
        },
        ShaderTypeInner::Array(base, count, stride) => {
            &&& shader_type_supported(*base)
            &&& count matches Some(n) ==> n * stride <= usize::MAX
        },
        ShaderTypeInner::Struct(_, _, _) => true,
    }
}

/// The Rust type of a shader type, with the type map's types for the
/// vectors, matrices and structs that it names.
pub open spec fn rust_type_spec(map: Seq<(WgslType, String)>, t: ShaderType, strategy: WgslTypeSerializeStrategy) -> RustTypeView
    decreases t,
{
    let a = t.alignment;
    match t.inner {
        ShaderTypeInner::Scalar(k, w) | ShaderTypeInner::Atomic(k, w) => (
            scalar_text(k, w),
            None,
            Some(scalar_size(k, w)),
            a,
            None,
        ),
        ShaderTypeInner::Vector(n, k, w) => {
            let v = vector_rust_type(map, n, k, w, a, strategy);
            (v.0, None, Some(v.1 as usize), v.2 as u32, None)
        },
        ShaderTypeInner::Matrix(c, r, k, w) => {
            let m = matrix_rust_type(map, c, r, k, w, a, strategy);
            (m.0, None, Some(m.1 as usize), m.2 as u32, None)
        },
        ShaderTypeInner::Array(base, count, stride) => {
            let inner = rust_type_spec(map, *base, strategy);
            let input = match inner.1 {
                Some(i) => i,
                None => inner.0,
            };
            let bytemuck = strategy == WgslTypeSerializeStrategy::Bytemuck;
            let (size, conversion, storage) = match count {
                Some(n) => constant_array_type(inner.2, inner.4, n, stride, bytemuck),
                None => {
                    let d = dynamic_array_type(inner.2, inner.4, stride, bytemuck);
                    (None, d.0, d.1)
                },
            };
            (
                array_text(inner.0, storage, count, stride),
                if conversion is Some {
                    Some(
                        match count {
                            Some(n) => "["@ + input + "; "@ + decimal(n as nat) + "]"@,
                            None => input,
                        },
                    )
                } else {
                    None
                },
                size,
                a,
                conversion,
            )
        },
        ShaderTypeInner::Struct(name, size, tail) => (
            match mapped_struct_type(map, name@) {
                Some(m) => m,
                None => name@,
            },
            None,
            if tail {
                None
            } else {
                Some(size)
            },
            a,
            None,
        ),
    }
}

/// The Rust type of a shader type: its text, its init type's text when it
/// differs, and its layout and conversion.
pub struct RustTypeText {
    pub text: String,
    pub init_type: Option<String>,
    pub info: RustTypeInfo,
}

/// The mapped type of a struct, from the last entry of the map for it.
fn lookup_struct(map: &Vec<(WgslType, String)>, name: &String) -> (r: Option<String>)
    ensures
        match r {
            Some(t) => mapped_struct_type(map@, name@) == Some(t@),
            None => mapped_struct_type(map@, name@) is None,
        },
{
    let mut i = map.len();
    assert(map@.take(i as int) =~= map@);
    while i > 0
        invariant
            i <= map@.len(),
            mapped_struct_type(map@, name@) == mapped_struct_type(map@.take(i as int), name@),
        decreases i,
    {
        assert(map@.take(i as int).drop_last() =~= map@.take(i - 1));
        let hit = match &map[i - 1].0 {
            WgslType::Struct { fully_qualified_name: n } => chars_eq(&chars_of(n.as_str()), &chars_of(name.as_str())),
            _ => false,
        };
        if hit {
            return Some(map[i - 1].1.clone());
        }
        i -= 1;
    }
    None
}

/// The Rust type of a shader type that the bindings support.
pub fn rust_type(map: &Vec<(WgslType, String)>, t: &ShaderType, strategy: WgslTypeSerializeStrategy) -> (r: RustTypeText)
    requires
        shader_type_supported(*t),
    ensures
        (
            r.text@,
            match r.init_type {
                Some(i) => Some(i@),
                None => None,
            },
            r.info.size,
            r.info.alignment,
            r.info.init_conversion,
        ) == rust_type_spec(map@, *t, strategy),
    decreases t,
{
    let a = t.alignment;
    match &t.inner {
        ShaderTypeInner::Scalar(k, w) | ShaderTypeInner::Atomic(k, w) => {
            let (text, info) = rust_scalar_type(*k, *w, a);
            RustTypeText { text, init_type: None, info }
        },
        ShaderTypeInner::Vector(n, k, w) => {
            let (text, info) = vector_type_info(map, *n, *k, *w, a, strategy);
            RustTypeText { text, init_type: None, info }
        },
        ShaderTypeInner::Matrix(c, r, k, w) => {
            let (text, info) = matrix_type_info(map, *c, *r, *k, *w, a, strategy);
            RustTypeText { text, init_type: None, info }
        },
        ShaderTypeInner::Array(base, count, stride) => {
            let inner = rust_type(map, base, strategy);
            let input = match &inner.init_type {
                Some(i) => chars_of(i.as_str()),
                None => chars_of(inner.text.as_str()),
            };
            let (info, storage) = match count {
                Some(n) => constant_array_type_info(&inner.info, *n, *stride, a, strategy),
                None => dynamic_array_type_info(&inner.info, *stride, a, strategy),
            };
            let mut padded = chars_of("WgslBindgenArrayElement<");
            push_decimal_usize(&mut padded, *stride as usize);
            push_str(&mut padded, ">");
            let inner_text = chars_of(inner.text.as_str());
            let is_padded = match storage {
                ArrayStorage::PaddedElements => true,
                _ => false,
            };
            let text = match count {
                Some(n) => {
                    let mut out = chars_of("[");
                    if is_padded {
                        push_all(&mut out, &padded);
                    } else {
                        push_all(&mut out, &inner_text);
                    }
                    push_str(&mut out, "; ");
                    push_decimal_usize(&mut out, *n as usize);
                    push_str(&mut out, "]");
                    out
                },
                None => match storage {
                    ArrayStorage::Vector => {
                        let mut out = chars_of("Vec<");
                        push_all(&mut out, &inner_text);
                        push_str(&mut out, ">");
                        out
                    },
                    ArrayStorage::PaddedElements => padded,
                    ArrayStorage::Elements => inner_text,
                },
            };
            let init_type = if info.init_conversion.is_some() {
                match count {
                    Some(n) => {
                        let mut out = chars_of("[");
                        push_all(&mut out, &input);
                        push_str(&mut out, "; ");
                        push_decimal_usize(&mut out, *n as usize);
                        push_str(&mut out, "]");
                        Some(string_of(&out))
                    },
                    None => Some(string_of(&input)),
                }
            } else {
                None
            };
            RustTypeText { text: string_of(&text), init_type, info }
        },
        ShaderTypeInner::Struct(name, size, tail) => {
            let text = match lookup_struct(map, name) {
                Some(m) => m,
                None => string_of(&chars_of(name.as_str())),
            };
            let size = if *tail {
                None
            } else {
                Some(*size)
            };
            RustTypeText { text, init_type: None, info: RustTypeInfo { size, alignment: a, init_conversion: None } }
        },
    }
}

} // verus!
