//! Type maps: the Rust types that WGSL vectors, matrices and structs take
//! in the generated code, in place of the default arrays. A map holds each
//! WGSL type once; extending it with an entry for a type it holds replaces
//! that entry's Rust type in place, as `IndexMap::extend` does.

use vstd::prelude::*;

use crate::binding_generator::WgslBindgenOptionBuilder;
use crate::options::{GlamWgslTypeMap, NalgebraWgslTypeMap, RustWgslTypeMap, WgslTypeSerializeStrategy};
use crate::text::{chars_eq, chars_of, string_of};
use crate::fwgsl_loader::decimal;
use crate::layout::ScalarKind;
use crate::wgsl_type::{
    mat_shape, vec_component_size, vec_scalar_kind, vec_width, WgslMatType, WgslType, WgslTypeView, WgslVecType,
};

verus! {

/// The abstract entries of a type map.
pub open spec fn type_map_view(m: Seq<(WgslType, String)>) -> Seq<(WgslTypeView, Seq<char>)> {
    Seq::new(m.len(), |i: int| (m[i].0@, m[i].1@))
}

/// The position of the entry for `k`, if the map has one.
pub open spec fn key_position(m: Seq<(WgslTypeView, Seq<char>)>, k: WgslTypeView) -> Option<int>
    decreases m.len(),
{
    if m.len() == 0 {
        None
    } else if m.last().0 == k {
        Some(m.len() - 1)
    } else {
        key_position(m.drop_last(), k)
    }
}

/// The map with `e` inserted: its type's entry gets the new Rust type in
/// place, or `e` is appended.
pub open spec fn map_insert(m: Seq<(WgslTypeView, Seq<char>)>, e: (WgslTypeView, Seq<char>)) -> Seq<
    (WgslTypeView, Seq<char>),
> {
    match key_position(m, e.0) {
        Some(i) => m.update(i, e),
        None => m.push(e),
    }
}

/// The map extended by the entries of `b`, inserted in order.
pub open spec fn map_extend(a: Seq<(WgslTypeView, Seq<char>)>, b: Seq<(WgslTypeView, Seq<char>)>) -> Seq<
    (WgslTypeView, Seq<char>),
>
    decreases b.len(),
{
    if b.len() == 0 {
        a
    } else {
        map_insert(map_extend(a, b.drop_last()), b.last())
    }
}

/// Whether two WGSL types are the same.
fn same_wgsl_type(a: &WgslType, b: &WgslType) -> (r: bool)
    ensures
        r == (a@ == b@),
{
    match (a, b) {
        (WgslType::Vector(x), WgslType::Vector(y)) => *x == *y,
        (WgslType::Matrix(x), WgslType::Matrix(y)) => *x == *y,
        (WgslType::Struct { fully_qualified_name: x }, WgslType::Struct { fully_qualified_name: y }) => {
            chars_eq(&chars_of(x.as_str()), &chars_of(y.as_str()))
        },
        _ => false,
    }
}

/// A copy of a WGSL type.
fn copy_wgsl_type(t: &WgslType) -> (r: WgslType)
    ensures
        r@ == t@,
{
    match t {
        WgslType::Vector(v) => WgslType::Vector(*v),
        WgslType::Matrix(m) => WgslType::Matrix(*m),
        WgslType::Struct { fully_qualified_name } => WgslType::Struct {
            fully_qualified_name: fully_qualified_name.clone(),
        },
    }
}

/// The position of the entry for `k` in a type map, if it has one.
fn find_key(m: &Vec<(WgslType, String)>, k: &WgslType) -> (r: Option<usize>)
    ensures
        match r {
            Some(i) => key_position(type_map_view(m@), k@) == Some(i as int) && i < m@.len(),
            None => key_position(type_map_view(m@), k@) is None,
        },
{
    let ghost mv = type_map_view(m@);
    let mut i = m.len();
    assert(mv.take(i as int) =~= mv);
    while i > 0
        invariant
            i <= m@.len(),
            mv == type_map_view(m@),
            key_position(mv, k@) == key_position(mv.take(i as int), k@),
        decreases i,
    {
        assert(mv.take(i as int).drop_last() =~= mv.take(i - 1));
        if same_wgsl_type(&m[i - 1].0, k) {
            assert(mv.take(i as int).last().0 == k@);
            return Some(i - 1);
        }
        i -= 1;
    }
    None
}

/// Inserts an entry into a type map.
fn insert_entry(m: &mut Vec<(WgslType, String)>, k: WgslType, v: String)
    ensures
        type_map_view(final(m)@) == map_insert(type_map_view(old(m)@), (k@, v@)),
{
    let ghost mv = type_map_view(m@);
    match find_key(m, &k) {
        Some(i) => {
            let ghost kv = k@;
            m.set(i, (k, v));
            assert(type_map_view(m@) =~= mv.update(i as int, (kv, v@)));
        },
        None => {
            let ghost kv = k@;
            m.push((k, v));
            assert(type_map_view(m@) =~= mv.push((kv, v@)));
        },
    }
}

/// Extends a type map by entries, in order.
fn extend_map(m: &mut Vec<(WgslType, String)>, entries: &Vec<(WgslType, String)>)
    ensures
        type_map_view(final(m)@) == map_extend(type_map_view(old(m)@), type_map_view(entries@)),
{
    let ghost m0 = type_map_view(m@);
    let ghost ev = type_map_view(entries@);
    let mut i: usize = 0;
    assert(ev.take(0) =~= Seq::<(WgslTypeView, Seq<char>)>::empty());
    while i < entries.len()
        invariant
            i <= entries@.len(),
            ev == type_map_view(entries@),
            type_map_view(m@) == map_extend(m0, ev.take(i as int)),
        decreases entries@.len() - i,
    {
        assert(ev.take(i + 1).drop_last() =~= ev.take(i as int));
        assert(ev.take(i + 1).last() == (entries@[i as int].0@, entries@[i as int].1@));
        insert_entry(m, copy_wgsl_type(&entries[i].0), entries[i].1.clone());
        i += 1;
    }
    assert(ev.take(i as int) =~= ev);
}

/// A source of a type map, which users implement for their own Rust types.
pub trait WgslTypeMapBuild {
    /// The entries of the map built for a serialization strategy.
    spec fn built(&self, strategy: WgslTypeSerializeStrategy) -> Seq<(WgslTypeView, Seq<char>)>;

    /// Builds the type map for a serialization strategy.
    fn build(&self, strategy: WgslTypeSerializeStrategy) -> (r: Vec<(WgslType, String)>)
        ensures
            type_map_view(r@) == self.built(strategy),
    ;
}

impl WgslTypeMapBuild for RustWgslTypeMap {
    /// Rust arrays are the default: the map is empty.
    open spec fn built(&self, strategy: WgslTypeSerializeStrategy) -> Seq<(WgslTypeView, Seq<char>)> {
        Seq::empty()
    }

    fn build(&self, strategy: WgslTypeSerializeStrategy) -> (r: Vec<(WgslType, String)>) {
        let r: Vec<(WgslType, String)> = Vec::new();
        assert(type_map_view(r@) =~= Seq::<(WgslTypeView, Seq<char>)>::empty());
        r
    }
}

impl WgslTypeMapBuild for GlamWgslTypeMap {
    /// The `glam` table, for either strategy.
    open spec fn built(&self, strategy: WgslTypeSerializeStrategy) -> Seq<(WgslTypeView, Seq<char>)> {
        glam_type_map_entries()
    }

    fn build(&self, strategy: WgslTypeSerializeStrategy) -> (r: Vec<(WgslType, String)>) {
        glam_entries()
    }
}

impl WgslTypeMapBuild for NalgebraWgslTypeMap {
    /// The `nalgebra` table, for either strategy.
    open spec fn built(&self, strategy: WgslTypeSerializeStrategy) -> Seq<(WgslTypeView, Seq<char>)> {
        nalgebra_type_map_entries()
    }

    fn build(&self, strategy: WgslTypeSerializeStrategy) -> (r: Vec<(WgslType, String)>) {
        nalgebra_entries()
    }
}

/// A copy of a type map's entries.
fn copy_entries(m: &Vec<(WgslType, String)>) -> (r: Vec<(WgslType, String)>)
    ensures
        type_map_view(r@) == type_map_view(m@),
{
    let mut r: Vec<(WgslType, String)> = Vec::new();
    let mut i: usize = 0;
    while i < m.len()
        invariant
            i <= m@.len(),
            type_map_view(r@) == type_map_view(m@).take(i as int),
        decreases m@.len() - i,
    {
        let ghost before = type_map_view(r@);
        r.push((copy_wgsl_type(&m[i].0), m[i].1.clone()));
        assert(type_map_view(r@) =~= before.push((m@[i as int].0@, m@[i as int].1@)));
        assert(type_map_view(m@).take(i + 1) =~= type_map_view(m@).take(i as int).push(
            type_map_view(m@)[i as int],
        ));
        i += 1;
    }
    assert(type_map_view(m@).take(i as int) =~= type_map_view(m@));
    r
}

impl WgslTypeMapBuild for Vec<(WgslType, String)> {
    /// A map builds itself.
    open spec fn built(&self, strategy: WgslTypeSerializeStrategy) -> Seq<(WgslTypeView, Seq<char>)> {
        type_map_view(self@)
    }

    fn build(&self, strategy: WgslTypeSerializeStrategy) -> (r: Vec<(WgslType, String)>) {
        copy_entries(self)
    }
}

/// The map that a struct override makes a struct's name refer to.
pub struct OverrideStruct {
    /// The fully qualified WGSL name of the struct.
    pub from: String,
    /// The Rust type that takes its place.
    pub to: String,
    /// The alignment of that Rust type in bytes.
    pub alignment: usize,
}

/// The type-map entries of struct overrides: each struct's name mapped to
/// its Rust type, in order.
pub open spec fn override_entries(os: Seq<OverrideStruct>) -> Seq<(WgslTypeView, Seq<char>)> {
    Seq::new(os.len(), |i: int| (WgslTypeView::Struct(os[i].from@), os[i].to@))
}

/// The builder's type map, as entries: none before any is set.
pub open spec fn builder_map(m: Option<Vec<(WgslType, String)>>) -> Seq<(WgslTypeView, Seq<char>)> {
    match m {
        Some(v) => type_map_view(v@),
        None => Seq::empty(),
    }
}

impl WgslBindgenOptionBuilder {
    /// Adds the types that `map_build` builds for the serialization
    /// strategy to the type map (which it starts when none is set). The
    /// strategy must be set first.
    pub fn type_map<M: WgslTypeMapBuild>(&mut self, map_build: M) -> (r: &mut Self)
        requires
            old(self).serialization_strategy is Some,
        ensures
            r.type_map is Some,
            builder_map(r.type_map) == map_extend(
                builder_map(old(self).type_map),
                map_build.built(old(self).serialization_strategy->0),
            ),
            r.serialization_strategy == old(self).serialization_strategy,
            r.extra_binding_generator == old(self).extra_binding_generator,
            r.override_struct == old(self).override_struct,
            *final(self) == *final(r),
    {
        let strategy = match self.serialization_strategy {
            Some(s) => s,
            None => WgslTypeSerializeStrategy::Encase,
        };
        let built = map_build.build(strategy);
        let mut map = match self.type_map.take() {
            Some(m) => m,
            None => {
                let v: Vec<(WgslType, String)> = Vec::new();
                assert(type_map_view(v@) =~= Seq::<(WgslTypeView, Seq<char>)>::empty());
                v
            },
        };
        extend_map(&mut map, &built);
        self.type_map = Some(map);
        self
    }

    /// Maps each overridden struct's name to its Rust type in the type map.
    /// The strategy must be set first.
    pub fn merge_struct_type_overrides(&mut self)
        requires
            old(self).serialization_strategy is Some,
        ensures
            final(self).type_map is Some,
            builder_map(final(self).type_map) == map_extend(
                builder_map(old(self).type_map),
                override_entries(old(self).override_struct@),
            ),
            final(self).serialization_strategy == old(self).serialization_strategy,
    {
        let mut entries: Vec<(WgslType, String)> = Vec::new();
        let mut i: usize = 0;
        while i < self.override_struct.len()
            invariant
                i <= self.override_struct@.len(),
                type_map_view(entries@) == override_entries(self.override_struct@).take(i as int),
            decreases self.override_struct@.len() - i,
        {
            let o = &self.override_struct[i];
            let ghost before = type_map_view(entries@);
            entries.push((WgslType::Struct { fully_qualified_name: o.from.clone() }, o.to.clone()));
            assert(type_map_view(entries@) =~= before.push((WgslTypeView::Struct(o.from@), o.to@)));
            assert(override_entries(self.override_struct@).take(i + 1) =~= override_entries(
                self.override_struct@,
            ).take(i as int).push(override_entries(self.override_struct@)[i as int]));
            i += 1;
        }
        assert(override_entries(self.override_struct@).take(i as int) =~= override_entries(
            self.override_struct@,
        ));
        self.type_map(entries);
    }
}

/// The `nalgebra` types of the WGSL vectors and `f32` matrices: `SVector<T, N>`
/// for `vecN<T>` and `SMatrix<f32, R, C>` for `matCxR<f32>`.
pub open spec fn nalgebra_type_map_entries() -> Seq<(WgslTypeView, Seq<char>)> {
    seq![
        (WgslTypeView::Vector(WgslVecType::Vec2i), "nalgebra::SVector<i32, 2>"@),
        (WgslTypeView::Vector(WgslVecType::Vec3i), "nalgebra::SVector<i32, 3>"@),
        (WgslTypeView::Vector(WgslVecType::Vec4i), "nalgebra::SVector<i32, 4>"@),
        (WgslTypeView::Vector(WgslVecType::Vec2u), "nalgebra::SVector<u32, 2>"@),
        (WgslTypeView::Vector(WgslVecType::Vec3u), "nalgebra::SVector<u32, 3>"@),
        (WgslTypeView::Vector(WgslVecType::Vec4u), "nalgebra::SVector<u32, 4>"@),
        (WgslTypeView::Vector(WgslVecType::Vec2f), "nalgebra::SVector<f32, 2>"@),
        (WgslTypeView::Vector(WgslVecType::Vec3f), "nalgebra::SVector<f32, 3>"@),
        (WgslTypeView::Vector(WgslVecType::Vec4f), "nalgebra::SVector<f32, 4>"@),
        (WgslTypeView::Matrix(WgslMatType::Mat2x2f), "nalgebra::SMatrix<f32, 2, 2>"@),
        (WgslTypeView::Matrix(WgslMatType::Mat2x3f), "nalgebra::SMatrix<f32, 3, 2>"@),
        (WgslTypeView::Matrix(WgslMatType::Mat2x4f), "nalgebra::SMatrix<f32, 4, 2>"@),
        (WgslTypeView::Matrix(WgslMatType::Mat3x2f), "nalgebra::SMatrix<f32, 2, 3>"@),
        (WgslTypeView::Matrix(WgslMatType::Mat3x3f), "nalgebra::SMatrix<f32, 3, 3>"@),
        (WgslTypeView::Matrix(WgslMatType::Mat3x4f), "nalgebra::SMatrix<f32, 4, 3>"@),
        (WgslTypeView::Matrix(WgslMatType::Mat4x2f), "nalgebra::SMatrix<f32, 2, 4>"@),
        (WgslTypeView::Matrix(WgslMatType::Mat4x3f), "nalgebra::SMatrix<f32, 3, 4>"@),
        (WgslTypeView::Matrix(WgslMatType::Mat4x4f), "nalgebra::SMatrix<f32, 4, 4>"@),
    ]
}

fn nalgebra_entries() -> (r: Vec<(WgslType, String)>)
    ensures
        type_map_view(r@) == nalgebra_type_map_entries(),
{
    let mut m: Vec<(WgslType, String)> = Vec::new();
    m.push((WgslType::Vector(WgslVecType::Vec2i), string_of(&chars_of("nalgebra::SVector<i32, 2>"))));
    m.push((WgslType::Vector(WgslVecType::Vec3i), string_of(&chars_of("nalgebra::SVector<i32, 3>"))));
    m.push((WgslType::Vector(WgslVecType::Vec4i), string_of(&chars_of("nalgebra::SVector<i32, 4>"))));
    m.push((WgslType::Vector(WgslVecType::Vec2u), string_of(&chars_of("nalgebra::SVector<u32, 2>"))));
    m.push((WgslType::Vector(WgslVecType::Vec3u), string_of(&chars_of("nalgebra::SVector<u32, 3>"))));
    m.push((WgslType::Vector(WgslVecType::Vec4u), string_of(&chars_of("nalgebra::SVector<u32, 4>"))));
    m.push((WgslType::Vector(WgslVecType::Vec2f), string_of(&chars_of("nalgebra::SVector<f32, 2>"))));
    m.push((WgslType::Vector(WgslVecType::Vec3f), string_of(&chars_of("nalgebra::SVector<f32, 3>"))));
    m.push((WgslType::Vector(WgslVecType::Vec4f), string_of(&chars_of("nalgebra::SVector<f32, 4>"))));
    m.push((WgslType::Matrix(WgslMatType::Mat2x2f), string_of(&chars_of("nalgebra::SMatrix<f32, 2, 2>"))));
    m.push((WgslType::Matrix(WgslMatType::Mat2x3f), string_of(&chars_of("nalgebra::SMatrix<f32, 3, 2>"))));
    m.push((WgslType::Matrix(WgslMatType::Mat2x4f), string_of(&chars_of("nalgebra::SMatrix<f32, 4, 2>"))));
    m.push((WgslType::Matrix(WgslMatType::Mat3x2f), string_of(&chars_of("nalgebra::SMatrix<f32, 2, 3>"))));
    m.push((WgslType::Matrix(WgslMatType::Mat3x3f), string_of(&chars_of("nalgebra::SMatrix<f32, 3, 3>"))));
    m.push((WgslType::Matrix(WgslMatType::Mat3x4f), string_of(&chars_of("nalgebra::SMatrix<f32, 4, 3>"))));
    m.push((WgslType::Matrix(WgslMatType::Mat4x2f), string_of(&chars_of("nalgebra::SMatrix<f32, 2, 4>"))));
    m.push((WgslType::Matrix(WgslMatType::Mat4x3f), string_of(&chars_of("nalgebra::SMatrix<f32, 3, 4>"))));
    m.push((WgslType::Matrix(WgslMatType::Mat4x4f), string_of(&chars_of("nalgebra::SMatrix<f32, 4, 4>"))));
    assert(type_map_view(m@) =~= nalgebra_type_map_entries());
    m
}

/// The `glam` types of the WGSL vectors and the square `f32` matrices
/// (`mat3x3<f32>` as the 16-byte aligned `Mat3A`).
pub open spec fn glam_type_map_entries() -> Seq<(WgslTypeView, Seq<char>)> {
    seq![
        (WgslTypeView::Vector(WgslVecType::Vec2i), "glam::IVec2"@),
        (WgslTypeView::Vector(WgslVecType::Vec3i), "glam::IVec3"@),
        (WgslTypeView::Vector(WgslVecType::Vec4i), "glam::IVec4"@),
        (WgslTypeView::Vector(WgslVecType::Vec2u), "glam::UVec2"@),
        (WgslTypeView::Vector(WgslVecType::Vec3u), "glam::UVec3"@),
        (WgslTypeView::Vector(WgslVecType::Vec4u), "glam::UVec4"@),
        (WgslTypeView::Vector(WgslVecType::Vec2f), "glam::Vec2"@),
        (WgslTypeView::Vector(WgslVecType::Vec3f), "glam::Vec3"@),
        (WgslTypeView::Vector(WgslVecType::Vec4f), "glam::Vec4"@),
        (WgslTypeView::Matrix(WgslMatType::Mat2x2f), "glam::Mat2"@),
        (WgslTypeView::Matrix(WgslMatType::Mat3x3f), "glam::Mat3A"@),
        (WgslTypeView::Matrix(WgslMatType::Mat4x4f), "glam::Mat4"@),
    ]
}

fn glam_entries() -> (r: Vec<(WgslType, String)>)
    ensures
        type_map_view(r@) == glam_type_map_entries(),
{
    let mut m: Vec<(WgslType, String)> = Vec::new();
    m.push((WgslType::Vector(WgslVecType::Vec2i), string_of(&chars_of("glam::IVec2"))));
    m.push((WgslType::Vector(WgslVecType::Vec3i), string_of(&chars_of("glam::IVec3"))));
    m.push((WgslType::Vector(WgslVecType::Vec4i), string_of(&chars_of("glam::IVec4"))));
    m.push((WgslType::Vector(WgslVecType::Vec2u), string_of(&chars_of("glam::UVec2"))));
    m.push((WgslType::Vector(WgslVecType::Vec3u), string_of(&chars_of("glam::UVec3"))));
    m.push((WgslType::Vector(WgslVecType::Vec4u), string_of(&chars_of("glam::UVec4"))));
    m.push((WgslType::Vector(WgslVecType::Vec2f), string_of(&chars_of("glam::Vec2"))));
    m.push((WgslType::Vector(WgslVecType::Vec3f), string_of(&chars_of("glam::Vec3"))));
    m.push((WgslType::Vector(WgslVecType::Vec4f), string_of(&chars_of("glam::Vec4"))));
    m.push((WgslType::Matrix(WgslMatType::Mat2x2f), string_of(&chars_of("glam::Mat2"))));
    m.push((WgslType::Matrix(WgslMatType::Mat3x3f), string_of(&chars_of("glam::Mat3A"))));
    m.push((WgslType::Matrix(WgslMatType::Mat4x4f), string_of(&chars_of("glam::Mat4"))));
    assert(type_map_view(m@) =~= glam_type_map_entries());
    m
}


/// The prefix of a `glam` vector type for a scalar kind: `I` for signed
/// integers, `U` for unsigned ones, nothing for floats.
pub open spec fn glam_kind_prefix(kind: ScalarKind) -> Seq<char> {
    match kind {
        ScalarKind::Sint => "I"@,
        ScalarKind::Uint => "U"@,
        _ => Seq::empty(),
    }
}

/// The `glam` type of a WGSL vector or square matrix, named by its scalar
/// kind and size: `glam::IVecN`, `glam::UVecN` or `glam::VecN` for a vector
/// of N components, `glam::MatN` for an N by N matrix (`Mat3A`, the aligned
/// one, for N = 3).
pub open spec fn glam_type_name(t: WgslTypeView) -> Seq<char> {
    match t {
        WgslTypeView::Vector(v) => "glam::"@ + glam_kind_prefix(vec_scalar_kind(v)) + "Vec"@ + decimal(vec_width(v)),
        WgslTypeView::Matrix(m) => "glam::Mat"@ + decimal(mat_shape(m).0) + if mat_shape(m).0 == 3 {
            "A"@
        } else {
            Seq::empty()
        },
        WgslTypeView::Struct(_) => Seq::empty(),
    }
}

/// The Rust scalar of 4-byte components of a kind.
pub open spec fn rust_scalar_name(kind: ScalarKind) -> Seq<char> {
    match kind {
        ScalarKind::Sint => "i32"@,
        ScalarKind::Uint => "u32"@,
        _ => "f32"@,
    }
}

/// The `nalgebra` type of a WGSL vector or matrix, named by its scalar and
/// size: `nalgebra::SVector<T, N>` for a vector of N components of T,
/// `nalgebra::SMatrix<f32, R, C>` for a matrix of C columns of R rows.
pub open spec fn nalgebra_type_name(t: WgslTypeView) -> Seq<char> {
    match t {
        WgslTypeView::Vector(v) => "nalgebra::SVector<"@ + rust_scalar_name(vec_scalar_kind(v)) + ", "@ + decimal(
            vec_width(v),
        ) + ">"@,
        WgslTypeView::Matrix(m) => "nalgebra::SMatrix<f32, "@ + decimal(mat_shape(m).1) + ", "@ + decimal(
            mat_shape(m).0,
        ) + ">"@,
        WgslTypeView::Struct(_) => Seq::empty(),
    }
}

/// The `glam` map has an entry for a WGSL type exactly when the type is a
/// vector of 4-byte components or a square matrix of 4-byte components.
pub proof fn law_glam_map_covers_its_types(k: WgslTypeView)
    ensures
        key_position(glam_type_map_entries(), k) is Some <==> match k {
            WgslTypeView::Vector(v) => vec_component_size(v) == 4,
            WgslTypeView::Matrix(m) => mat_shape(m).0 == mat_shape(m).1 && mat_shape(m).2 == 4,
            WgslTypeView::Struct(_) => false,
        },
{
    reveal_with_fuel(key_position, 13);
}

/// The `nalgebra` map has an entry for a WGSL type exactly when the type is
/// a vector or a matrix of 4-byte components.
pub proof fn law_nalgebra_map_covers_its_types(k: WgslTypeView)
    ensures
        key_position(nalgebra_type_map_entries(), k) is Some <==> match k {
            WgslTypeView::Vector(v) => vec_component_size(v) == 4,
            WgslTypeView::Matrix(m) => mat_shape(m).2 == 4,
            WgslTypeView::Struct(_) => false,
        },
{
    reveal_with_fuel(key_position, 19);
}

/// Each entry of the `glam` map is a 4-byte vector or a square `f32`
/// matrix, mapped to the `glam` type of the same scalar kind and size.
pub proof fn law_glam_types_match_their_wgsl_types()
    ensures
        forall|i: int|
            0 <= i < glam_type_map_entries().len() ==> {
                let (k, t) = #[trigger] glam_type_map_entries()[i];
                &&& t == glam_type_name(k)
                &&& match k {
                    WgslTypeView::Vector(v) => vec_component_size(v) == 4,
                    WgslTypeView::Matrix(m) => mat_shape(m).0 == mat_shape(m).1 && mat_shape(m).2 == 4,
                    WgslTypeView::Struct(_) => false,
                }
            },
{
    reveal_strlit("glam::IVec2");
    reveal_strlit("glam::IVec3");
    reveal_strlit("glam::IVec4");
    reveal_strlit("glam::Mat2");
    reveal_strlit("glam::Mat3A");
    reveal_strlit("glam::Mat4");
    reveal_strlit("glam::UVec2");
    reveal_strlit("glam::UVec3");
    reveal_strlit("glam::UVec4");
    reveal_strlit("glam::Vec2");
    reveal_strlit("glam::Vec3");
    reveal_strlit("glam::Vec4");
    reveal_strlit("nalgebra::SMatrix<f32, 2, 2>");
    reveal_strlit("nalgebra::SMatrix<f32, 2, 3>");
    reveal_strlit("nalgebra::SMatrix<f32, 2, 4>");
    reveal_strlit("nalgebra::SMatrix<f32, 3, 2>");
    reveal_strlit("nalgebra::SMatrix<f32, 3, 3>");
    reveal_strlit("nalgebra::SMatrix<f32, 3, 4>");
    reveal_strlit("nalgebra::SMatrix<f32, 4, 2>");
    reveal_strlit("nalgebra::SMatrix<f32, 4, 3>");
    reveal_strlit("nalgebra::SMatrix<f32, 4, 4>");
    reveal_strlit("nalgebra::SVector<f32, 2>");
    reveal_strlit("nalgebra::SVector<f32, 3>");
    reveal_strlit("nalgebra::SVector<f32, 4>");
    reveal_strlit("nalgebra::SVector<i32, 2>");
    reveal_strlit("nalgebra::SVector<i32, 3>");
    reveal_strlit("nalgebra::SVector<i32, 4>");
    reveal_strlit("nalgebra::SVector<u32, 2>");
    reveal_strlit("nalgebra::SVector<u32, 3>");
    reveal_strlit("nalgebra::SVector<u32, 4>");
    reveal_strlit("glam::");
    reveal_strlit("Vec");
    reveal_strlit("I");
    reveal_strlit("U");
    reveal_strlit("glam::Mat");
    reveal_strlit("A");
    reveal_strlit("nalgebra::SVector<");
    reveal_strlit("i32");
    reveal_strlit("u32");
    reveal_strlit("f32");
    reveal_strlit(", ");
    reveal_strlit(">");
    reveal_strlit("nalgebra::SMatrix<f32, ");
    assert(glam_type_map_entries()[0].1 =~= glam_type_name(glam_type_map_entries()[0].0));
    assert(glam_type_map_entries()[1].1 =~= glam_type_name(glam_type_map_entries()[1].0));
    assert(glam_type_map_entries()[2].1 =~= glam_type_name(glam_type_map_entries()[2].0));
    assert(glam_type_map_entries()[3].1 =~= glam_type_name(glam_type_map_entries()[3].0));
    assert(glam_type_map_entries()[4].1 =~= glam_type_name(glam_type_map_entries()[4].0));
    assert(glam_type_map_entries()[5].1 =~= glam_type_name(glam_type_map_entries()[5].0));
    assert(glam_type_map_entries()[6].1 =~= glam_type_name(glam_type_map_entries()[6].0));
    assert(glam_type_map_entries()[7].1 =~= glam_type_name(glam_type_map_entries()[7].0));
    assert(glam_type_map_entries()[8].1 =~= glam_type_name(glam_type_map_entries()[8].0));
    assert(glam_type_map_entries()[9].1 =~= glam_type_name(glam_type_map_entries()[9].0));
    assert(glam_type_map_entries()[10].1 =~= glam_type_name(glam_type_map_entries()[10].0));
    assert(glam_type_map_entries()[11].1 =~= glam_type_name(glam_type_map_entries()[11].0));
}

/// Each entry of the `nalgebra` map is a 4-byte vector or an `f32` matrix,
/// mapped to the `nalgebra` type of the same scalar and size.
pub proof fn law_nalgebra_types_match_their_wgsl_types()
    ensures
        forall|i: int|
            0 <= i < nalgebra_type_map_entries().len() ==> {
                let (k, t) = #[trigger] nalgebra_type_map_entries()[i];
                &&& t == nalgebra_type_name(k)
                &&& match k {
                    WgslTypeView::Vector(v) => vec_component_size(v) == 4,
                    WgslTypeView::Matrix(m) => mat_shape(m).2 == 4,
                    WgslTypeView::Struct(_) => false,
                }
            },
{
    reveal_strlit("glam::IVec2");
    reveal_strlit("glam::IVec3");
    reveal_strlit("glam::IVec4");
    reveal_strlit("glam::Mat2");
    reveal_strlit("glam::Mat3A");
    reveal_strlit("glam::Mat4");
    reveal_strlit("glam::UVec2");
    reveal_strlit("glam::UVec3");
    reveal_strlit("glam::UVec4");
    reveal_strlit("glam::Vec2");
    reveal_strlit("glam::Vec3");
    reveal_strlit("glam::Vec4");
    reveal_strlit("nalgebra::SMatrix<f32, 2, 2>");
    reveal_strlit("nalgebra::SMatrix<f32, 2, 3>");
    reveal_strlit("nalgebra::SMatrix<f32, 2, 4>");
    reveal_strlit("nalgebra::SMatrix<f32, 3, 2>");
    reveal_strlit("nalgebra::SMatrix<f32, 3, 3>");
    reveal_strlit("nalgebra::SMatrix<f32, 3, 4>");
    reveal_strlit("nalgebra::SMatrix<f32, 4, 2>");
    reveal_strlit("nalgebra::SMatrix<f32, 4, 3>");
    reveal_strlit("nalgebra::SMatrix<f32, 4, 4>");
    reveal_strlit("nalgebra::SVector<f32, 2>");
    reveal_strlit("nalgebra::SVector<f32, 3>");
    reveal_strlit("nalgebra::SVector<f32, 4>");
    reveal_strlit("nalgebra::SVector<i32, 2>");
    reveal_strlit("nalgebra::SVector<i32, 3>");
    reveal_strlit("nalgebra::SVector<i32, 4>");
    reveal_strlit("nalgebra::SVector<u32, 2>");
    reveal_strlit("nalgebra::SVector<u32, 3>");
    reveal_strlit("nalgebra::SVector<u32, 4>");
    reveal_strlit("glam::");
    reveal_strlit("Vec");
    reveal_strlit("I");
    reveal_strlit("U");
    reveal_strlit("glam::Mat");
    reveal_strlit("A");
    reveal_strlit("nalgebra::SVector<");
    reveal_strlit("i32");
    reveal_strlit("u32");
    reveal_strlit("f32");
    reveal_strlit(", ");
    reveal_strlit(">");
    reveal_strlit("nalgebra::SMatrix<f32, ");
    assert(nalgebra_type_map_entries()[0].1 =~= nalgebra_type_name(nalgebra_type_map_entries()[0].0));
    assert(nalgebra_type_map_entries()[1].1 =~= nalgebra_type_name(nalgebra_type_map_entries()[1].0));
    assert(nalgebra_type_map_entries()[2].1 =~= nalgebra_type_name(nalgebra_type_map_entries()[2].0));
    assert(nalgebra_type_map_entries()[3].1 =~= nalgebra_type_name(nalgebra_type_map_entries()[3].0));
    assert(nalgebra_type_map_entries()[4].1 =~= nalgebra_type_name(nalgebra_type_map_entries()[4].0));
    assert(nalgebra_type_map_entries()[5].1 =~= nalgebra_type_name(nalgebra_type_map_entries()[5].0));
    assert(nalgebra_type_map_entries()[6].1 =~= nalgebra_type_name(nalgebra_type_map_entries()[6].0));
    assert(nalgebra_type_map_entries()[7].1 =~= nalgebra_type_name(nalgebra_type_map_entries()[7].0));
    assert(nalgebra_type_map_entries()[8].1 =~= nalgebra_type_name(nalgebra_type_map_entries()[8].0));
    assert(nalgebra_type_map_entries()[9].1 =~= nalgebra_type_name(nalgebra_type_map_entries()[9].0));
    assert(nalgebra_type_map_entries()[10].1 =~= nalgebra_type_name(nalgebra_type_map_entries()[10].0));
    assert(nalgebra_type_map_entries()[11].1 =~= nalgebra_type_name(nalgebra_type_map_entries()[11].0));
    assert(nalgebra_type_map_entries()[12].1 =~= nalgebra_type_name(nalgebra_type_map_entries()[12].0));
    assert(nalgebra_type_map_entries()[13].1 =~= nalgebra_type_name(nalgebra_type_map_entries()[13].0));
    assert(nalgebra_type_map_entries()[14].1 =~= nalgebra_type_name(nalgebra_type_map_entries()[14].0));
    assert(nalgebra_type_map_entries()[15].1 =~= nalgebra_type_name(nalgebra_type_map_entries()[15].0));
    assert(nalgebra_type_map_entries()[16].1 =~= nalgebra_type_name(nalgebra_type_map_entries()[16].0));
    assert(nalgebra_type_map_entries()[17].1 =~= nalgebra_type_name(nalgebra_type_map_entries()[17].0));
}

} // verus!
