//! What the bindings read of a parsed shader module besides its types: the
//! stages of its entry points and their `wgpu::ShaderStages` text, how its
//! buffers and storage textures are accessed, and the vertex formats of
//! vertex attributes.

use vstd::prelude::*;

use crate::binding_generator::push_decimal_usize;
use crate::fwgsl_loader::decimal;
use crate::layout::ScalarKind;
use crate::name_demangle::{demangled, item_path_of, unmangled_view, RustSourceItemPath, Unmangled};
use crate::text::{chars_of, push_all, string_of};

verus! {

/// The stage of a shader entry point.
#[derive(Debug, Clone, Copy, PartialEq, Eq, Structural)]
pub enum ShaderStage {
    Vertex,
    Fragment,
    Compute,
}

/// The `wgpu::ShaderStages` bit of a stage.
pub open spec fn stage_bit(s: ShaderStage) -> u32 {
    match s {
        ShaderStage::Vertex => 1,
        ShaderStage::Fragment => 2,
        ShaderStage::Compute => 4,
    }
}

/// The union of the bits of the stages.
pub open spec fn stages_bits(stages: Seq<ShaderStage>) -> u32
    decreases stages.len(),
{
    if stages.len() == 0 {
        0
    } else {
        stages_bits(stages.drop_last()) | stage_bit(stages.last())
    }
}

/// The `wgpu::ShaderStages` of a module whose entry points have the given
/// stages: the union of their bits, empty without entry points.
pub fn shader_stages(entry_stages: &[ShaderStage]) -> (bits: u32)
    ensures
        bits == stages_bits(entry_stages@),
{
    let mut bits: u32 = 0;
    let mut i: usize = 0;
    while i < entry_stages.len()
        invariant
            i <= entry_stages@.len(),
            bits == stages_bits(entry_stages@.take(i as int)),
        decreases entry_stages@.len() - i,
    {
        assert(entry_stages@.take(i + 1).drop_last() =~= entry_stages@.take(i as int));
        let bit: u32 = match entry_stages[i] {
            ShaderStage::Vertex => 1,
            ShaderStage::Fragment => 2,
            ShaderStage::Compute => 4,
        };
        bits = bits | bit;
        i += 1;
    }
    assert(entry_stages@.take(i as int) =~= entry_stages@);
    bits
}

/// The bits of a set of stages lie among the three stage bits, and a
/// stage's bit is set exactly when one of the entry points has that stage.
pub proof fn law_stage_bits_name_the_stages(stages: Seq<ShaderStage>, s: ShaderStage)
    ensures
        stages_bits(stages) < 8,
        (stages_bits(stages) & stage_bit(s) != 0) <==> stages.contains(s),
    decreases stages.len(),
{
    if stages.len() == 0 {
        assert(0u32 & stage_bit(s) == 0) by (bit_vector);
    } else {
        let init = stages.drop_last();
        let last = stages.last();
        law_stage_bits_name_the_stages(init, s);
        let b = stages_bits(init);
        let x = stage_bit(last);
        let y = stage_bit(s);
        assert(x == 1 || x == 2 || x == 4);
        assert(y == 1 || y == 2 || y == 4);
        assert((b | x) < 8 && (((b | x) & y != 0) == ((b & y != 0) || x == y))) by (bit_vector)
            requires
                b < 8,
                x == 1 || x == 2 || x == 4,
                y == 1 || y == 2 || y == 4,
        ;
        assert(x == y <==> last == s);
        if init.contains(s) {
            let k = choose|k: int| 0 <= k < init.len() && init[k] == s;
            assert(stages[k] == s);
        }
        if last == s {
            assert(stages[stages.len() - 1] == s);
        }
        if stages.contains(s) && last != s {
            let k = choose|k: int| 0 <= k < stages.len() && stages[k] == s;
            assert(init[k] == s);
        }
    }
}

/// `[name]` when `set`, else nothing.
pub open spec fn name_if(set: bool, name: Seq<char>) -> Seq<Seq<char>> {
    if set {
        seq![name]
    } else {
        Seq::empty()
    }
}

/// The names of the stage flags set in `bits`, from the lowest bit up.
pub open spec fn set_stage_names(bits: u32) -> Seq<Seq<char>> {
    name_if(bits & 1 != 0, "wgpu::ShaderStages::VERTEX"@) + name_if(
        bits & 2 != 0,
        "wgpu::ShaderStages::FRAGMENT"@,
    ) + name_if(bits & 4 != 0, "wgpu::ShaderStages::COMPUTE"@) + name_if(
        bits & 8 != 0,
        "wgpu::ShaderStages::TASK"@,
    ) + name_if(bits & 16 != 0, "wgpu::ShaderStages::MESH"@)
}

/// `A.union(B).union(C)...` of the names, in order.
pub open spec fn union_chain(names: Seq<Seq<char>>) -> Seq<char>
    decreases names.len(),
{
    if names.len() <= 1 {
        if names.len() == 1 {
            names[0]
        } else {
            Seq::empty()
        }
    } else {
        union_chain(names.drop_last()) + ".union("@ + names.last() + ")"@
    }
}

/// The text of a `wgpu::ShaderStages` value: the constant's name for one of
/// the named sets (all five flags, bits 0 to 4, are `all()`);
/// `from_bits_retain` of the number for bits outside the five flags;
/// otherwise the union of the set flags.
pub open spec fn quoted_shader_stages(bits: u32) -> Seq<char> {
    if bits == 3 {
        "wgpu::ShaderStages::VERTEX_FRAGMENT"@
    } else if bits == 4 {
        "wgpu::ShaderStages::COMPUTE"@
    } else if bits == 1 {
        "wgpu::ShaderStages::VERTEX"@
    } else if bits == 2 {
        "wgpu::ShaderStages::FRAGMENT"@
    } else if bits == 8 {
        "wgpu::ShaderStages::TASK"@
    } else if bits == 16 {
        "wgpu::ShaderStages::MESH"@
    } else if bits == 31 {
        "wgpu::ShaderStages::all()"@
    } else if bits > 31 {
        "wgpu::ShaderStages::from_bits_retain("@ + decimal(bits as nat) + "u32)"@
    } else {
        union_chain(set_stage_names(bits))
    }
}

/// Appends `name` to `names` when `set`.
fn push_name_if(names: &mut Vec<Vec<char>>, set: bool, name: &str)
    ensures
        final(names).deep_view() == old(names).deep_view() + name_if(set, name@),
{
    let ghost before = names.deep_view();
    if set {
        names.push(chars_of(name));
        assert(names.deep_view()[before.len() as int] =~= names@[before.len() as int]@);
        assert(names.deep_view() =~= before + name_if(set, name@));
    } else {
        assert(names.deep_view() =~= before + name_if(set, name@));
    }
}

/// The text of a `wgpu::ShaderStages` value, for a non-empty set of stages.
#[verifier::spinoff_prover]
pub fn quote_shader_stages(shader_stages: u32) -> (r: String)
    requires
        shader_stages != 0,
    ensures
        r@ == quoted_shader_stages(shader_stages),
{
    let bits = shader_stages;
    if bits == 3 {
        return string_of(&chars_of("wgpu::ShaderStages::VERTEX_FRAGMENT"));
    } else if bits == 4 {
        return string_of(&chars_of("wgpu::ShaderStages::COMPUTE"));
    } else if bits == 1 {
        return string_of(&chars_of("wgpu::ShaderStages::VERTEX"));
    } else if bits == 2 {
        return string_of(&chars_of("wgpu::ShaderStages::FRAGMENT"));
    } else if bits == 8 {
        return string_of(&chars_of("wgpu::ShaderStages::TASK"));
    } else if bits == 16 {
        return string_of(&chars_of("wgpu::ShaderStages::MESH"));
    } else if bits == 31 {
        return string_of(&chars_of("wgpu::ShaderStages::all()"));
    } else if bits > 31 {
        let mut out = chars_of("wgpu::ShaderStages::from_bits_retain(");
        push_decimal_usize(&mut out, bits as usize);
        push_all(&mut out, &chars_of("u32)"));
        return string_of(&out);
    }
    let mut names: Vec<Vec<char>> = Vec::new();
    assert(names.deep_view() =~= Seq::<Seq<char>>::empty());
    push_name_if(&mut names, bits & 1 != 0, "wgpu::ShaderStages::VERTEX");
    push_name_if(&mut names, bits & 2 != 0, "wgpu::ShaderStages::FRAGMENT");
    push_name_if(&mut names, bits & 4 != 0, "wgpu::ShaderStages::COMPUTE");
    push_name_if(&mut names, bits & 8 != 0, "wgpu::ShaderStages::TASK");
    push_name_if(&mut names, bits & 16 != 0, "wgpu::ShaderStages::MESH");
    let ghost nv = names.deep_view();
    assert(nv =~= set_stage_names(bits));
    assert(nv.len() > 0) by {
        assert(0 < bits < 32);
        assert(bits & 1 != 0 || bits & 2 != 0 || bits & 4 != 0 || bits & 8 != 0 || bits & 16 != 0)
            by (bit_vector)
            requires
                0 < bits < 32,
        ;
    }
    let mut out: Vec<char> = names[0].clone();
    assert(out@ == nv[0]);
    let mut i: usize = 1;
    while i < names.len()
        invariant
            1 <= i <= names@.len(),
            nv == names.deep_view(),
            out@ == union_chain(nv.take(i as int)),
        decreases names@.len() - i,
    {
        assert(nv.take(i + 1).drop_last() =~= nv.take(i as int));
        assert(nv.take(i + 1).last() == names@[i as int]@);
        if i == 1 {
            assert(nv.take(1).len() == 1);
        }
        push_all(&mut out, &chars_of(".union("));
        push_all(&mut out, &names[i]);
        push_all(&mut out, &chars_of(")"));
        i += 1;
    }
    assert(nv.take(i as int) =~= nv);
    string_of(&out)
}

/// The access of a storage buffer or texture, as far as the bindings read
/// it.
#[derive(Debug, Clone, Copy, PartialEq, Eq, Structural)]
pub struct StorageAccess {
    /// Whether the shader may read it.
    pub load: bool,
    /// Whether the shader may write it.
    pub store: bool,
}

/// The address space of a global variable.
#[derive(Debug, Clone, Copy, PartialEq, Eq, Structural)]
pub enum AddressSpace {
    Function,
    Private,
    WorkGroup,
    Uniform,
    Storage { access: StorageAccess },
    Handle,
    PushConstant,
}

/// The text of the `wgpu::BufferBindingType` of a buffer in a uniform or
/// storage address space: a storage buffer is read-only unless the shader
/// may write it.
pub open spec fn buffer_binding_type_text(space: AddressSpace) -> Seq<char> {
    match space {
        AddressSpace::Uniform => "wgpu::BufferBindingType::Uniform"@,
        AddressSpace::Storage { access } => if access.store {
            "wgpu::BufferBindingType::Storage { read_only: false }"@
        } else {
            "wgpu::BufferBindingType::Storage { read_only: true }"@
        },
        _ => Seq::empty(),
    }
}

/// The `wgpu::BufferBindingType` of a buffer; only uniform and storage
/// buffers have one.
pub fn buffer_binding_type(storage: AddressSpace) -> (r: String)
    requires
        storage is Uniform || storage is Storage,
    ensures
        r@ == buffer_binding_type_text(storage),
{
    match storage {
        AddressSpace::Uniform => string_of(&chars_of("wgpu::BufferBindingType::Uniform")),
        AddressSpace::Storage { access } => {
            if access.store {
                string_of(&chars_of("wgpu::BufferBindingType::Storage { read_only: false }"))
            } else {
                string_of(&chars_of("wgpu::BufferBindingType::Storage { read_only: true }"))
            }
        },
        _ => unreached(),
    }
}

/// The text of the `wgpu::StorageTextureAccess` of an access that reads or
/// writes.
pub open spec fn storage_access_text(access: StorageAccess) -> Seq<char> {
    if access.load && access.store {
        "wgpu::StorageTextureAccess::ReadWrite"@
    } else if access.load {
        "wgpu::StorageTextureAccess::ReadOnly"@
    } else {
        "wgpu::StorageTextureAccess::WriteOnly"@
    }
}

/// The `wgpu::StorageTextureAccess` of a storage texture that the shader
/// reads or writes.
pub fn storage_access(access: StorageAccess) -> (r: String)
    requires
        access.load || access.store,
    ensures
        r@ == storage_access_text(access),
{
    if access.load && access.store {
        string_of(&chars_of("wgpu::StorageTextureAccess::ReadWrite"))
    } else if access.load {
        string_of(&chars_of("wgpu::StorageTextureAccess::ReadOnly"))
    } else {
        string_of(&chars_of("wgpu::StorageTextureAccess::WriteOnly"))
    }
}

/// The format of a vertex attribute, as `wgpu::VertexFormat` names it.
#[derive(Debug, Clone, Copy, PartialEq, Eq, Structural)]
pub enum VertexFormat {
    Sint32,
    Uint32,
    Float32,
    Float64,
    Sint8x2,
    Uint8x2,
    Sint16x2,
    Uint16x2,
    Uint32x2,
    Sint32x2,
    Float32x2,
    Float64x2,
    Uint32x3,
    Sint32x3,
    Float32x3,
    Float64x3,
    Sint8x4,
    Uint8x4,
    Sint16x4,
    Uint16x4,
    Uint32x4,
    Sint32x4,
    Float32x4,
    Float64x4,
}

/// The type of a vertex attribute, as far as its format depends on it.
#[derive(Debug, Clone, Copy, PartialEq, Eq, Structural)]
pub enum VertexAttributeType {
    /// A scalar of the given kind and width in bytes.
    Scalar { kind: ScalarKind, width: u8 },
    /// A vector of `size` (2, 3 or 4) scalars of the given kind and width.
    Vector { size: u32, kind: ScalarKind, width: u8 },
    /// Any other type.
    Other,
}

/// The vertex format of an attribute type, where `wgpu` has one for it.
pub open spec fn vertex_format_of(ty: VertexAttributeType) -> Option<VertexFormat> {
    match ty {
        VertexAttributeType::Scalar { kind, width } => match (kind, width) {
            (ScalarKind::Sint, 4) => Some(VertexFormat::Sint32),
            (ScalarKind::Uint, 4) => Some(VertexFormat::Uint32),
            (ScalarKind::Float, 4) => Some(VertexFormat::Float32),
            (ScalarKind::Float, 8) => Some(VertexFormat::Float64),
            _ => None,
        },
        VertexAttributeType::Vector { size, kind, width } => match (size, kind, width) {
            (2, ScalarKind::Sint, 1) => Some(VertexFormat::Sint8x2),
            (2, ScalarKind::Uint, 1) => Some(VertexFormat::Uint8x2),
            (2, ScalarKind::Sint, 2) => Some(VertexFormat::Sint16x2),
            (2, ScalarKind::Uint, 2) => Some(VertexFormat::Uint16x2),
            (2, ScalarKind::Uint, 4) => Some(VertexFormat::Uint32x2),
            (2, ScalarKind::Sint, 4) => Some(VertexFormat::Sint32x2),
            (2, ScalarKind::Float, 4) => Some(VertexFormat::Float32x2),
            (2, ScalarKind::Float, 8) => Some(VertexFormat::Float64x2),
            (3, ScalarKind::Uint, 4) => Some(VertexFormat::Uint32x3),
            (3, ScalarKind::Sint, 4) => Some(VertexFormat::Sint32x3),
            (3, ScalarKind::Float, 4) => Some(VertexFormat::Float32x3),
            (3, ScalarKind::Float, 8) => Some(VertexFormat::Float64x3),
            (4, ScalarKind::Sint, 1) => Some(VertexFormat::Sint8x4),
            (4, ScalarKind::Uint, 1) => Some(VertexFormat::Uint8x4),
            (4, ScalarKind::Sint, 2) => Some(VertexFormat::Sint16x4),
            (4, ScalarKind::Uint, 2) => Some(VertexFormat::Uint16x4),
            (4, ScalarKind::Uint, 4) => Some(VertexFormat::Uint32x4),
            (4, ScalarKind::Sint, 4) => Some(VertexFormat::Sint32x4),
            (4, ScalarKind::Float, 4) => Some(VertexFormat::Float32x4),
            (4, ScalarKind::Float, 8) => Some(VertexFormat::Float64x4),
            _ => None,
        },
        VertexAttributeType::Other => None,
    }
}

/// What a vertex format holds, as its name says: the number of components
/// (1 for a scalar), their kind and their width in bytes.
pub open spec fn format_shape(f: VertexFormat) -> (nat, ScalarKind, nat) {
    match f {
        VertexFormat::Sint32 => (1, ScalarKind::Sint, 4),
        VertexFormat::Uint32 => (1, ScalarKind::Uint, 4),
        VertexFormat::Float32 => (1, ScalarKind::Float, 4),
        VertexFormat::Float64 => (1, ScalarKind::Float, 8),
        VertexFormat::Sint8x2 => (2, ScalarKind::Sint, 1),
        VertexFormat::Uint8x2 => (2, ScalarKind::Uint, 1),
        VertexFormat::Sint16x2 => (2, ScalarKind::Sint, 2),
        VertexFormat::Uint16x2 => (2, ScalarKind::Uint, 2),
        VertexFormat::Uint32x2 => (2, ScalarKind::Uint, 4),
        VertexFormat::Sint32x2 => (2, ScalarKind::Sint, 4),
        VertexFormat::Float32x2 => (2, ScalarKind::Float, 4),
        VertexFormat::Float64x2 => (2, ScalarKind::Float, 8),
        VertexFormat::Uint32x3 => (3, ScalarKind::Uint, 4),
        VertexFormat::Sint32x3 => (3, ScalarKind::Sint, 4),
        VertexFormat::Float32x3 => (3, ScalarKind::Float, 4),
        VertexFormat::Float64x3 => (3, ScalarKind::Float, 8),
        VertexFormat::Sint8x4 => (4, ScalarKind::Sint, 1),
        VertexFormat::Uint8x4 => (4, ScalarKind::Uint, 1),
        VertexFormat::Sint16x4 => (4, ScalarKind::Sint, 2),
        VertexFormat::Uint16x4 => (4, ScalarKind::Uint, 2),
        VertexFormat::Uint32x4 => (4, ScalarKind::Uint, 4),
        VertexFormat::Sint32x4 => (4, ScalarKind::Sint, 4),
        VertexFormat::Float32x4 => (4, ScalarKind::Float, 4),
        VertexFormat::Float64x4 => (4, ScalarKind::Float, 8),
    }
}

/// The vertex format of an attribute holds exactly the attribute's
/// components: one for a scalar, `size` for a vector, of the attribute's
/// scalar kind and width.
pub proof fn law_vertex_format_matches_the_attribute(ty: VertexAttributeType)
    ensures
        vertex_format_of(ty) matches Some(f) ==> match ty {
            VertexAttributeType::Scalar { kind, width } => format_shape(f) == (1nat, kind, width as nat),
            VertexAttributeType::Vector { size, kind, width } => format_shape(f) == (size as nat, kind, width as nat),
            VertexAttributeType::Other => false,
        },
{
}

/// Every scalar or vector attribute whose components some vertex format
/// holds has a vertex format.
pub proof fn law_attribute_with_a_format_shape_has_a_format(ty: VertexAttributeType, f: VertexFormat)
    requires
        ty matches VertexAttributeType::Vector { size, .. } ==> size >= 2,
        format_shape(f) == match ty {
            VertexAttributeType::Scalar { kind, width } => (1nat, kind, width as nat),
            VertexAttributeType::Vector { size, kind, width } => (size as nat, kind, width as nat),
            VertexAttributeType::Other => (0nat, ScalarKind::Bool, 0nat),
        },
    ensures
        vertex_format_of(ty) is Some,
{
}

/// Distinct vertex formats hold different components, so the shape of a
/// format names it.
pub proof fn law_vertex_format_is_named_by_its_shape(f: VertexFormat, g: VertexFormat)
    ensures
        format_shape(f) == format_shape(g) ==> f == g,
{
}

/// The vertex format of an attribute type that `wgpu` has a format for.
pub fn vertex_format(ty: &VertexAttributeType) -> (r: VertexFormat)
    requires
        vertex_format_of(*ty) is Some,
    ensures
        vertex_format_of(*ty) == Some(r),
{
    match *ty {
        VertexAttributeType::Scalar { kind, width } => match (kind, width) {
            (ScalarKind::Sint, 4) => VertexFormat::Sint32,
            (ScalarKind::Uint, 4) => VertexFormat::Uint32,
            (ScalarKind::Float, 4) => VertexFormat::Float32,
            _ => VertexFormat::Float64,
        },
        VertexAttributeType::Vector { size, kind, width } => match (size, kind, width) {
            (2, ScalarKind::Sint, 1) => VertexFormat::Sint8x2,
            (2, ScalarKind::Uint, 1) => VertexFormat::Uint8x2,
            (2, ScalarKind::Sint, 2) => VertexFormat::Sint16x2,
            (2, ScalarKind::Uint, 2) => VertexFormat::Uint16x2,
            (2, ScalarKind::Uint, 4) => VertexFormat::Uint32x2,
            (2, ScalarKind::Sint, 4) => VertexFormat::Sint32x2,
            (2, ScalarKind::Float, 4) => VertexFormat::Float32x2,
            (2, ScalarKind::Float, 8) => VertexFormat::Float64x2,
            (3, ScalarKind::Uint, 4) => VertexFormat::Uint32x3,
            (3, ScalarKind::Sint, 4) => VertexFormat::Sint32x3,
            (3, ScalarKind::Float, 4) => VertexFormat::Float32x3,
            (3, ScalarKind::Float, 8) => VertexFormat::Float64x3,
            (4, ScalarKind::Sint, 1) => VertexFormat::Sint8x4,
            (4, ScalarKind::Uint, 1) => VertexFormat::Uint8x4,
            (4, ScalarKind::Sint, 2) => VertexFormat::Sint16x4,
            (4, ScalarKind::Uint, 2) => VertexFormat::Uint16x4,
            (4, ScalarKind::Uint, 4) => VertexFormat::Uint32x4,
            (4, ScalarKind::Sint, 4) => VertexFormat::Sint32x4,
            (4, ScalarKind::Float, 4) => VertexFormat::Float32x4,
            _ => VertexFormat::Float64x4,
        },
        VertexAttributeType::Other => unreached(),
    }
}

/// How a member of a struct is bound when the struct is a vertex input.
#[derive(Debug, Clone, Copy, PartialEq, Eq, Structural)]
pub enum MemberBinding {
    /// A built-in value, such as the vertex index.
    BuiltIn,
    /// A vertex attribute at the given location.
    Location(u32),
}

/// A member of a struct type, as far as vertex inputs read it.
pub struct StructMember {
    pub name: Option<String>,
    pub binding: Option<MemberBinding>,
}

/// Abstract struct member: its name and binding.
pub type StructMemberView = (Option<Seq<char>>, Option<MemberBinding>);

impl View for StructMember {
    type V = StructMemberView;

    open spec fn view(&self) -> StructMemberView {
        (
            match self.name {
                Some(n) => Some(n@),
                None => None,
            },
            self.binding,
        )
    }
}

impl Clone for StructMember {
    fn clone(&self) -> (r: Self)
        ensures
            r@ == self@,
    {
        let name = match &self.name {
            Some(n) => Some(n.clone()),
            None => None,
        };
        StructMember { name, binding: self.binding }
    }
}

/// The type of an argument of an entry point.
pub enum ArgumentType {
    /// A struct: its WGSL name, what `EscapeMangler::unmangle` made of that
    /// name, and its members.
    Struct { name: String, unmangled: Option<Unmangled>, members: Vec<StructMember> },
    /// Any other type.
    Other,
}

/// An argument of an entry point: whether it has a binding of its own, and
/// its type.
pub struct FunctionArgument {
    pub has_binding: bool,
    pub ty: ArgumentType,
}

/// An entry point of a shader module: its stage and arguments.
pub struct EntryPoint {
    pub stage: ShaderStage,
    pub arguments: Vec<FunctionArgument>,
}

/// A struct that a vertex entry point takes as input: the Rust item it
/// becomes, and its members bound to attribute locations, with their
/// locations.
pub struct VertexInput {
    pub item_path: RustSourceItemPath,
    pub fields: Vec<(u32, StructMember)>,
}

/// Abstract vertex input: the item's module and name, and its located
/// members.
pub type VertexInputView = ((Seq<char>, Seq<char>), Seq<(u32, StructMemberView)>);

impl View for VertexInput {
    type V = VertexInputView;

    open spec fn view(&self) -> VertexInputView {
        (
            (self.item_path.module@, self.item_path.name@),
            Seq::new(self.fields@.len(), |i: int| (self.fields@[i].0, self.fields@[i].1@)),
        )
    }
}

/// The members bound to a location, with their locations, in order.
pub open spec fn located_members(members: Seq<StructMember>) -> Seq<(u32, StructMemberView)>
    decreases members.len(),
{
    if members.len() == 0 {
        Seq::empty()
    } else {
        let rest = located_members(members.drop_last());
        match members.last().binding {
            Some(MemberBinding::Location(l)) => rest.push((l, members.last()@)),
            _ => rest,
        }
    }
}

/// The vertex input that an argument is: a struct argument without a
/// binding of its own is one, in `module` unless its name says otherwise.
pub open spec fn vertex_input_of(arg: FunctionArgument, module: Seq<char>) -> Option<VertexInputView> {
    if arg.has_binding {
        None
    } else {
        match arg.ty {
            ArgumentType::Struct { name, unmangled, members } => Some(
                (
                    item_path_of(demangled(name@, unmangled_view(unmangled)), module),
                    located_members(members@),
                ),
            ),
            ArgumentType::Other => None,
        }
    }
}

/// The vertex inputs among the arguments, in order.
pub open spec fn vertex_inputs_of(args: Seq<FunctionArgument>, module: Seq<char>) -> Seq<VertexInputView>
    decreases args.len(),
{
    if args.len() == 0 {
        Seq::empty()
    } else {
        let rest = vertex_inputs_of(args.drop_last(), module);
        match vertex_input_of(args.last(), module) {
            Some(v) => rest.push(v),
            None => rest,
        }
    }
}

/// Whether `i` is the position of the first vertex entry point.
pub open spec fn is_first_vertex_entry(entry_points: Seq<EntryPoint>, i: int) -> bool {
    &&& 0 <= i < entry_points.len()
    &&& entry_points[i].stage == ShaderStage::Vertex
    &&& forall|k: int| 0 <= k < i ==> #[trigger] entry_points[k].stage != ShaderStage::Vertex
}

/// The vertex inputs of the first vertex entry point; none without one.
pub open spec fn vertex_input_structs(entry_points: Seq<EntryPoint>, module: Seq<char>) -> Seq<
    VertexInputView,
> {
    if exists|i: int| is_first_vertex_entry(entry_points, i) {
        let i = choose|i: int| is_first_vertex_entry(entry_points, i);
        vertex_inputs_of(entry_points[i].arguments@, module)
    } else {
        Seq::empty()
    }
}

/// Whether every member of every struct argument without a binding of the
/// given arguments has a binding.
pub open spec fn struct_members_bound(args: Seq<FunctionArgument>) -> bool {
    forall|a: int|
        0 <= a < args.len() && !(#[trigger] args[a]).has_binding ==> match args[a].ty {
            ArgumentType::Struct { members, .. } => forall|m: int|
                0 <= m < members@.len() ==> (#[trigger] members@[m]).binding is Some,
            ArgumentType::Other => true,
        }
}

/// The members of a struct bound to a location, with their locations.
fn located_fields(members: &Vec<StructMember>) -> (r: Vec<(u32, StructMember)>)
    requires
        forall|m: int| 0 <= m < members@.len() ==> (#[trigger] members@[m]).binding is Some,
    ensures
        Seq::new(r@.len(), |i: int| (r@[i].0, r@[i].1@)) == located_members(members@),
{
    let mut fields: Vec<(u32, StructMember)> = Vec::new();
    let mut k: usize = 0;
    while k < members.len()
        invariant
            k <= members@.len(),
            Seq::new(fields@.len(), |i: int| (fields@[i].0, fields@[i].1@)) == located_members(
                members@.take(k as int),
            ),
        decreases members@.len() - k,
    {
        assert(members@.take(k + 1).drop_last() =~= members@.take(k as int));
        assert(members@.take(k + 1).last() == members@[k as int]);
        let ghost before = Seq::new(fields@.len(), |i: int| (fields@[i].0, fields@[i].1@));
        match members[k].binding {
            Some(MemberBinding::Location(l)) => {
                let m = members[k].clone();
                fields.push((l, m));
                assert(Seq::new(fields@.len(), |i: int| (fields@[i].0, fields@[i].1@)) =~= before.push(
                    (l, members@[k as int]@),
                ));
            },
            _ => {},
        }
        k += 1;
    }
    assert(members@.take(k as int) =~= members@);
    fields
}

/// The structs that the first vertex entry point takes as inputs, with the
/// members bound to attribute locations; built-in members are left out.
#[verifier::spinoff_prover]
pub fn get_vertex_input_structs(invoking_entry_module: &str, entry_points: &[EntryPoint]) -> (r: Vec<
    VertexInput,
>)
    requires
        forall|i: int|
            is_first_vertex_entry(entry_points@, i) ==> struct_members_bound(
                #[trigger] entry_points@[i].arguments@,
            ),
    ensures
        Seq::new(r@.len(), |i: int| r@[i]@) == vertex_input_structs(entry_points@, invoking_entry_module@),
{
    let mut e: usize = 0;
    while e < entry_points.len() && entry_points[e].stage != ShaderStage::Vertex
        invariant
            e <= entry_points@.len(),
            forall|k: int| 0 <= k < e ==> #[trigger] entry_points@[k].stage != ShaderStage::Vertex,
        decreases entry_points@.len() - e,
    {
        e += 1;
    }
    let mut inputs: Vec<VertexInput> = Vec::new();
    if e == entry_points.len() {
        assert(!exists|i: int| is_first_vertex_entry(entry_points@, i));
        assert(Seq::new(inputs@.len(), |i: int| inputs@[i]@) =~= Seq::<VertexInputView>::empty());
        return inputs;
    }
    assert(is_first_vertex_entry(entry_points@, e as int));
    proof {
        let c = choose|i: int| is_first_vertex_entry(entry_points@, i);
        if c < e {
            assert(entry_points@[c].stage != ShaderStage::Vertex);
        }
        if c > e {
            assert(entry_points@[e as int].stage != ShaderStage::Vertex);
        }
        assert(c == e);
    }
    let args = &entry_points[e].arguments;
    let ghost av = args@;
    assert(struct_members_bound(av));
    let mut a: usize = 0;
    while a < args.len()
        invariant
            a <= av.len(),
            av == args@,
            struct_members_bound(av),
            Seq::new(inputs@.len(), |i: int| inputs@[i]@) == vertex_inputs_of(
                av.take(a as int),
                invoking_entry_module@,
            ),
        decreases av.len() - a,
    {
        assert(av.take(a + 1).drop_last() =~= av.take(a as int));
        assert(av.take(a + 1).last() == av[a as int]);
        let ghost before = Seq::new(inputs@.len(), |i: int| inputs@[i]@);
        let arg = &args[a];
        if !arg.has_binding {
            match &arg.ty {
                ArgumentType::Struct { name, unmangled, members } => {
                    assert(!av[a as int].has_binding);
                    let u = match unmangled {
                        Some(x) => Some(x.clone()),
                        None => None,
                    };
                    assert(unmangled_view(u) == unmangled_view(*unmangled));
                    let item_path = RustSourceItemPath::from_mangled(
                        name.as_str(),
                        u,
                        invoking_entry_module,
                    );
                    let fields = located_fields(members);
                    let input = VertexInput { item_path, fields };
                    inputs.push(input);
                    assert(Seq::new(inputs@.len(), |i: int| inputs@[i]@) =~= before.push(input@));
                },
                ArgumentType::Other => {},
            }
        }
        a += 1;
    }
    assert(av.take(a as int) =~= av);
    inputs
}

} // verus!
