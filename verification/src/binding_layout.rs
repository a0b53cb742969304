//! The `wgpu::BindGroupLayoutEntry` of a binding: which kind of binding its
//! shader type makes (a buffer, a texture, a storage texture or a sampler)
//! and how that kind is written.

use vstd::prelude::*;

use crate::binding_generator::push_decimal_usize;
use crate::fwgsl_loader::decimal;
use crate::layout::ScalarKind;
use crate::name_demangle::{demangle_and_fully_qualify, demangled, fully_qualified, unmangled_view, Unmangled};
use crate::text::{chars_of, push_all, string_of};
use crate::wgsl::{
    buffer_binding_type, buffer_binding_type_text, quote_shader_stages, quoted_shader_stages,
    storage_access, storage_access_text, AddressSpace, StorageAccess,
};

verus! {

/// The dimension of a texture.
#[derive(Debug, Clone, Copy, PartialEq, Eq, Structural)]
pub enum ImageDimension {
    D1,
    D2,
    D3,
    Cube,
}

/// What a texture holds.
pub enum ImageClass {
    /// Sampled texels of the given scalar kind.
    Sampled { kind: ScalarKind, multi: bool },
    /// Depth values.
    Depth { multi: bool },
    /// A storage texture of the given format (its `wgpu::TextureFormat`
    /// variant name) and access.
    Storage { format: String, access: StorageAccess },
}

/// The shader type of a binding, as far as its layout entry depends on it.
pub enum BindingResource {
    /// A scalar, struct or array, bound as a buffer: the Rust type it maps
    /// to, or none for a runtime-sized array.
    Buffer { sized_rust_type: Option<String> },
    /// A texture.
    Image { dim: ImageDimension, class: ImageClass },
    /// A sampler.
    Sampler { comparison: bool },
    /// Any other type.
    Other,
}

/// Whether a binding of this type in this address space has a layout entry:
/// a buffer in a uniform or storage address space, a texture sampled as
/// integers or floats, a depth texture, a storage texture that is read or
/// written, or a sampler.
pub open spec fn binding_supported(resource: &BindingResource, space: AddressSpace) -> bool {
    match resource {
        BindingResource::Buffer { .. } => space is Uniform || space is Storage,
        BindingResource::Image { class, .. } => match class {
            ImageClass::Sampled { kind, .. } => kind == ScalarKind::Sint || kind == ScalarKind::Uint
                || kind == ScalarKind::Float,
            ImageClass::Depth { .. } => true,
            ImageClass::Storage { access, .. } => access.load || access.store,
        },
        BindingResource::Sampler { .. } => true,
        BindingResource::Other => false,
    }
}

/// `true` or `false`.
pub open spec fn bool_text(b: bool) -> Seq<char> {
    if b {
        "true"@
    } else {
        "false"@
    }
}

/// The `wgpu::TextureViewDimension` of a texture dimension.
pub open spec fn view_dimension_text(dim: ImageDimension) -> Seq<char> {
    match dim {
        ImageDimension::D1 => "wgpu::TextureViewDimension::D1"@,
        ImageDimension::D2 => "wgpu::TextureViewDimension::D2"@,
        ImageDimension::D3 => "wgpu::TextureViewDimension::D3"@,
        ImageDimension::Cube => "wgpu::TextureViewDimension::Cube"@,
    }
}

/// The `wgpu::TextureSampleType` of texels of a scalar kind; float textures
/// are taken as filterable.
pub open spec fn sample_type_text(kind: ScalarKind) -> Seq<char> {
    if kind == ScalarKind::Sint {
        "wgpu::TextureSampleType::Sint"@
    } else if kind == ScalarKind::Uint {
        "wgpu::TextureSampleType::Uint"@
    } else {
        "wgpu::TextureSampleType::Float { filterable: true }"@
    }
}

/// The name that WGSL and `wgpu` share for a kind of texel scalar.
pub open spec fn texel_kind_name(kind: ScalarKind) -> Seq<char> {
    match kind {
        ScalarKind::Sint => "Sint"@,
        ScalarKind::Uint => "Uint"@,
        ScalarKind::Float => "Float"@,
        ScalarKind::Bool => "Bool"@,
        ScalarKind::AbstractInt => "AbstractInt"@,
        ScalarKind::AbstractFloat => "AbstractFloat"@,
    }
}

/// The binding type of a sampled texture samples it as its texel kind:
/// `TextureSampleType::Sint` for signed integer texels, `Uint` for unsigned
/// ones and `Float { filterable: true }` for floats, with the texture's view
/// dimension and whether it is multisampled.
pub proof fn law_sampled_texture_samples_its_texel_kind(
    dim: ImageDimension,
    kind: ScalarKind,
    multi: bool,
    space: AddressSpace,
)
    requires
        kind == ScalarKind::Sint || kind == ScalarKind::Uint || kind == ScalarKind::Float,
    ensures
        binding_type_text(
            &BindingResource::Image { dim, class: ImageClass::Sampled { kind, multi } },
            space,
        ) == "wgpu::BindingType::Texture { sample_type: wgpu::TextureSampleType::"@ + texel_kind_name(kind)
            + (if kind == ScalarKind::Float {
            " { filterable: true }"@
        } else {
            Seq::empty()
        }) + ", view_dimension: "@ + view_dimension_text(dim) + ", multisampled: "@ + bool_text(multi)
            + " }"@,
{
    reveal_strlit("wgpu::BindingType::Texture { sample_type: ");
    reveal_strlit("wgpu::BindingType::Texture { sample_type: wgpu::TextureSampleType::");
    reveal_strlit("wgpu::TextureSampleType::Sint");
    reveal_strlit("wgpu::TextureSampleType::Uint");
    reveal_strlit("wgpu::TextureSampleType::Float { filterable: true }");
    reveal_strlit("Sint");
    reveal_strlit("Uint");
    reveal_strlit("Float");
    reveal_strlit(" { filterable: true }");
    let pre = "wgpu::BindingType::Texture { sample_type: wgpu::TextureSampleType::"@;
    let suffix = if kind == ScalarKind::Float {
        " { filterable: true }"@
    } else {
        Seq::<char>::empty()
    };
    assert("wgpu::BindingType::Texture { sample_type: "@ + sample_type_text(kind) =~= pre
        + texel_kind_name(kind) + suffix);
    let rest = ", view_dimension: "@ + view_dimension_text(dim) + ", multisampled: "@ + bool_text(multi)
        + " }"@;
    assert(binding_type_text(
        &BindingResource::Image { dim, class: ImageClass::Sampled { kind, multi } },
        space,
    ) =~= "wgpu::BindingType::Texture { sample_type: "@ + sample_type_text(kind) + rest);
    assert(pre + texel_kind_name(kind) + suffix + rest =~= pre + texel_kind_name(kind) + suffix
        + ", view_dimension: "@ + view_dimension_text(dim) + ", multisampled: "@ + bool_text(multi)
        + " }"@);
}

/// The minimum binding size of a buffer: the size of its Rust type, or
/// none for a runtime-sized array.
pub open spec fn min_binding_size_text(sized_rust_type: Option<String>) -> Seq<char> {
    match sized_rust_type {
        Some(t) => "std::num::NonZeroU64::new(std::mem::size_of::<"@ + t@ + ">() as _)"@,
        None => "None"@,
    }
}

/// The `wgpu::BindingType` of a supported binding.
pub open spec fn binding_type_text(resource: &BindingResource, space: AddressSpace) -> Seq<char> {
    match resource {
        BindingResource::Buffer { sized_rust_type } => "wgpu::BindingType::Buffer { ty: "@
            + buffer_binding_type_text(space) + ", has_dynamic_offset: false, min_binding_size: "@
            + min_binding_size_text(*sized_rust_type) + " }"@,
        BindingResource::Image { dim, class } => match class {
            ImageClass::Sampled { kind, multi } => "wgpu::BindingType::Texture { sample_type: "@
                + sample_type_text(*kind) + ", view_dimension: "@ + view_dimension_text(*dim)
                + ", multisampled: "@ + bool_text(*multi) + " }"@,
            ImageClass::Depth { multi } =>
                "wgpu::BindingType::Texture { sample_type: wgpu::TextureSampleType::Depth, view_dimension: "@
                + view_dimension_text(*dim) + ", multisampled: "@ + bool_text(*multi) + " }"@,
            ImageClass::Storage { format, access } => "wgpu::BindingType::StorageTexture { access: "@
                + storage_access_text(*access) + ", format: wgpu::TextureFormat::"@ + format@
                + ", view_dimension: "@ + view_dimension_text(*dim) + " }"@,
        },
        BindingResource::Sampler { comparison } => "wgpu::BindingType::Sampler("@ + (if *comparison {
            "wgpu::SamplerBindingType::Comparison"@
        } else {
            "wgpu::SamplerBindingType::Filtering"@
        }) + ")"@,
        BindingResource::Other => Seq::empty(),
    }
}

/// Appends `s`.
fn push_str(out: &mut Vec<char>, s: &str)
    ensures
        final(out)@ == old(out)@ + s@,
{
    push_all(out, &chars_of(s));
}

fn view_dimension(dim: ImageDimension) -> (r: &'static str)
    ensures
        r@ == view_dimension_text(dim),
{
    match dim {
        ImageDimension::D1 => "wgpu::TextureViewDimension::D1",
        ImageDimension::D2 => "wgpu::TextureViewDimension::D2",
        ImageDimension::D3 => "wgpu::TextureViewDimension::D3",
        ImageDimension::Cube => "wgpu::TextureViewDimension::Cube",
    }
}

fn bool_str(b: bool) -> (r: &'static str)
    ensures
        r@ == bool_text(b),
{
    if b {
        "true"
    } else {
        "false"
    }
}

/// The `wgpu::BindingType` of a binding that has a layout entry.
#[verifier::spinoff_prover]
pub fn binding_type(resource: &BindingResource, address_space: AddressSpace) -> (r: String)
    requires
        binding_supported(resource, address_space),
    ensures
        r@ == binding_type_text(resource, address_space),
{
    let mut out: Vec<char> = Vec::new();
    match resource {
        BindingResource::Buffer { sized_rust_type } => {
            push_str(&mut out, "wgpu::BindingType::Buffer { ty: ");
            let ty = buffer_binding_type(address_space);
            push_all(&mut out, &chars_of(ty.as_str()));
            push_str(&mut out, ", has_dynamic_offset: false, min_binding_size: ");
            match sized_rust_type {
                Some(t) => {
                    push_str(&mut out, "std::num::NonZeroU64::new(std::mem::size_of::<");
                    push_all(&mut out, &chars_of(t.as_str()));
                    push_str(&mut out, ">() as _)");
                },
                None => push_str(&mut out, "None"),
            }
            push_str(&mut out, " }");
        },
        BindingResource::Image { dim, class } => match class {
            ImageClass::Sampled { kind, multi } => {
                push_str(&mut out, "wgpu::BindingType::Texture { sample_type: ");
                if *kind == ScalarKind::Sint {
                    push_str(&mut out, "wgpu::TextureSampleType::Sint");
                } else if *kind == ScalarKind::Uint {
                    push_str(&mut out, "wgpu::TextureSampleType::Uint");
                } else {
                    push_str(&mut out, "wgpu::TextureSampleType::Float { filterable: true }");
                }
                push_str(&mut out, ", view_dimension: ");
                push_str(&mut out, view_dimension(*dim));
                push_str(&mut out, ", multisampled: ");
                push_str(&mut out, bool_str(*multi));
                push_str(&mut out, " }");
            },
            ImageClass::Depth { multi } => {
                push_str(
                    &mut out,
                    "wgpu::BindingType::Texture { sample_type: wgpu::TextureSampleType::Depth, view_dimension: ",
                );
                push_str(&mut out, view_dimension(*dim));
                push_str(&mut out, ", multisampled: ");
                push_str(&mut out, bool_str(*multi));
                push_str(&mut out, " }");
            },
            ImageClass::Storage { format, access } => {
                push_str(&mut out, "wgpu::BindingType::StorageTexture { access: ");
                let a = storage_access(*access);
                push_all(&mut out, &chars_of(a.as_str()));
                push_str(&mut out, ", format: wgpu::TextureFormat::");
                push_all(&mut out, &chars_of(format.as_str()));
                push_str(&mut out, ", view_dimension: ");
                push_str(&mut out, view_dimension(*dim));
                push_str(&mut out, " }");
            },
        },
        BindingResource::Sampler { comparison } => {
            push_str(&mut out, "wgpu::BindingType::Sampler(");
            if *comparison {
                push_str(&mut out, "wgpu::SamplerBindingType::Comparison");
            } else {
                push_str(&mut out, "wgpu::SamplerBindingType::Filtering");
            }
            push_str(&mut out, ")");
        },
        BindingResource::Other => unreached(),
    }
    string_of(&out)
}

/// The layout entry of a binding: a doc line naming the binding's index and
/// the fully qualified demangled name of its global, then the
/// `wgpu::BindGroupLayoutEntry` with the index, the stages that see it and
/// its binding type.
pub open spec fn layout_entry_text(
    shader_stages: u32,
    binding_index: u32,
    resource: &BindingResource,
    qualified_name: Seq<char>,
    space: AddressSpace,
) -> Seq<char> {
    "/// @binding("@ + decimal(binding_index as nat) + "): \""@ + qualified_name + "\"\n"@
        + "wgpu::BindGroupLayoutEntry { binding: "@ + decimal(binding_index as nat)
        + ", visibility: "@ + quoted_shader_stages(shader_stages) + ", ty: "@ + binding_type_text(
        resource,
        space,
    ) + ", count: None }"@
}

/// The layout entry of a binding, given what `EscapeMangler::unmangle` made
/// of the name of its global.
pub fn bind_group_layout_entry(
    shader_stages: u32,
    binding_index: u32,
    resource: &BindingResource,
    name: &str,
    unmangled: Option<Unmangled>,
    address_space: AddressSpace,
) -> (r: String)
    requires
        shader_stages != 0,
        binding_supported(resource, address_space),
    ensures
        r@ == layout_entry_text(
            shader_stages,
            binding_index,
            resource,
            fully_qualified(demangled(name@, unmangled_view(unmangled)), None),
            address_space,
        ),
{
    let stages = quote_shader_stages(shader_stages);
    let ty = binding_type(resource, address_space);
    let qualified = demangle_and_fully_qualify(name, unmangled, None);
    let mut out: Vec<char> = Vec::new();
    push_str(&mut out, "/// @binding(");
    push_decimal_usize(&mut out, binding_index as usize);
    push_str(&mut out, "): \"");
    push_all(&mut out, &chars_of(qualified.as_str()));
    push_str(&mut out, "\"\n");
    push_str(&mut out, "wgpu::BindGroupLayoutEntry { binding: ");
    push_decimal_usize(&mut out, binding_index as usize);
    push_str(&mut out, ", visibility: ");
    push_all(&mut out, &chars_of(stages.as_str()));
    push_str(&mut out, ", ty: ");
    push_all(&mut out, &chars_of(ty.as_str()));
    push_str(&mut out, ", count: None }");
    string_of(&out)
}

} // verus!
