use wgsl_bindgen::binding_layout::{
    bind_group_layout_entry, binding_type, BindingResource, ImageClass, ImageDimension,
};
use wgsl_bindgen::layout::ScalarKind;
use wgsl_bindgen::wgsl::{AddressSpace, StorageAccess};

#[test]
fn uniform_buffer_binding_type() {
    let resource = BindingResource::Buffer { sized_rust_type: Some("_root::shader::Uniforms".to_string()) };
    assert_eq!(
        binding_type(&resource, AddressSpace::Uniform),
        "wgpu::BindingType::Buffer { ty: wgpu::BufferBindingType::Uniform, has_dynamic_offset: false, \
         min_binding_size: std::num::NonZeroU64::new(std::mem::size_of::<_root::shader::Uniforms>() as _) }"
    );
}

#[test]
fn runtime_sized_storage_buffer_binding_type() {
    let resource = BindingResource::Buffer { sized_rust_type: None };
    let space = AddressSpace::Storage { access: StorageAccess { load: true, store: true } };
    assert_eq!(
        binding_type(&resource, space),
        "wgpu::BindingType::Buffer { ty: wgpu::BufferBindingType::Storage { read_only: false }, \
         has_dynamic_offset: false, min_binding_size: None }"
    );
}

#[test]
fn texture_binding_types() {
    let sampled = BindingResource::Image {
        dim: ImageDimension::D2,
        class: ImageClass::Sampled { kind: ScalarKind::Float, multi: false },
    };
    assert_eq!(
        binding_type(&sampled, AddressSpace::Handle),
        "wgpu::BindingType::Texture { sample_type: wgpu::TextureSampleType::Float { filterable: true }, \
         view_dimension: wgpu::TextureViewDimension::D2, multisampled: false }"
    );
    let depth = BindingResource::Image { dim: ImageDimension::Cube, class: ImageClass::Depth { multi: true } };
    assert_eq!(
        binding_type(&depth, AddressSpace::Handle),
        "wgpu::BindingType::Texture { sample_type: wgpu::TextureSampleType::Depth, \
         view_dimension: wgpu::TextureViewDimension::Cube, multisampled: true }"
    );
    let storage = BindingResource::Image {
        dim: ImageDimension::D3,
        class: ImageClass::Storage {
            format: "Rgba8Unorm".to_string(),
            access: StorageAccess { load: false, store: true },
        },
    };
    assert_eq!(
        binding_type(&storage, AddressSpace::Handle),
        "wgpu::BindingType::StorageTexture { access: wgpu::StorageTextureAccess::WriteOnly, \
         format: wgpu::TextureFormat::Rgba8Unorm, view_dimension: wgpu::TextureViewDimension::D3 }"
    );
}

#[test]
fn sampler_binding_types() {
    assert_eq!(
        binding_type(&BindingResource::Sampler { comparison: true }, AddressSpace::Handle),
        "wgpu::BindingType::Sampler(wgpu::SamplerBindingType::Comparison)"
    );
    assert_eq!(
        binding_type(&BindingResource::Sampler { comparison: false }, AddressSpace::Handle),
        "wgpu::BindingType::Sampler(wgpu::SamplerBindingType::Filtering)"
    );
}

#[test]
fn layout_entry_of_a_sampler() {
    let entry = bind_group_layout_entry(
        3,
        12,
        &BindingResource::Sampler { comparison: false },
        "color_sampler",
        None,
        AddressSpace::Handle,
    );
    assert_eq!(
        entry,
        "/// @binding(12): \"color_sampler\"\nwgpu::BindGroupLayoutEntry { binding: 12, \
         visibility: wgpu::ShaderStages::VERTEX_FRAGMENT, \
         ty: wgpu::BindingType::Sampler(wgpu::SamplerBindingType::Filtering), count: None }"
    );
}

#[test]
fn layout_entry_names_the_qualified_global() {
    let entry = bind_group_layout_entry(
        4,
        0,
        &BindingResource::Buffer { sized_rust_type: None },
        "lights::LIGHTS",
        None,
        AddressSpace::Storage { access: StorageAccess { load: true, store: false } },
    );
    assert!(entry.starts_with("/// @binding(0): \"_root::lights::LIGHTS\"\n"));
    assert!(entry.contains("visibility: wgpu::ShaderStages::COMPUTE"));
}
