use wgsl_bindgen::binding_generator::{
    BindingGenerator, GetBindingsGeneratorConfig, WgpuGetBindingsGeneratorConfig,
    WgslBindgenOptionBuilder,
};
use wgsl_bindgen::options::BindResourceType;

#[test]
fn wgpu_generator_names_and_types() {
    let generator = WgpuGetBindingsGeneratorConfig.get_generator_config();
    let layout = &generator.bind_group_layout;
    assert_eq!(layout.bind_group_name_ident(0), "WgpuBindGroup0");
    assert_eq!(layout.bind_group_name_ident(12), "WgpuBindGroup12");
    assert_eq!(layout.bind_group_entries_struct_name_ident(3), "WgpuBindGroup3Entries");
    assert_eq!(layout.binding_type(BindResourceType::Buffer), Some("wgpu::BufferBinding<'a>".to_string()));
    assert_eq!(
        layout.binding_type(BindResourceType::TextureArray),
        Some("&'a [&'a wgpu::TextureView]".to_string())
    );
    assert!(layout.uses_lifetime);
    assert_eq!(generator.pipeline_layout.layout_name, "WgpuPipelineLayout");
    assert_eq!(generator.pipeline_layout.bind_group_layout_type, "wgpu::BindGroupLayout");
}

#[test]
fn wgpu_entry_construction() {
    let generator = BindingGenerator::default();
    assert_eq!(
        generator.bind_group_layout.construct_entry(2, "self.texture", BindResourceType::Texture),
        "wgpu::BindGroupEntry { binding: 2, resource: wgpu::BindingResource::TextureView(self.texture) }"
    );
    assert_eq!(
        generator.bind_group_layout.construct_entry(10, "buf", BindResourceType::BufferArray),
        "wgpu::BindGroupEntry { binding: 10, resource: wgpu::BindingResource::BufferArray(buf) }"
    );
}

#[test]
fn extra_binding_generator_is_set() {
    let mut builder = WgslBindgenOptionBuilder {
        extra_binding_generator: None,
        serialization_strategy: None,
        type_map: None,
        override_struct: vec![],
    };
    builder.extra_binding_generator(WgpuGetBindingsGeneratorConfig);
    assert!(matches!(builder.extra_binding_generator, Some(Some(_))));
}

#[test]
fn extra_binding_generator_stores_the_given_generator() {
    let mut custom = BindingGenerator::default();
    custom.pipeline_layout.layout_name = "MyPipelineLayout".to_string();
    let mut builder = WgslBindgenOptionBuilder {
        extra_binding_generator: None,
        serialization_strategy: None,
        type_map: None,
        override_struct: vec![],
    };
    builder.extra_binding_generator(custom);
    match &builder.extra_binding_generator {
        Some(Some(g)) => assert_eq!(g.pipeline_layout.layout_name, "MyPipelineLayout"),
        _ => panic!("no generator stored"),
    }
}
