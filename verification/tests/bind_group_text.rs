use wgsl_bindgen::bind_group::{BindGroupField, BindGroupsExtraItem};
use wgsl_bindgen::bind_group_text::extra_item_text;
use wgsl_bindgen::bind_group_text::{bind_group_entries_text, EntriesBinding};
use wgsl_bindgen::binding_generator::WgpuGetBindingsGeneratorConfig;
use wgsl_bindgen::options::BindResourceType;

fn binding(name: &str, index: u32, resource_type: BindResourceType) -> EntriesBinding {
    EntriesBinding { field_name: name.to_string(), binding_index: index, resource_type }
}

#[test]
fn wgpu_entries_types_of_a_group() {
    let generator = WgpuGetBindingsGeneratorConfig::get_bind_group_layout_generator_config();
    let bindings = vec![
        binding("uniforms", 0, BindResourceType::Buffer),
        binding("color_texture", 1, BindResourceType::Texture),
        binding("color_sampler", 2, BindResourceType::Sampler),
    ];
    let text = bind_group_entries_text(&generator, 1, &bindings);
    assert_eq!(
        text,
        "#[derive(Debug)]\npub struct WgpuBindGroup1EntriesParams<'a> {\n    pub uniforms: wgpu::BufferBinding<'a>,\n    pub color_texture: &'a wgpu::TextureView,\n    pub color_sampler: &'a wgpu::Sampler,\n}\n\n#[derive(Clone, Debug)]\npub struct WgpuBindGroup1Entries<'a> {\n    pub uniforms: wgpu::BindGroupEntry<'a>,\n    pub color_texture: wgpu::BindGroupEntry<'a>,\n    pub color_sampler: wgpu::BindGroupEntry<'a>,\n}\n\nimpl<'a> WgpuBindGroup1Entries<'a> {\n    pub fn new(params: WgpuBindGroup1EntriesParams<'a>) -> Self {\n        Self {\n            uniforms: wgpu::BindGroupEntry { binding: 0, resource: wgpu::BindingResource::Buffer(params.uniforms) },\n            color_texture: wgpu::BindGroupEntry { binding: 1, resource: wgpu::BindingResource::TextureView(params.color_texture) },\n            color_sampler: wgpu::BindGroupEntry { binding: 2, resource: wgpu::BindingResource::Sampler(params.color_sampler) },\n        }\n    }\n\n    pub fn as_array(self) -> [wgpu::BindGroupEntry<'a>; 3] {\n        [\n            self.uniforms,\n            self.color_texture,\n            self.color_sampler,\n        ]\n    }\n\n    pub fn collect<B: FromIterator<wgpu::BindGroupEntry<'a>>>(self) -> B {\n        self.as_array().into_iter().collect()\n    }\n}\n"
    );
}

#[test]
fn entries_types_of_an_empty_group() {
    let generator = WgpuGetBindingsGeneratorConfig::get_bind_group_layout_generator_config();
    let text = bind_group_entries_text(&generator, 0, &vec![]);
    assert!(text.contains("pub fn as_array(self) -> [wgpu::BindGroupEntry<'a>; 0] {\n        [\n        ]\n    }"));
}

#[test]
fn bind_group_type_wraps_the_wgpu_bind_group() {
    let generator = WgpuGetBindingsGeneratorConfig::get_bind_group_layout_generator_config();
    let entries = vec!["LAYOUT_ENTRY_A".to_string(), "LAYOUT_ENTRY_B".to_string()];
    let text = wgsl_bindgen::bind_group_text::bind_group_struct_text(&generator, "triangle", 2, &entries);
    assert!(text.starts_with("#[derive(Debug)]\npub struct WgpuBindGroup2(wgpu::BindGroup);\n\nimpl WgpuBindGroup2 {\n"));
    assert!(text.contains("        label: Some(\"Triangle::BindGroup2::LayoutDescriptor\"),\n        entries: &[\n            LAYOUT_ENTRY_A,\n            LAYOUT_ENTRY_B,\n        ],\n    };\n"));
    assert!(text.contains("pub fn from_bindings(device: &wgpu::Device, bindings: WgpuBindGroup2Entries) -> Self {"));
    assert!(text.contains("            label: Some(\"Triangle::BindGroup2\"),\n"));
    assert!(text.ends_with("        pass.set_bind_group(2, &self.0, &[]);\n    }\n}\n"));
}

#[test]
fn extra_items_text() {
    let generator = WgpuGetBindingsGeneratorConfig::get_bind_group_layout_generator_config();
    let groups = BindGroupsExtraItem::WgpuBindGroups {
        containing_module: "triangle".to_string(),
        fields: vec![
            BindGroupField { group_no: 0, common_module: None },
            BindGroupField { group_no: 1, common_module: Some("shared".to_string()) },
        ],
    };
    let text = extra_item_text(&generator, &groups);
    assert!(text.starts_with("#[doc = \" Bind groups can be set individually"));
    assert!(text.contains("#[derive(Debug, Copy, Clone)]\npub struct WgpuBindGroups<'a> {\n    pub bind_group0: &'a WgpuBindGroup0,\n    pub bind_group1: &'a shared::WgpuBindGroup1,\n}\n"));
    assert!(text.ends_with("impl<'a> WgpuBindGroups<'a> {\n    pub fn set(&self, pass: &mut impl SetBindGroup) {\n        self.bind_group0.set(pass);\n        self.bind_group1.set(pass);\n    }\n}\n"));
    let tr = extra_item_text(&generator, &BindGroupsExtraItem::SetBindGroupTrait);
    assert_eq!(tr, "pub trait SetBindGroup {\n    fn set_bind_group(\n        &mut self,\n        index: u32,\n        bind_group: &wgpu::BindGroup,\n        offsets: &[wgpu::DynamicOffset],\n    );\n}\n");
    let cp = extra_item_text(&generator, &BindGroupsExtraItem::ComputePassImpl);
    assert!(cp.starts_with("impl SetBindGroup for wgpu::ComputePass<'_> {\n"));
    assert!(cp.contains("        self.set_bind_group(index, bind_group, offsets);\n"));
    let rb = extra_item_text(&generator, &BindGroupsExtraItem::RenderBundleEncoderImpl);
    assert!(rb.starts_with("impl SetBindGroup for wgpu::RenderBundleEncoder<'_> {\n"));
    let rp = extra_item_text(&generator, &BindGroupsExtraItem::RenderPassImpl);
    assert!(rp.starts_with("impl SetBindGroup for wgpu::RenderPass<'_> {\n"));
}
