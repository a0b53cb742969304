use wgsl_bindgen::options::WgslShaderSourceType;
use wgsl_bindgen::shader_registry::shader_registry_text;

#[test]
fn registry_has_a_variant_and_arms_per_entry() {
    let entries = vec![
        ("Triangle".to_string(), "triangle".to_string()),
        ("LinesSegment".to_string(), "lines::segment".to_string()),
    ];
    let text = shader_registry_text(
        &entries,
        &vec![WgslShaderSourceType::EmbedSource, WgslShaderSourceType::WeslWithRelativePath],
    );
    assert_eq!(
        text,
        "#[derive(Clone, Copy, Debug, PartialEq, Eq, Hash)]\npub enum ShaderEntry {\n    Triangle,\n    LinesSegment,\n}\n\nimpl ShaderEntry {\n    pub fn create_pipeline_layout(&self, device: &wgpu::Device) -> wgpu::PipelineLayout {\n        match self {\n            Self::Triangle => triangle::create_pipeline_layout(device),\n            Self::LinesSegment => lines::segment::create_pipeline_layout(device),\n        }\n    }\n\n    pub fn create_shader_module_embed_source(&self, device: &wgpu::Device) -> wgpu::ShaderModule {\n        match self {\n            Self::Triangle => triangle::create_shader_module_embed_source(device),\n            Self::LinesSegment => lines::segment::create_shader_module_embed_source(device),\n        }\n    }\n\n    pub fn create_shader_module_from_path(&self, device: &wgpu::Device, base_dir: &::std::path::Path) -> ::std::result::Result<wgpu::ShaderModule, ::std::string::String> {\n        match self {\n            Self::Triangle => triangle::create_shader_module_from_path(device, base_dir),\n            Self::LinesSegment => lines::segment::create_shader_module_from_path(device, base_dir),\n        }\n    }\n}\n"
    );
}
