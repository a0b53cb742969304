use wgsl_bindgen::adt::qualified_struct_path;
use wgsl_bindgen::compile_test::{detect_required_dependencies_from_content, generate_single_file_cargo_toml};
use wgsl_bindgen::options::{header_texts, should_regenerate_output, WgslShaderSourceType, WgslTypeSerializeStrategy};
use wgsl_bindgen::struct_layout::{build_derives, generate_derive_attributes};

#[test]
fn required_dependencies_of_generated_code() {
    assert_eq!(
        detect_required_dependencies_from_content("struct A;"),
        vec!["wgpu", "glam", "bytemuck", "encase"]
    );
    assert_eq!(
        detect_required_dependencies_from_content("use naga_oil::compose; include_absolute_path!(x)"),
        vec!["wgpu", "glam", "bytemuck", "encase", "naga_oil", "include_absolute_path"]
    );
}

#[test]
fn single_file_cargo_toml() {
    let toml = generate_single_file_cargo_toml("demo", &vec!["glam".to_string(), "unknown".to_string(), "encase".to_string()]);
    assert_eq!(
        toml,
        "[package]\nname = \"demo\"\nversion = \"0.1.0\"\nedition = \"2021\"\n\n# Empty workspace to avoid conflicts with parent workspace\n[workspace]\n\n[dependencies]\nglam = \"0.30\"\nencase = \"0.11\"\n"
    );
}

#[test]
fn struct_derives_follow_the_strategy() {
    assert_eq!(
        build_derives(WgslTypeSerializeStrategy::Bytemuck, false, false),
        vec!["Debug", "PartialEq", "Clone", "Copy"]
    );
    assert_eq!(
        build_derives(WgslTypeSerializeStrategy::Encase, true, true),
        vec!["Debug", "PartialEq", "Clone", "encase::ShaderType", "serde::Serialize", "serde::Deserialize"]
    );
    assert_eq!(
        build_derives(WgslTypeSerializeStrategy::Encase, false, false),
        vec!["Debug", "PartialEq", "Clone", "Copy", "encase::ShaderType"]
    );
}

#[test]
fn test_generate_derive_attributes() {
    let traits = vec!["Debug".to_string(), "Clone".to_string(), "PartialEq".to_string()];
    assert_eq!(generate_derive_attributes(&traits), "#[derive(Debug, Clone, PartialEq)]");
    assert_eq!(generate_derive_attributes(&vec![]), "");
}

#[test]
fn shader_source_type_names() {
    let embed = WgslShaderSourceType::EmbedSource;
    let wesl = WgslShaderSourceType::WeslWithRelativePath;
    assert_eq!(embed.create_shader_module_fn_name(), "create_shader_module_embed_source");
    assert_eq!(wesl.load_shader_module_fn_name(), "load_shader_module_from_path");
    assert_eq!(embed.create_compute_pipeline_fn_name("main"), "create_main_pipeline_embed_source");
    assert_eq!(wesl.create_compute_pipeline_fn_name("main"), "create_main_pipeline_from_path");
    assert_eq!(embed.get_return_type("wgpu::ShaderModule"), "wgpu::ShaderModule");
    assert_eq!(
        wesl.get_return_type("wgpu::ShaderModule"),
        "::std::result::Result<wgpu::ShaderModule, ::std::string::String>"
    );
    assert_eq!(wesl.wrap_return_stmt("module"), "::std::result::Result::Ok(module)");
    assert_eq!(embed.get_propagate_operator(), "");
    assert_eq!(wesl.get_propagate_operator(), "?");
    assert_eq!(
        wesl.shader_module_params_defs_and_params(),
        ("device: &wgpu::Device, base_dir: &::std::path::Path".to_string(), "device, base_dir".to_string())
    );
}

#[test]
fn header_comments() {
    assert_eq!(header_texts(true, "wgsl_bindgen", "1.0", "abc"), "");
    assert_eq!(
        header_texts(false, "wgsl_bindgen", "1.0", "abc"),
        "// File automatically generated by wgsl_bindgen^\n//\n// ^ wgsl_bindgen version 1.0\n// Changes made to this file will not be saved.\n// SourceHash: abc\n\n"
    );
}

#[test]
fn payload_struct_paths() {
    assert_eq!(qualified_struct_path("", "Circle"), "Circle");
    assert_eq!(qualified_struct_path("shape_compute", "Circle"), "shape_compute::Circle");
    assert_eq!(qualified_struct_path("a::b", "Circle"), "a::b::Circle");
}

#[test]
fn output_is_regenerated_only_when_its_hash_changed() {
    let old = "// File automatically generated by wgsl_bindgen^\r\n//\n// SourceHash: abc123\n\nmod x {}\n";
    assert!(!should_regenerate_output(old, "abc123", false));
    assert!(should_regenerate_output(old, "abc124", false));
    assert!(should_regenerate_output(old, "abc123", true));
    assert!(should_regenerate_output("", "abc123", false));
    // Only the first hash line counts.
    let twice = "// SourceHash: old\n// SourceHash: abc123\n";
    assert!(should_regenerate_output(twice, "abc123", false));
}

#[test]
fn written_header_makes_output_current() {
    let hash = "5f1c0e8d2b7a9c3e4f6a1b2c3d4e5f60718293a4b5c6d7e8f90a1b2c3d4e5f60";
    let output = header_texts(false, "wgsl_bindgen", "0.21.2", hash) + "pub mod shader {}\n";
    assert!(!should_regenerate_output(&output, hash, false));
    assert!(should_regenerate_output(&output, "0000", false));
}
