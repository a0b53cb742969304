use wgsl_bindgen::bind_group::{
    ShaderBindGroupRef, ShaderEntryBindGroups, SingleBindGroupData, SingleBindGroupEntry,
};
use wgsl_bindgen::binding_generator::WgpuGetBindingsGeneratorConfig;
use wgsl_bindgen::name_demangle::RustSourceItemPath;
use wgsl_bindgen::options::ShaderBindGroupRefKind;
use wgsl_bindgen::pipeline::{
    bind_group_layout_exprs, create_pipeline_layout_fn, layout_entries_struct, push_constant_range,
    GlobalVariable,
};
use wgsl_bindgen::wgsl::{AddressSpace, StorageAccess};

fn group(module: &str) -> SingleBindGroupData {
    SingleBindGroupData {
        bindings: vec![SingleBindGroupEntry {
            name: Some("x".to_string()),
            item_path: RustSourceItemPath { module: module.to_string(), name: "X".to_string() },
            binding_index: 0,
            binding_type: 0,
        }],
    }
}

fn entry(stages: u32) -> ShaderEntryBindGroups {
    ShaderEntryBindGroups {
        containing_module: "main".to_string(),
        shader_stages: stages,
        bind_group_ref: vec![
            ShaderBindGroupRef { kind: ShaderBindGroupRefKind::Common, data: group("common") },
            ShaderBindGroupRef { kind: ShaderBindGroupRefKind::Entrypoint, data: group("main") },
        ],
        original_bind_group: vec![group("common"), group("main")],
    }
}

#[test]
fn push_constant_range_from_first_push_constant_global() {
    let globals = [
        GlobalVariable { space: AddressSpace::Uniform, type_size: 64 },
        GlobalVariable { space: AddressSpace::PushConstant, type_size: 16 },
        GlobalVariable { space: AddressSpace::PushConstant, type_size: 32 },
    ];
    assert_eq!(
        push_constant_range(&globals, 3),
        Some("wgpu::PushConstantRange { stages: wgpu::ShaderStages::VERTEX_FRAGMENT, range: 0..16 }".to_string())
    );
}

#[test]
fn no_push_constant_range_without_push_constants() {
    let globals = [GlobalVariable {
        space: AddressSpace::Storage { access: StorageAccess { load: true, store: false } },
        type_size: 8,
    }];
    assert_eq!(push_constant_range(&globals, 4), None);
}

#[test]
fn shared_groups_take_their_layout_from_their_module() {
    let exprs = bind_group_layout_exprs(&entry(3), "WgpuBindGroup");
    assert_eq!(
        exprs,
        vec![
            "common::WgpuBindGroup0::get_bind_group_layout(device)".to_string(),
            "WgpuBindGroup1::get_bind_group_layout(device)".to_string(),
        ]
    );
}

#[test]
fn layout_entries_struct_has_one_entry_per_group() {
    let generator = WgpuGetBindingsGeneratorConfig::get_pipeline_layout_generator();
    assert_eq!(
        layout_entries_struct(&generator, 2),
        "#[derive(Debug)]\npub struct WgpuPipelineLayout;\n\nimpl WgpuPipelineLayout {\n    \
         pub fn bind_group_layout_entries(entries: [wgpu::BindGroupLayout; 2]) -> [wgpu::BindGroupLayout; 2] {\n        \
         entries\n    }\n}\n"
    );
}

#[test]
fn pipeline_layout_fn_lists_groups_and_push_constants() {
    let generator = WgpuGetBindingsGeneratorConfig::get_pipeline_layout_generator();
    let globals = [GlobalVariable { space: AddressSpace::PushConstant, type_size: 4 }];
    let text = create_pipeline_layout_fn("main", &globals, &entry(1), "WgpuBindGroup", &generator, None);
    let expected = layout_entries_struct(&generator, 2)
        + "pub fn create_pipeline_layout(device: &wgpu::Device) -> wgpu::PipelineLayout {\n    \
           device.create_pipeline_layout(&wgpu::PipelineLayoutDescriptor {\n        \
           label: Some(\"main::PipelineLayout\"),\n        \
           bind_group_layouts: &[&common::WgpuBindGroup0::get_bind_group_layout(device), \
           &WgpuBindGroup1::get_bind_group_layout(device)],\n        \
           push_constant_ranges: &[wgpu::PushConstantRange { stages: wgpu::ShaderStages::VERTEX, range: 0..4 }],\n    \
           })\n}\n";
    assert_eq!(text, expected);
}
