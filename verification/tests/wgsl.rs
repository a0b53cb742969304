use wgsl_bindgen::layout::ScalarKind;
use wgsl_bindgen::wgsl::{
    buffer_binding_type, get_vertex_input_structs, quote_shader_stages, shader_stages, storage_access,
    vertex_format, AddressSpace, ArgumentType, EntryPoint, FunctionArgument, MemberBinding, ShaderStage,
    StorageAccess, StructMember, VertexAttributeType, VertexFormat,
};

// The stages of the entry points of a module with no entry point.
#[test]
fn shader_stages_none() {
    assert_eq!(0, shader_stages(&[]));
}

#[test]
fn shader_stages_vertex() {
    assert_eq!(1, shader_stages(&[ShaderStage::Vertex]));
}

#[test]
fn shader_stages_fragment() {
    assert_eq!(2, shader_stages(&[ShaderStage::Fragment]));
}

#[test]
fn shader_stages_vertex_fragment() {
    assert_eq!(3, shader_stages(&[ShaderStage::Vertex, ShaderStage::Fragment]));
}

#[test]
fn shader_stages_compute() {
    assert_eq!(4, shader_stages(&[ShaderStage::Compute]));
}

// Vertex, fragment and compute: every stage a WGSL entry point can have.
#[test]
fn shader_stages_all() {
    assert_eq!(
        7,
        shader_stages(&[ShaderStage::Vertex, ShaderStage::Fragment, ShaderStage::Compute])
    );
}

#[test]
fn shader_stages_repeated_stage_counts_once() {
    assert_eq!(
        5,
        shader_stages(&[ShaderStage::Compute, ShaderStage::Vertex, ShaderStage::Compute])
    );
}

#[test]
fn quote_named_shader_stages() {
    assert_eq!(quote_shader_stages(1), "wgpu::ShaderStages::VERTEX");
    assert_eq!(quote_shader_stages(2), "wgpu::ShaderStages::FRAGMENT");
    assert_eq!(quote_shader_stages(3), "wgpu::ShaderStages::VERTEX_FRAGMENT");
    assert_eq!(quote_shader_stages(4), "wgpu::ShaderStages::COMPUTE");
    assert_eq!(quote_shader_stages(8), "wgpu::ShaderStages::TASK");
    assert_eq!(quote_shader_stages(16), "wgpu::ShaderStages::MESH");
    assert_eq!(quote_shader_stages(31), "wgpu::ShaderStages::all()");
}

#[test]
fn quote_combined_shader_stages() {
    assert_eq!(
        quote_shader_stages(5),
        "wgpu::ShaderStages::VERTEX.union(wgpu::ShaderStages::COMPUTE)"
    );
    assert_eq!(
        quote_shader_stages(7),
        "wgpu::ShaderStages::VERTEX.union(wgpu::ShaderStages::FRAGMENT).union(wgpu::ShaderStages::COMPUTE)"
    );
    assert_eq!(
        quote_shader_stages(24),
        "wgpu::ShaderStages::TASK.union(wgpu::ShaderStages::MESH)"
    );
}

#[test]
fn quote_unknown_shader_stage_bits() {
    assert_eq!(quote_shader_stages(33), "wgpu::ShaderStages::from_bits_retain(33u32)");
}

#[test]
fn buffer_binding_types() {
    assert_eq!(buffer_binding_type(AddressSpace::Uniform), "wgpu::BufferBindingType::Uniform");
    assert_eq!(
        buffer_binding_type(AddressSpace::Storage {
            access: StorageAccess { load: true, store: false }
        }),
        "wgpu::BufferBindingType::Storage { read_only: true }"
    );
    assert_eq!(
        buffer_binding_type(AddressSpace::Storage {
            access: StorageAccess { load: true, store: true }
        }),
        "wgpu::BufferBindingType::Storage { read_only: false }"
    );
}

#[test]
fn storage_texture_access() {
    assert_eq!(
        storage_access(StorageAccess { load: true, store: true }),
        "wgpu::StorageTextureAccess::ReadWrite"
    );
    assert_eq!(
        storage_access(StorageAccess { load: true, store: false }),
        "wgpu::StorageTextureAccess::ReadOnly"
    );
    assert_eq!(
        storage_access(StorageAccess { load: false, store: true }),
        "wgpu::StorageTextureAccess::WriteOnly"
    );
}

#[test]
fn vertex_formats_of_attributes() {
    let scalar = |kind, width| VertexAttributeType::Scalar { kind, width };
    let vector = |size, kind, width| VertexAttributeType::Vector { size, kind, width };
    assert_eq!(vertex_format(&scalar(ScalarKind::Float, 4)), VertexFormat::Float32);
    assert_eq!(vertex_format(&scalar(ScalarKind::Uint, 4)), VertexFormat::Uint32);
    assert_eq!(vertex_format(&scalar(ScalarKind::Float, 8)), VertexFormat::Float64);
    assert_eq!(vertex_format(&vector(2, ScalarKind::Sint, 1)), VertexFormat::Sint8x2);
    assert_eq!(vertex_format(&vector(3, ScalarKind::Float, 4)), VertexFormat::Float32x3);
    assert_eq!(vertex_format(&vector(4, ScalarKind::Uint, 2)), VertexFormat::Uint16x4);
    assert_eq!(vertex_format(&vector(4, ScalarKind::Float, 8)), VertexFormat::Float64x4);
}

fn located(name: &str, location: u32) -> StructMember {
    StructMember { name: Some(name.to_string()), binding: Some(MemberBinding::Location(location)) }
}

fn struct_arg(name: &str, members: Vec<StructMember>) -> FunctionArgument {
    FunctionArgument {
        has_binding: false,
        ty: ArgumentType::Struct { name: name.to_string(), unmangled: None, members },
    }
}

#[test]
fn vertex_input_structs_two_structs() {
    let vertex_input0 = struct_arg("VertexInput0", vec![located("in0", 0), located("in1", 1), located("in2", 2)]);
    let vertex_input1 = struct_arg(
        "VertexInput1",
        vec![
            located("in3", 3),
            located("in4", 4),
            StructMember { name: Some("index".to_string()), binding: Some(MemberBinding::BuiltIn) },
            located("in5", 5),
            located("in6", 6),
        ],
    );
    // `@builtin(front_facing) in2: bool` and `@location(7) in3: vec4<f32>`.
    let front_facing = FunctionArgument { has_binding: true, ty: ArgumentType::Other };
    let located_vec = FunctionArgument { has_binding: true, ty: ArgumentType::Other };
    let module = [EntryPoint {
        stage: ShaderStage::Vertex,
        arguments: vec![vertex_input0, vertex_input1, front_facing, located_vec],
    }];

    let vertex_inputs = get_vertex_input_structs("", &module);
    // Only structures should be included.
    assert_eq!(2, vertex_inputs.len());

    assert_eq!("VertexInput0", vertex_inputs[0].item_path.name);
    assert_eq!(3, vertex_inputs[0].fields.len());
    assert_eq!("in1", vertex_inputs[0].fields[1].1.name.as_ref().unwrap());
    assert_eq!(1, vertex_inputs[0].fields[1].0);

    assert_eq!("VertexInput1", vertex_inputs[1].item_path.name);
    assert_eq!(4, vertex_inputs[1].fields.len());
    assert_eq!("in5", vertex_inputs[1].fields[2].1.name.as_ref().unwrap());
    assert_eq!(5, vertex_inputs[1].fields[2].0);
}

#[test]
fn vertex_inputs_come_from_the_first_vertex_entry_only() {
    let compute = EntryPoint {
        stage: ShaderStage::Compute,
        arguments: vec![struct_arg("ComputeInput", vec![located("a", 0)])],
    };
    let first = EntryPoint { stage: ShaderStage::Vertex, arguments: vec![struct_arg("First", vec![located("a", 0)])] };
    let second = EntryPoint { stage: ShaderStage::Vertex, arguments: vec![struct_arg("Second", vec![located("b", 1)])] };
    let inputs = get_vertex_input_structs("shader", &[compute, first, second]);
    assert_eq!(1, inputs.len());
    assert_eq!("First", inputs[0].item_path.name);
    assert_eq!("shader", inputs[0].item_path.module);
    assert!(get_vertex_input_structs("shader", &[]).is_empty());
}
