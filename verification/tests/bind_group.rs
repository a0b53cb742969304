use wgsl_bindgen::bind_group::{
    get_bind_group_data_for_entry, BindGroupsExtraItem, BoundGlobal, RawShadersBindGroups,
    SingleBindGroupEntry,
};
use wgsl_bindgen::name_demangle::RustSourceItemPath;
use wgsl_bindgen::options::{CreateModuleError, ShaderBindGroupRefKind};

fn global(group: u32, binding: u32, name: &str, module: &str, item: &str) -> BoundGlobal {
    BoundGlobal {
        group,
        entry: SingleBindGroupEntry {
            name: Some(name.to_string()),
            item_path: RustSourceItemPath { module: module.to_string(), name: item.to_string() },
            binding_index: binding,
            binding_type: binding as usize,
        },
    }
}

#[test]
fn bind_group_data_consecutive_bind_groups() {
    let globals = vec![
        global(0, 0, "a", "test", "Vec4"),
        global(1, 0, "b", "test", "Vec4"),
        global(2, 0, "c", "test", "Vec4"),
    ];
    let data = get_bind_group_data_for_entry(&globals, 0, "test").ok().unwrap();
    assert_eq!(3, data.bind_group_data.len());
    assert_eq!(data.containing_module, "test");
}

#[test]
fn bind_group_data_first_group_not_zero() {
    let globals = vec![global(1, 0, "a", "test", "Vec4")];
    assert!(matches!(
        get_bind_group_data_for_entry(&globals, 2, "test"),
        Err(CreateModuleError::NonConsecutiveBindGroups)
    ));
}

#[test]
fn bind_group_data_non_consecutive_bind_groups() {
    let globals = vec![
        global(0, 0, "a", "test", "Vec4"),
        global(1, 0, "b", "test", "Vec4"),
        global(3, 0, "c", "test", "Vec4"),
    ];
    assert!(matches!(
        get_bind_group_data_for_entry(&globals, 0, "test"),
        Err(CreateModuleError::NonConsecutiveBindGroups)
    ));
}

#[test]
fn bind_group_data_repeated_bindings() {
    let globals = vec![
        global(0, 0, "a", "test", "Vec4"),
        global(1, 2, "b", "test", "Vec4"),
        global(1, 2, "c", "test", "Vec4"),
        global(5, 0, "d", "test", "Vec4"),
    ];
    assert!(matches!(
        get_bind_group_data_for_entry(&globals, 0, "test"),
        Err(CreateModuleError::DuplicateBinding { binding: 2 })
    ));
}

#[test]
fn bind_group_data_groups_keep_global_order() {
    let globals = vec![
        global(1, 3, "x", "test", "X"),
        global(0, 1, "a", "test", "A"),
        global(1, 0, "y", "test", "Y"),
        global(0, 0, "b", "test", "B"),
    ];
    let data = get_bind_group_data_for_entry(&globals, 1, "test").ok().unwrap();
    let names = |g: usize| -> Vec<String> {
        data.bind_group_data[g].bindings.iter().map(|b| b.name.clone().unwrap()).collect()
    };
    assert_eq!(names(0), vec!["a", "b"]);
    assert_eq!(names(1), vec!["x", "y"]);
    assert_eq!(data.shader_stages, 1);
}

#[test]
fn no_bound_globals_give_no_groups() {
    let data = get_bind_group_data_for_entry(&vec![], 0, "test").ok().unwrap();
    assert!(data.bind_group_data.is_empty());
}

#[test]
fn reusable_bind_groups_share_a_common_module() {
    // Both entry points take group 0 from `globals`, and group 1 is their own.
    let a = get_bind_group_data_for_entry(
        &vec![global(0, 0, "frame", "globals", "Frame"), global(1, 0, "local", "a", "LocalA")],
        1,
        "a",
    )
    .ok()
    .unwrap();
    let b = get_bind_group_data_for_entry(
        &vec![
            global(0, 1, "lights", "globals", "Lights"),
            global(0, 0, "frame", "globals", "Frame"),
            global(1, 0, "local", "b", "LocalB"),
        ],
        2,
        "b",
    )
    .ok()
    .unwrap();
    let mut raw = RawShadersBindGroups::new();
    raw.add(a);
    raw.add(b);
    let reusable = raw.create_reusable_shader_bind_groups();

    assert_eq!(reusable.common_bind_groups.len(), 1);
    let common = &reusable.common_bind_groups[0];
    assert_eq!(common.containing_module, "globals");
    assert_eq!(common.group_no, 0);
    let indices: Vec<u32> =
        common.bind_group_data.bindings.iter().map(|b| b.binding_index).collect();
    assert_eq!(indices, vec![0, 1]);

    assert_eq!(reusable.entrypoint_bindgroups.len(), 2);
    for entry in &reusable.entrypoint_bindgroups {
        assert_eq!(entry.bind_group_ref.len(), 2);
        assert_eq!(entry.bind_group_ref[0].kind, ShaderBindGroupRefKind::Common);
        assert_eq!(entry.bind_group_ref[1].kind, ShaderBindGroupRefKind::Entrypoint);
    }

    let items = reusable.generated_bind_groups();
    let listed: Vec<(String, usize)> =
        items.iter().map(|i| (i.containing_module.clone(), i.group_no)).collect();
    assert_eq!(
        listed,
        vec![("globals".to_string(), 0), ("a".to_string(), 1), ("b".to_string(), 1)]
    );
}

#[test]
fn groups_of_the_entry_module_stay_its_own() {
    let a = get_bind_group_data_for_entry(&vec![global(0, 0, "u", "a", "U")], 1, "a").ok().unwrap();
    let mut raw = RawShadersBindGroups::new();
    raw.add(a);
    let reusable = raw.create_reusable_shader_bind_groups();
    assert!(reusable.common_bind_groups.is_empty());
    assert_eq!(
        reusable.entrypoint_bindgroups[0].bind_group_ref[0].kind,
        ShaderBindGroupRefKind::Entrypoint
    );
}

#[test]
fn adding_an_entry_point_again_replaces_it() {
    let first = get_bind_group_data_for_entry(&vec![global(0, 0, "u", "a", "U")], 1, "a").ok().unwrap();
    let second = get_bind_group_data_for_entry(&vec![], 4, "a").ok().unwrap();
    let mut raw = RawShadersBindGroups::new();
    raw.add(first);
    raw.add(second);
    let reusable = raw.create_reusable_shader_bind_groups();
    assert_eq!(reusable.entrypoint_bindgroups.len(), 1);
    assert_eq!(reusable.entrypoint_bindgroups[0].shader_stages, 4);
    assert!(reusable.entrypoint_bindgroups[0].bind_group_ref.is_empty());
}

#[test]
fn module_extras_follow_the_stages() {
    let compute = get_bind_group_data_for_entry(&vec![global(0, 0, "u", "c", "U")], 4, "c").ok().unwrap();
    let render = get_bind_group_data_for_entry(&vec![global(0, 0, "u", "r", "U")], 3, "r").ok().unwrap();
    let empty = get_bind_group_data_for_entry(&vec![], 3, "e").ok().unwrap();
    let mut raw = RawShadersBindGroups::new();
    raw.add(compute);
    raw.add(render);
    raw.add(empty);
    let reusable = raw.create_reusable_shader_bind_groups();

    let kinds = |i: usize| -> Vec<&'static str> {
        reusable.entrypoint_bindgroups[i]
            .module_extras()
            .iter()
            .map(|item| match item {
                BindGroupsExtraItem::SetBindGroupTrait => "trait",
                BindGroupsExtraItem::WgpuBindGroups { .. } => "struct",
                BindGroupsExtraItem::ComputePassImpl => "compute",
                BindGroupsExtraItem::RenderPassImpl => "render",
                BindGroupsExtraItem::RenderBundleEncoderImpl => "bundle",
            })
            .collect()
    };
    assert_eq!(kinds(0), vec!["trait", "struct", "compute"]);
    assert_eq!(kinds(1), vec!["trait", "struct", "render", "bundle"]);
    assert!(kinds(2).is_empty());
}
