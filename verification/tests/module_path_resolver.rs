use indexmap::IndexSet;
use wgsl_bindgen::module_path_resolver::{ImportedPath, ModulePathResolver};
use wgsl_bindgen::options::AdditionalScanDirectory;
use wgsl_bindgen::types::{SourceFileDir, SourceFilePath, SourceModuleName};

fn expected(items: &[(&str, &str)]) -> IndexSet<(SourceModuleName, SourceFilePath)> {
    let mut set = IndexSet::new();
    for (m, p) in items {
        set.insert((SourceModuleName::new(m), SourceFilePath::new(p)));
    }
    set
}

#[test]
fn should_generate_single_import_path() {
    let module_prefix = None;
    let source_path = SourceFilePath::new("mydir/source.wgsl");
    let imported_path = ImportedPath::new("Fragment");

    let result = ModulePathResolver::new(module_prefix, vec![])
        .generate_best_possible_paths(&source_path.dir(), &imported_path, &source_path);

    assert_eq!(result, expected(&[("Fragment", "mydir/Fragment.wgsl")]));
}

#[test]
fn should_generate_single_import_path_when_module_prefix_match() {
    let module_prefix = Some("mymod".to_string());
    let source_path = SourceFilePath::new("mydir/source.wgsl");
    let imported_path = ImportedPath::new("mymod::Fragment");

    let result = ModulePathResolver::new(module_prefix, vec![])
        .generate_best_possible_paths(&source_path.dir(), &imported_path, &source_path);

    assert_eq!(result, expected(&[("mymod::Fragment", "mydir/Fragment.wgsl")]));
}

#[test]
fn should_generate_import_paths_with_correct_extensions() {
    let module_prefix = Some("prefix".to_string());
    let source_path = SourceFilePath::new("mydir/source");
    let imported_path = ImportedPath::new("Module::Submodule::Fragment");

    let actual = ModulePathResolver::new(module_prefix, vec![])
        .generate_best_possible_paths(&source_path.dir(), &imported_path, &source_path);

    assert_eq!(
        actual,
        expected(&[
            ("prefix::Module::Submodule::Fragment", "mydir/Module/Submodule/Fragment.wgsl"),
            ("prefix::Module::Submodule", "mydir/Module/Submodule.wgsl"),
            ("prefix::Module", "mydir/Module.wgsl"),
        ])
    );
}

#[test]
fn should_return_smallvec_when_import_module() {
    let module_prefix = Some("prefix".to_string());
    let source_path = SourceFilePath::new("mydir/source.wgsl");
    let imported_path = ImportedPath::new("Fragment");

    let result = ModulePathResolver::new(module_prefix, vec![])
        .generate_best_possible_paths(&source_path.dir(), &imported_path, &source_path);

    assert_eq!(result, expected(&[("prefix::Fragment", "mydir/Fragment.wgsl")]));
}

#[test]
fn should_return_valid_pbr_paths_from_repeated_part() {
    let module_prefix = Some("bevy_pbr".to_string());
    let source_path = SourceFilePath::new("tests/bevy_pbr_wgsl/pbr/functions.wgsl");
    let imported_path = ImportedPath::new("bevy_pbr::pbr::types");

    let result = ModulePathResolver::new(module_prefix, vec![])
        .generate_best_possible_paths(&source_path.dir(), &imported_path, &source_path);

    assert_eq!(result, expected(&[("bevy_pbr::types", "tests/bevy_pbr_wgsl/pbr/types.wgsl")]));
}

#[test]
fn should_return_valid_pbr_paths_back_to_current_dir() {
    let module_prefix = Some("bevy_pbr".to_string());
    let entry_dir = SourceFileDir::new("tests/bevy_pbr_wgsl");
    let source_path = SourceFilePath::new("tests/bevy_pbr_wgsl/pbr/functions.wgsl");
    let imported_path = ImportedPath::new("bevy_pbr::mesh_types");

    let result = ModulePathResolver::new(module_prefix, vec![])
        .generate_best_possible_paths(&entry_dir, &imported_path, &source_path);

    assert_eq!(
        result,
        expected(&[
            ("bevy_pbr::mesh_types", "tests/bevy_pbr_wgsl/mesh_types.wgsl"),
            ("bevy_pbr::mesh_types", "tests/bevy_pbr_wgsl/pbr/mesh_types.wgsl"),
        ])
    );
}

#[test]
fn resolved_paths_come_longest_prefix_first() {
    let source_path = SourceFilePath::new("mydir/source.wgsl");
    let imported_path = ImportedPath::new("a::b");
    let result = ModulePathResolver::new(None, vec![])
        .generate_best_possible_paths(&source_path.dir(), &imported_path, &source_path);
    let order: Vec<(String, String)> = result
        .iter()
        .map(|(m, p)| (m.as_str().to_string(), p.as_str().to_string()))
        .collect();
    assert_eq!(
        order,
        vec![
            ("a::b".to_string(), "mydir/a/b.wgsl".to_string()),
            ("a".to_string(), "mydir/a.wgsl".to_string()),
        ]
    );
}

#[test]
fn resolved_paths_skip_the_importing_file_itself() {
    let source_path = SourceFilePath::new("mydir/a.wgsl");
    let imported_path = ImportedPath::new("a::b");
    let result = ModulePathResolver::new(None, vec![])
        .generate_best_possible_paths(&source_path.dir(), &imported_path, &source_path);
    assert_eq!(result, expected(&[("a::b", "mydir/a/b.wgsl")]));
}

#[test]
fn resolved_paths_include_additional_scan_directories() {
    let source_path = SourceFilePath::new("mydir/source.wgsl");
    let imported_path = ImportedPath::new("lib::shapes");
    let scan = AdditionalScanDirectory::new(Some("lib"), "vendor/lib");
    let result = ModulePathResolver::new(None, vec![scan])
        .generate_best_possible_paths(&source_path.dir(), &imported_path, &source_path);
    assert_eq!(
        result,
        expected(&[
            ("lib::shapes", "mydir/lib/shapes.wgsl"),
            ("lib", "mydir/lib.wgsl"),
            ("lib::shapes", "vendor/lib/shapes.wgsl"),
        ])
    );
}

// The imports for which resolving panics: an empty import, and one that names
// only the module prefix. Callers test them first.
#[test]
fn empty_import_modules_name_no_module() {
    let empty = ModulePathResolver::new(None, vec![]);
    assert!(!empty.names_import_module(&ImportedPath::new("")));
    let prefixed = ModulePathResolver::new(Some("prefix".to_string()), vec![]);
    assert!(!prefixed.names_import_module(&ImportedPath::new("prefix")));
    assert!(prefixed.names_import_module(&ImportedPath::new("prefix::shapes")));
    assert!(empty.names_import_module(&ImportedPath::new("Fragment")));
}

#[test]
fn default_resolver_is_the_plain_one() {
    let source_path = SourceFilePath::new("mydir/source.wgsl");
    let imported_path = ImportedPath::new("utils::math");
    let a = ModulePathResolver::default().generate_best_possible_paths(&source_path.dir(), &imported_path, &source_path);
    let b = ModulePathResolver::new(None, vec![]).generate_best_possible_paths(&source_path.dir(), &imported_path, &source_path);
    assert_eq!(a, b);
}
