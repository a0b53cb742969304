use indexmap::IndexSet;
use wgsl_bindgen::parse_imports::{
    build_newline_offsets, get_import_statements, get_line_and_column, parse_wesl_import_path,
    ImportStatement,
};
use wgsl_bindgen::types::ImportPathPart;

fn parts(items: &[&str]) -> IndexSet<ImportPathPart> {
    items.iter().map(|s| ImportPathPart::new(s)).collect()
}

#[test]
fn test_wesl_parse_simple_item_import() {
    let source = "import package::shared::apply_scale;\n";
    let actual: Vec<ImportStatement> = get_import_statements(source);
    assert_eq!(actual.len(), 1);
    assert_eq!(actual[0].get_import_path_parts(), parts(&["shared::apply_scale"]));
}

#[test]
fn test_wesl_parse_module_import() {
    let source = "import package::utils;\n";
    let actual: Vec<ImportStatement> = get_import_statements(source);
    assert_eq!(actual.len(), 1);
    assert_eq!(actual[0].get_import_path_parts(), parts(&["utils"]));
}

#[test]
fn test_wesl_parse_collection_import() {
    let source = "import package::utils::{func_a, func_b};\n";
    let actual: Vec<ImportStatement> = get_import_statements(source);
    assert_eq!(actual.len(), 1);
    assert_eq!(actual[0].get_import_path_parts(), parts(&["utils"]));
}

#[test]
fn test_wesl_parse_multiple_imports() {
    let source = "\
import package::shared::apply_scale;
import package::math::{dot, cross};
import package::common;
";
    let paths: Vec<ImportPathPart> = get_import_statements(source)
        .iter()
        .flat_map(|s| s.get_import_path_parts())
        .collect();
    assert_eq!(
        paths,
        vec![
            ImportPathPart::new("shared::apply_scale"),
            ImportPathPart::new("math"),
            ImportPathPart::new("common"),
        ]
    );
}

#[test]
fn test_get_import_statements_wesl_only() {
    let source = "import package::wesl_module::func;\n";
    let all: Vec<ImportStatement> = get_import_statements(source);
    assert_eq!(all.len(), 1);
}

#[test]
fn import_statement_location_and_range() {
    let source = "// header\n  import package::a::b;\nfn main() {}\n";
    let all = get_import_statements(source);
    assert_eq!(all.len(), 1);
    let loc = &all[0].source_location;
    assert_eq!(loc.offset, 12);
    assert_eq!(loc.length, 21);
    assert_eq!(loc.line_number, 2);
    assert_eq!(loc.line_position, 3);
    assert_eq!(all[0].range(), 12..33);
    assert_eq!(&source[all[0].range()], "import package::a::b;");
}

#[test]
fn import_statement_offsets_count_bytes() {
    let source = "// é\nimport package::x;\n";
    let all = get_import_statements(source);
    assert_eq!(all.len(), 1);
    assert_eq!(all[0].source_location.offset, 6);
    assert_eq!(&source[all[0].range()], "import package::x;");
}

#[test]
fn legacy_imports_and_mid_line_imports_are_not_recognised() {
    let source = "#import foo::bar\nlet x = 1; import package::y;\nimport other::z;\n";
    let all = get_import_statements(source);
    assert!(all.is_empty());
}

#[test]
fn unterminated_import_ends_at_newline() {
    let source = "import package::m\nimport package::n;\n";
    let paths: Vec<ImportPathPart> = get_import_statements(source)
        .iter()
        .flat_map(|s| s.get_import_path_parts())
        .collect();
    assert_eq!(paths, vec![ImportPathPart::new("m"), ImportPathPart::new("n")]);
}

#[test]
fn parse_wesl_import_path_examples() {
    assert_eq!(
        parse_wesl_import_path("import package::shared::apply_scale;"),
        Some("shared::apply_scale".to_string())
    );
    assert_eq!(
        parse_wesl_import_path("import package::module::{item1, item2};"),
        Some("module".to_string())
    );
    assert_eq!(parse_wesl_import_path("  import package::utils;"), Some("utils".to_string()));
    assert_eq!(parse_wesl_import_path("import package::;"), None);
    assert_eq!(parse_wesl_import_path("import other::x;"), None);
    assert_eq!(parse_wesl_import_path("export package::x;"), None);
}

#[test]
fn line_and_column_from_newline_offsets() {
    let offsets = build_newline_offsets("ab\ncd\n\nef");
    assert_eq!(offsets, vec![3, 6, 7]);
    assert_eq!(get_line_and_column(0, &offsets), (0, 1));
    assert_eq!(get_line_and_column(2, &offsets), (0, 3));
    assert_eq!(get_line_and_column(3, &offsets), (1, 1));
    assert_eq!(get_line_and_column(7, &offsets), (3, 1));
    assert_eq!(get_line_and_column(8, &offsets), (3, 2));
}

#[test]
fn import_naming_no_path_is_passed_over() {
    let source = "import package::;\nimport package::utils;\n";
    let actual: Vec<ImportStatement> = get_import_statements(source);
    assert_eq!(actual.len(), 1);
    assert_eq!(actual[0].get_import_path_parts(), parts(&["utils"]));
    assert_eq!(actual[0].source_location.line_number, 2);
}
