use wgsl_bindgen::fwgsl_loader::{inject_adt_annotations, split_fwgsl_source, AdtConstructor, AdtDataType};

#[test]
fn split_no_marker_returns_whole_source_as_fwgsl() {
    let src = "scale_val : F32 -> F32 -> F32\nscale_val s x = x * s\n";
    let (fwgsl, wgsl) = split_fwgsl_source(src);
    assert_eq!(fwgsl, src);
    assert!(wgsl.is_empty());
}

#[test]
fn split_with_marker_separates_sections() {
    let src = "scale_val : F32 -> F32 -> F32\nscale_val s x = x * s\n-- @wgsl\nalias Foo = u32;\n";
    let (fwgsl, wgsl) = split_fwgsl_source(src);
    assert!(fwgsl.contains("scale_val"));
    assert!(!fwgsl.contains("@wgsl"));
    assert!(wgsl.contains("alias Foo"));
    assert!(!wgsl.contains("scale_val"));
}

#[test]
fn split_uses_first_marker_and_tolerates_spaces_and_crlf() {
    let src = "a\r\n   -- @wgsl  \r\nb\n-- @wgsl\nc";
    let (fwgsl, wgsl) = split_fwgsl_source(src);
    assert_eq!(fwgsl, "a\r\n");
    assert_eq!(wgsl, "b\n-- @wgsl\nc");
}

#[test]
fn split_marker_on_last_line_without_newline() {
    let (fwgsl, wgsl) = split_fwgsl_source("x\n-- @wgsl");
    assert_eq!(fwgsl, "x\n");
    assert_eq!(wgsl, "");
}

fn ctor(name: &str, tag: u32, has_fields: bool) -> AdtConstructor {
    AdtConstructor { name: name.to_string(), tag, has_fields }
}

#[test]
fn annotations_sorted_by_name_and_tag_skip_builtins() {
    let types = vec![
        AdtDataType { name: "Shape".into(), constructors: vec![ctor("Rect", 1, true), ctor("Circle", 0, true)] },
        AdtDataType { name: "Option".into(), constructors: vec![ctor("None", 0, false)] },
        AdtDataType { name: "Color".into(), constructors: vec![ctor("Blue", 12, false), ctor("Red", 0, false), ctor("Green", 1, false)] },
    ];
    let out = inject_adt_annotations("fn main() {}\n", &types);
    assert_eq!(
        out,
        "// @fwgsl-adt: Color Red:0 Green:1 Blue:12\n// @fwgsl-adt: Shape Circle:0:Circle Rect:1:Rect\nfn main() {}\n"
    );
}

#[test]
fn annotations_keep_order_of_equal_tags_and_empty_types() {
    let types = vec![
        AdtDataType { name: "T".into(), constructors: vec![ctor("B", 3, false), ctor("A", 3, false)] },
        AdtDataType { name: "E".into(), constructors: vec![] },
    ];
    let out = inject_adt_annotations("", &types);
    assert_eq!(out, "// @fwgsl-adt: E \n// @fwgsl-adt: T B:3 A:3\n");
}
