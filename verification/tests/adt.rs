use wgsl_bindgen::adt::{parse_fwgsl_adt_annotations, select_unseen_adts, FwgslAdtVariant};
use wgsl_bindgen::options::WgslTypeSerializeStrategy;

#[test]
fn parse_simple_enum() {
    let wgsl = "// @fwgsl-adt: Color Red:0 Green:1 Blue:2\nalias Color = u32;\n";
    let adts = parse_fwgsl_adt_annotations(wgsl);
    assert_eq!(adts.len(), 1);
    let adt = &adts[0];
    assert_eq!(adt.name, "Color");
    assert_eq!(adt.variants.len(), 3);
    assert_eq!(adt.variants[0], FwgslAdtVariant { name: "Red".into(), tag: 0, struct_name: None });
    assert_eq!(adt.variants[1], FwgslAdtVariant { name: "Green".into(), tag: 1, struct_name: None });
    assert_eq!(adt.variants[2], FwgslAdtVariant { name: "Blue".into(), tag: 2, struct_name: None });
    assert!(adt.is_simple_enum());
}

#[test]
fn parse_data_carrying_enum() {
    let wgsl = "// @fwgsl-adt: Shape Circle:0:Circle Rect:1:Rect\n";
    let adts = parse_fwgsl_adt_annotations(wgsl);
    assert_eq!(adts.len(), 1);
    let adt = &adts[0];
    assert_eq!(adt.name, "Shape");
    assert!(!adt.is_simple_enum());
    assert_eq!(adt.variants[0].struct_name, Some("Circle".into()));
    assert_eq!(adt.variants[1].struct_name, Some("Rect".into()));
}

#[test]
fn parse_mixed_enum() {
    let wgsl = "// @fwgsl-adt: Event Tick:0 Resize:1:ResizeData Done:2\n";
    let adts = parse_fwgsl_adt_annotations(wgsl);
    assert_eq!(adts.len(), 1);
    let adt = &adts[0];
    assert!(!adt.is_simple_enum());
    assert_eq!(adt.variants[0].struct_name, None);
    assert_eq!(adt.variants[1].struct_name, Some("ResizeData".into()));
    assert_eq!(adt.variants[2].struct_name, None);
}

#[test]
fn parse_multiple_adts() {
    let wgsl = "// @fwgsl-adt: Color Red:0 Green:1\n// @fwgsl-adt: Shape Circle:0:Circle\n";
    let adts = parse_fwgsl_adt_annotations(wgsl);
    assert_eq!(adts.len(), 2);
    assert_eq!(adts[0].name, "Color");
    assert_eq!(adts[1].name, "Shape");
}

#[test]
fn parse_ignores_other_lines() {
    let wgsl = "struct Foo { x: f32 }\n// not an adt\n// @fwgsl-adt: Color Red:0\n";
    let adts = parse_fwgsl_adt_annotations(wgsl);
    assert_eq!(adts.len(), 1);
}

#[test]
fn parse_malformed_lines_skipped() {
    let wgsl = "// @fwgsl-adt: \n// @fwgsl-adt: OnlyName\n// @fwgsl-adt: Bad bad_variant_no_colon\n";
    let adts = parse_fwgsl_adt_annotations(wgsl);
    assert_eq!(adts.len(), 0);
}

#[test]
fn parse_skips_bad_tags_and_keeps_good_entries() {
    let wgsl = "  // @fwgsl-adt:   Mixed A:x B:4294967296 C:+7 D:-1 E:3: F:2:S:T\r\n";
    let adts = parse_fwgsl_adt_annotations(wgsl);
    assert_eq!(adts.len(), 1);
    let v = &adts[0].variants;
    assert_eq!(v.len(), 3);
    assert_eq!(v[0], FwgslAdtVariant { name: "C".into(), tag: 7, struct_name: None });
    assert_eq!(v[1], FwgslAdtVariant { name: "E".into(), tag: 3, struct_name: None });
    assert_eq!(v[2], FwgslAdtVariant { name: "F".into(), tag: 2, struct_name: Some("S:T".into()) });
}

#[test]
fn parse_max_tag_and_crlf_lines() {
    let wgsl = "// @fwgsl-adt: Big Top:4294967295\r\n// @fwgsl-adt: Small Zero:0\n";
    let adts = parse_fwgsl_adt_annotations(wgsl);
    assert_eq!(adts.len(), 2);
    assert_eq!(adts[0].variants[0].tag, u32::MAX);
    assert_eq!(adts[1].name, "Small");
}

#[test]
fn zeroable_needs_bytemuck_and_tag_zero() {
    let adts = parse_fwgsl_adt_annotations("// @fwgsl-adt: A X:0 Y:1\n// @fwgsl-adt: B X:1 Y:2\n");
    assert!(adts[0].allows_zeroable(WgslTypeSerializeStrategy::Bytemuck));
    assert!(!adts[0].allows_zeroable(WgslTypeSerializeStrategy::Encase));
    assert!(!adts[1].allows_zeroable(WgslTypeSerializeStrategy::Bytemuck));
}

#[test]
fn unseen_adts_are_kept_once() {
    let first = parse_fwgsl_adt_annotations("// @fwgsl-adt: Color Red:0\n// @fwgsl-adt: Shape C:0:C\n");
    let second = parse_fwgsl_adt_annotations("// @fwgsl-adt: Shape C:0:C\n// @fwgsl-adt: Mode On:1\n// @fwgsl-adt: Mode Off:0\n");
    let mut seen = vec!["Color".to_string()];
    let kept = select_unseen_adts(&first, &mut seen);
    assert_eq!(kept.len(), 1);
    assert_eq!(kept[0].name, "Shape");
    let kept = select_unseen_adts(&second, &mut seen);
    assert_eq!(kept.len(), 1);
    assert_eq!(kept[0].name, "Mode");
    assert_eq!(kept[0].variants[0].name, "On");
    assert_eq!(seen, vec!["Color".to_string(), "Shape".to_string(), "Mode".to_string()]);
}

#[test]
fn simple_adt_text_is_a_repr_u32_enum() {
    let adts = parse_fwgsl_adt_annotations("// @fwgsl-adt: Color Red:0 Green:1 Blue:2\n");
    let text = wgsl_bindgen::adt_text::generate_adt_text(&adts[0], "shader", WgslTypeSerializeStrategy::Bytemuck);
    assert!(text.contains("#[repr(u32)]\n#[derive(Debug, Clone, Copy, PartialEq, Eq, Hash)]\npub enum Color {\n    Red = 0,\n    Green = 1,\n    Blue = 2,\n}\n"));
    assert!(text.contains("impl ::core::convert::TryFrom<u32> for Color {\n"));
    assert!(text.contains("            0 => ::core::result::Result::Ok(Self::Red),\n            1 => ::core::result::Result::Ok(Self::Green),\n            2 => ::core::result::Result::Ok(Self::Blue),\n            other => ::core::result::Result::Err(other),\n"));
    assert!(text.contains("impl ::core::convert::From<Color> for u32 {\n"));
    assert!(text.ends_with("\nunsafe impl ::bytemuck::Zeroable for Color {}\n"));
    let encase = wgsl_bindgen::adt_text::generate_adt_text(&adts[0], "shader", WgslTypeSerializeStrategy::Encase);
    assert!(!encase.contains("Zeroable"));
}

#[test]
fn simple_adt_without_tag_zero_is_not_zeroable() {
    let adts = parse_fwgsl_adt_annotations("// @fwgsl-adt: Mode On:1 Off:2\n");
    let text = wgsl_bindgen::adt_text::generate_adt_text(&adts[0], "", WgslTypeSerializeStrategy::Bytemuck);
    assert!(!text.contains("Zeroable"));
    assert!(text.ends_with("        e as u32\n    }\n}\n"));
}

#[test]
fn data_adt_text_wraps_payload_structs() {
    let adts = parse_fwgsl_adt_annotations("// @fwgsl-adt: Event Tick:0 Resize:1:ResizeData Done:2\n");
    let text = wgsl_bindgen::adt_text::generate_adt_text(&adts[0], "shader::types", WgslTypeSerializeStrategy::Bytemuck);
    assert!(text.contains("#[derive(Debug, Clone, Copy)]\npub enum Event {\n    Tick,\n    Resize(shader::types::ResizeData),\n    Done,\n}\n"));
    assert!(text.contains("        match self {\n            Self::Tick => 0,\n            Self::Resize(_) => 1,\n            Self::Done => 2,\n        }\n"));
    assert!(!text.contains("repr(u32)"));
    let at_root = wgsl_bindgen::adt_text::generate_adt_text(&adts[0], "", WgslTypeSerializeStrategy::Bytemuck);
    assert!(at_root.contains("    Resize(ResizeData),\n"));
}

#[test]
fn adt_texts_are_emitted_once_per_name() {
    let adts = parse_fwgsl_adt_annotations("// @fwgsl-adt: Color Red:0\n// @fwgsl-adt: Shape Circle:0:Circle\n");
    let mut seen = vec!["Shape".to_string()];
    let text = wgsl_bindgen::adt_text::adt_enum_text_dedup(&adts, "m", &mut seen, WgslTypeSerializeStrategy::Bytemuck);
    assert!(text.contains("pub enum Color"));
    assert!(!text.contains("pub enum Shape"));
    assert_eq!(seen, vec!["Shape".to_string(), "Color".to_string()]);
    let again = wgsl_bindgen::adt_text::adt_enum_text_dedup(&adts, "m", &mut seen, WgslTypeSerializeStrategy::Bytemuck);
    assert_eq!(again, "");
}
