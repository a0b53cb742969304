use wgsl_bindgen::overrides::{
    checked_field_type_override, checked_is_custom_padding_field, field_type_override, get_rust_type,
    is_custom_padding_field, OverrideStructFieldType,
};

fn over(s: &str, f: &str, t: &str) -> OverrideStructFieldType {
    OverrideStructFieldType { struct_regex: s.to_string(), field_regex: f.to_string(), override_type: t.to_string() }
}

#[test]
fn the_first_matching_override_gives_the_type() {
    let overrides = vec![
        over("Uniforms$", "^time$", "f64"),
        over("^types::", "^(time|scale)$", "crate::Scalar"),
    ];
    assert_eq!(field_type_override(&overrides, "types::Uniforms", "time"), Some("f64".to_string()));
    assert_eq!(field_type_override(&overrides, "types::Params", "scale"), Some("crate::Scalar".to_string()));
    assert_eq!(field_type_override(&overrides, "types::Params", "offset"), None);
    assert_eq!(field_type_override(&overrides, "other::Uniforms", "scale"), None);
    assert_eq!(get_rust_type(&overrides, "types::Uniforms", "f32", "time"), ("f64".to_string(), true));
    assert_eq!(get_rust_type(&overrides, "types::Uniforms", "f32", "other"), ("f32".to_string(), false));
}

#[test]
fn an_invalid_pattern_is_reported() {
    let overrides = vec![over("(", "x", "f64")];
    assert_eq!(checked_field_type_override(&overrides, "A", "x"), None);
    let good = vec![over("A", "x", "f64")];
    assert_eq!(checked_field_type_override(&good, "A", "x"), Some(Some("f64".to_string())));
}

#[test]
fn custom_padding_fields_match_a_pattern() {
    let patterns = vec!["^_pad".to_string(), "padding$".to_string()];
    assert!(is_custom_padding_field(&patterns, "_pad0"));
    assert!(is_custom_padding_field(&patterns, "tail_padding"));
    assert!(!is_custom_padding_field(&patterns, "position"));
    assert_eq!(checked_is_custom_padding_field(&vec!["[".to_string()], "x"), None);
    assert_eq!(checked_is_custom_padding_field(&patterns, "_pad1"), Some(true));
}
