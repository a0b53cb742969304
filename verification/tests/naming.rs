use wgsl_bindgen::naming::{
    create_canonical_variable_name, create_enum_variant_name, sanitize_and_pascal_case,
    sanitized_upper_snake_case,
};

#[test]
fn test_create_canonical_variable_name() {
    assert_eq!("foo", create_canonical_variable_name("Foo", false));
    assert_eq!("FOO", create_canonical_variable_name("Foo", true));
    assert_eq!("foo_bar", create_canonical_variable_name("Foo::Bar", false));
    assert_eq!("FOO_BAR", create_canonical_variable_name("Foo::Bar", true));
    assert_eq!("foo_bar", create_canonical_variable_name("Foo Bar", false));
    assert_eq!("FOO_BAR", create_canonical_variable_name("Foo Bar", true));
}

#[test]
fn canonical_variable_name_drops_other_characters() {
    assert_eq!("lightdir", create_canonical_variable_name("light-dir!", false));
    assert_eq!("A_B_C", create_canonical_variable_name("a::b c", true));
}

#[test]
fn sanitize_and_pascal_case_examples() {
    assert_eq!(sanitize_and_pascal_case("my-shader.wgsl"), "Myshaderwgsl");
    assert_eq!(sanitize_and_pascal_case("triangle_shader"), "TriangleShader");
    assert_eq!(create_enum_variant_name("compute_demo"), "ComputeDemo");
}

#[test]
fn sanitized_upper_snake_case_examples() {
    assert_eq!(sanitized_upper_snake_case("lightColor"), "LIGHT_COLOR");
    assert_eq!(sanitized_upper_snake_case("my-const.x"), "MYCONSTX");
}

#[test]
fn upper_snake_case_splits_before_every_capital() {
    assert_eq!(sanitized_upper_snake_case("shader::Uniforms"), "SHADER_UNIFORMS");
    assert_eq!(sanitized_upper_snake_case("MyABCType"), "MY_A_B_C_TYPE");
    assert_eq!(sanitized_upper_snake_case("vec3Data"), "VEC3_DATA");
}
