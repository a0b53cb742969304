use wgsl_bindgen::token_utils::{
    generate_constructor_function, generate_doc_comment, generate_impl_block, generate_public_const,
    generate_struct_definition, generate_struct_field,
};

fn strings(v: &[&str]) -> Vec<String> {
    v.iter().map(|s| s.to_string()).collect()
}

#[test]
fn test_generate_struct_definition() {
    let field = "pub field: u32".to_string();
    let result = generate_struct_definition(
        "pub",
        "TestStruct",
        &strings(&["Debug"]),
        Some("#[repr(C)]"),
        &vec![field],
    );
    let expected = "#[derive(Debug)]\n#[repr(C)]\npub struct TestStruct {\n    pub field: u32\n}";
    assert_eq!(result, expected);
}

#[test]
fn struct_definition_without_attributes_or_fields() {
    assert_eq!(generate_struct_definition("pub(crate)", "Empty", &vec![], None, &vec![]), "pub(crate) struct Empty {}");
    assert_eq!(
        generate_struct_definition("pub", "Pair", &vec![], None, &strings(&["pub a: u32", "pub b: f32"])),
        "pub struct Pair {\n    pub a: u32,\n    pub b: f32\n}"
    );
}

#[test]
fn constructor_builds_the_struct() {
    let result = generate_constructor_function(
        "pub",
        "new",
        "Pair",
        &strings(&["a: u32", "b: f32"]),
        &strings(&["a", "b"]),
    );
    assert_eq!(result, "pub const fn new(a: u32, b: f32) -> Pair {\n    Pair {\n        a,\n        b\n    }\n}");
}

#[test]
fn impl_blocks_with_and_without_generics() {
    assert_eq!(
        generate_impl_block("Pair", None, &strings(&["fn a() {}", "fn b() {}"])),
        "impl Pair {\n    fn a() {}\n    fn b() {}\n}"
    );
    assert_eq!(generate_impl_block("Tail", Some("<N>"), &vec![]), "impl<N> Tail<N> {}");
}

#[test]
fn public_consts_and_docs() {
    assert_eq!(generate_public_const("LIMIT", "u32", "16u32"), "pub const LIMIT: u32 = 16u32;");
    assert_eq!(generate_doc_comment(" plain"), "#[doc = \" plain\"]");
    assert_eq!(generate_doc_comment("say \"hi\"\n"), "#[doc = \"say \\\"hi\\\"\\n\"]");
}

#[test]
fn struct_fields_default_to_public() {
    assert_eq!(generate_struct_field("x", "f32", None, None), "pub x: f32");
    assert_eq!(generate_struct_field("y", "u32", Some(" the y"), Some("pub(crate)")), "#[doc = \" the y\"]\npub(crate) y: u32");
}
