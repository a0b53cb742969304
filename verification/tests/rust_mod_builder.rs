use wgsl_bindgen::rust_mod_builder::{RustModBuilder, RustModBuilderError, RustModItem};

#[test]
fn rust_mod_builder_test_module_generation_works() {
    let mut mod_builder = RustModBuilder::new(false);
    mod_builder.add("a::b::c::d", "struct A;".to_string());
    mod_builder.add("a::b::c", "struct B;".to_string());
    mod_builder.add("a::b::c", "struct C;".to_string());

    let actual = mod_builder.generate();

    assert_eq!(
        actual,
        "pub mod a {\npub mod b {\npub mod c {\nstruct B;\nstruct C;\npub mod d {\nstruct A;\n}\n}\n}\n}\n"
    );
}

#[test]
fn rust_mod_builder_test_relative_root_feature() {
    let mut mod_builder = RustModBuilder::new(true);
    mod_builder.add("a::b", "struct A;".to_string());
    mod_builder.add("a", "struct B { a: a::b::A }".to_string());

    let actual = mod_builder.generate();

    assert_eq!(
        actual,
        [
            "#[allow(unused)]\nmod _root {\npub use super::*;\n}\n",
            "pub mod a {\n#[allow(unused_imports)]\nuse super::{_root, _root::*};\n",
            "struct B { a: a::b::A }\n",
            "pub mod b {\n#[allow(unused_imports)]\nuse super::{_root, _root::*};\nstruct A;\n}\n",
            "}\n",
        ]
        .concat()
    );
}

#[test]
fn rust_mod_builder_test_module_add_duplicates() -> Result<(), RustModBuilderError> {
    let mut mod_builder = RustModBuilder::new(false);
    mod_builder.add_unique("a::b", "A", "struct A;".to_string())?;
    mod_builder.add_unique("a", "A", "struct B;".to_string())?;
    mod_builder.add_unique("a::b", "A", "struct A;".to_string())?;

    let tokens = mod_builder.generate();

    assert_eq!(tokens, "pub mod a {\nstruct B;\npub mod b {\nstruct A;\n}\n}\n");
    Ok(())
}

#[test]
fn rust_mod_builder_test_module_add_duplicates_different_contents() {
    let mut mod_builder = RustModBuilder::new(false);
    mod_builder.add_unique("a::b", "A", "struct A;".to_string()).unwrap();

    let error = mod_builder.add_unique("a::b", "A", "struct B;".to_string());

    assert_eq!(error.is_err(), true);
    assert_eq!(
        error,
        Err(RustModBuilderError::DuplicateContentError {
            id: "A".to_string(),
            existing: "struct A;".to_string(),
            received: "struct B;".to_string(),
        })
    );
}

#[test]
fn add_items_uses_the_default_module_and_stops_at_a_conflict() {
    let mut mod_builder = RustModBuilder::new(false);
    let items = vec![
        RustModItem { mod_path: None, name: "X".to_string(), item: "struct X;".to_string() },
        RustModItem {
            mod_path: Some("other".to_string()),
            name: "Y".to_string(),
            item: "struct Y;".to_string(),
        },
        RustModItem { mod_path: None, name: "X".to_string(), item: "struct Z;".to_string() },
        RustModItem { mod_path: None, name: "W".to_string(), item: "struct W;".to_string() },
    ];
    let result = mod_builder.add_items("main", items);
    assert!(matches!(
        result,
        Err(RustModBuilderError::DuplicateContentError { ref id, .. }) if id == "X"
    ));
    assert_eq!(
        mod_builder.generate(),
        "pub mod main {\nstruct X;\n}\npub mod other {\nstruct Y;\n}\n"
    );
}

#[test]
fn empty_builder_generates_nothing() {
    assert_eq!(RustModBuilder::new(false).generate(), "");
}
