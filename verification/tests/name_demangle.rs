use wgsl_bindgen::name_demangle::{
    demangle_and_fully_qualify, demangle_str, escape_os_path, make_valid_rust_import, RustSourceItemPath, Unmangled,
    WeslPathOrigin,
};

fn absolute(components: &[&str], item: &str) -> Option<Unmangled> {
    Some(Unmangled {
        origin: WeslPathOrigin::Absolute,
        components: components.iter().map(|s| s.to_string()).collect(),
        item: item.to_string(),
    })
}

#[test]
fn test_make_valid_rust_import() {
    assert_eq!(make_valid_rust_import("\"../types\"::RtsStruct"), "types::RtsStruct");
    assert_eq!(make_valid_rust_import("../more-shader-files/reachme"), "reachme");
}

#[test]
fn test_wesl_demangle_with_module() {
    // `package__1global_bindings_GlobalUniforms` unmangles to
    // `package::global_bindings` and the item `GlobalUniforms`.
    assert_eq!(
        RustSourceItemPath::from_mangled(
            "package__1global_bindings_GlobalUniforms",
            absolute(&["global_bindings"], "GlobalUniforms"),
            "entry"
        ),
        RustSourceItemPath {
            module: "global_bindings".into(),
            name: "GlobalUniforms".into(),
        }
    );
}

#[test]
fn test_wesl_demangle_nested_module() {
    let mangled = "package__1compute_demo__1particle_physics_Particle";
    let result = RustSourceItemPath::from_mangled(
        mangled,
        absolute(&["compute_demo", "particle_physics"], "Particle"),
        "entry",
    );
    assert_eq!(result.module.as_str(), "compute_demo::particle_physics");
    assert_eq!(result.name.as_str(), "Particle");
}

#[test]
fn test_plain_name_uses_default_module() {
    assert_eq!(
        RustSourceItemPath::from_mangled("Uniforms", None, "my_shader"),
        RustSourceItemPath {
            module: "my_shader".into(),
            name: "Uniforms".into(),
        }
    );
}

#[test]
fn test_demangle_str_wesl() {
    assert_eq!(
        demangle_str(
            "package__1global_bindings_GlobalUniforms",
            absolute(&["global_bindings"], "GlobalUniforms")
        ),
        "global_bindings::GlobalUniforms"
    );
    assert_eq!(demangle_str("Uniforms", None), "Uniforms");
}

#[test]
fn demangle_keeps_names_outside_a_sub_module() {
    assert_eq!(demangle_str("package_Top", absolute(&[], "Top")), "package_Top");
    let relative = Some(Unmangled {
        origin: WeslPathOrigin::Relative(1),
        components: vec!["m".to_string()],
        item: "X".to_string(),
    });
    assert_eq!(demangle_str("super_m_X", relative), "super_m_X");
}

#[test]
fn escape_os_path_removes_quotes() {
    assert_eq!(escape_os_path("\"../types\""), "../types");
    assert_eq!(escape_os_path("plain"), "plain");
}

#[test]
fn fully_qualified_paths_start_at_the_reference_root() {
    assert_eq!(
        demangle_and_fully_qualify(
            "package__1types_Uniforms",
            absolute(&["types"], "Uniforms"),
            None
        ),
        "_root::types::Uniforms"
    );
    assert_eq!(demangle_and_fully_qualify("MatricesF64", None, None), "MatricesF64");
    assert_eq!(
        demangle_and_fully_qualify("Uniforms", None, Some("My_Shader")),
        "_root::my_shader::Uniforms"
    );
}

#[test]
fn fully_qualified_names_of_item_paths() {
    let at_root = RustSourceItemPath { module: String::new(), name: "Uniforms".to_string() };
    assert_eq!(at_root.get_fully_qualified_name(), "Uniforms");
    let nested = RustSourceItemPath { module: "bindings::common".to_string(), name: "Uniforms".to_string() };
    assert_eq!(nested.get_fully_qualified_name(), "bindings::common::Uniforms");
}

#[test]
fn unmangled_names_clone_whole() {
    let u = absolute(&["global_bindings"], "GlobalUniforms").unwrap();
    let copy = u.clone();
    assert_eq!(
        demangle_str("package__1global_bindings_GlobalUniforms", Some(copy)),
        demangle_str("package__1global_bindings_GlobalUniforms", Some(u))
    );
}

#[test]
fn should_not_fully_qualify_non_mangled_string() {
    let string = "MatricesF64";
    let actual = demangle_and_fully_qualify(string, None, None);
    assert_eq!(actual, "MatricesF64");
}

#[test]
fn short_names_inside_their_own_module() {
    let path = RustSourceItemPath { module: "shapes".to_string(), name: "Circle".to_string() };
    assert_eq!(path.short_token_stream("shapes"), "Circle");
    assert_eq!(path.short_token_stream("main"), "shapes::Circle");
}

#[test]
fn item_paths_split_at_the_last_separator() {
    let nested = RustSourceItemPath::from_mangled("a::b::C", None, "m");
    assert_eq!((nested.module.as_str(), nested.name.as_str()), ("a::b", "C"));
    let plain = RustSourceItemPath::from_mangled("C", None, "m");
    assert_eq!((plain.module.as_str(), plain.name.as_str()), ("m", "C"));
}

#[test]
fn should_fully_qualify_mangled_string() {
    let string = "UniformsX_naga_oil_mod_XOR4XAZLTX";
    let actual = demangle_and_fully_qualify(string, None, None);
    assert_eq!(actual.replace("::", " :: "), "_root :: types :: Uniforms");
}

#[test]
fn naga_oil_names_decode_their_module() {
    assert_eq!(demangle_str("UniformsX_naga_oil_mod_XOR4XAZLTX", None), "types::Uniforms");
    assert_eq!(
        demangle_str("MeshX_naga_oil_mod_XMJSXM6K7OBRHEOR2NVSXG2AX", None),
        "bevy_pbr::mesh::Mesh"
    );
    for (enc, module) in [("ME", "a"), ("MFRA", "ab"), ("MFRGG", "abc"), ("MFRGGZA", "abcd")] {
        let name = format!("TX_naga_oil_mod_X{enc}X");
        assert_eq!(demangle_str(&name, None), format!("{module}::T"));
    }
    let path = RustSourceItemPath::from_mangled("UniformsX_naga_oil_mod_XOR4XAZLTX", None, "entry");
    assert_eq!(path, RustSourceItemPath { module: "types".to_string(), name: "Uniforms".to_string() });
}

#[test]
fn malformed_naga_oil_names_stay_as_they_are() {
    // Not base32 (`1` is no digit), a length no encoding has, no name, no final `X`.
    for name in [
        "UX_naga_oil_mod_XO1X",
        "UX_naga_oil_mod_XOR4X",
        "X_naga_oil_mod_XOR4XAZLTX",
        "UniformsX_naga_oil_mod_XOR4XAZLT",
    ] {
        assert_eq!(demangle_str(name, None), name);
    }
}
