//! The crate that a compilation test of generated code is built in: which
//! dependencies the code needs, and the manifest that names them.

use vstd::prelude::*;

use crate::text::{chars_eq, chars_of, find, find_from_exec, push_all, string_of};

verus! {

/// Whether `pattern` occurs in `content`.
pub open spec fn mentions(content: Seq<char>, pattern: Seq<char>) -> bool {
    find(content, pattern) is Some
}

/// The dependencies that generated code needs: `wgpu`, `glam`, `bytemuck`
/// and `encase` always; `naga_oil` when it names `naga_oil::`; and
/// `include_absolute_path` when it uses `include_absolute_path!`.
pub open spec fn required_dependencies(content: Seq<char>) -> Seq<Seq<char>> {
    let core = seq!["wgpu"@, "glam"@, "bytemuck"@, "encase"@];
    let with_oil = if mentions(content, "naga_oil::"@) {
        core.push("naga_oil"@)
    } else {
        core
    };
    if mentions(content, "include_absolute_path!"@) {
        with_oil.push("include_absolute_path"@)
    } else {
        with_oil
    }
}

/// Whether `pattern` occurs in `content`.
fn mentions_exec(content: &Vec<char>, pattern: &str) -> (r: bool)
    ensures
        r == mentions(content@, pattern@),
{
    find_from_exec(content, &chars_of(pattern), 0).is_some()
}

/// The dependencies that generated code needs, each once.
pub fn detect_required_dependencies_from_content(content: &str) -> (deps: Vec<String>)
    ensures
        Seq::new(deps@.len(), |i: int| deps@[i]@) == required_dependencies(content@),
{
    let cs = chars_of(content);
    let mut deps: Vec<String> = Vec::new();
    deps.push(string_of(&chars_of("wgpu")));
    deps.push(string_of(&chars_of("glam")));
    deps.push(string_of(&chars_of("bytemuck")));
    deps.push(string_of(&chars_of("encase")));
    if mentions_exec(&cs, "naga_oil::") {
        deps.push(string_of(&chars_of("naga_oil")));
    }
    if mentions_exec(&cs, "include_absolute_path!") {
        deps.push(string_of(&chars_of("include_absolute_path")));
    }
    assert(Seq::new(deps@.len(), |i: int| deps@[i]@) =~= required_dependencies(content@));
    deps
}

/// The manifest line of a dependency; none for an unknown one.
pub open spec fn dependency_line(dep: Seq<char>) -> Seq<char> {
    if dep == "wgpu"@ {
        "wgpu = { version = \"25.0\", features = [\"wgsl\"] }\nnaga = { version = \"25.0\", features = [\"wgsl-out\"] }\n"@
    } else if dep == "glam"@ {
        "glam = \"0.30\"\n"@
    } else if dep == "bytemuck"@ {
        "bytemuck = { version = \"1.16\", features = [\"derive\"] }\n"@
    } else if dep == "encase"@ {
        "encase = \"0.11\"\n"@
    } else if dep == "naga_oil"@ {
        "naga_oil = \"0.16\"\n"@
    } else if dep == "include_absolute_path"@ {
        "include_absolute_path = \"0.1\"\n"@
    } else {
        Seq::empty()
    }
}

/// The manifest lines of the first `n` dependencies, in order.
pub open spec fn dependency_lines(deps: Seq<Seq<char>>, n: int) -> Seq<char>
    decreases n,
{
    if n <= 0 {
        Seq::empty()
    } else {
        dependency_lines(deps, n - 1) + dependency_line(deps[n - 1])
    }
}

/// The manifest of a test crate: its package, an empty workspace of its
/// own, and a line for each dependency.
pub open spec fn single_file_cargo_toml(project_name: Seq<char>, deps: Seq<Seq<char>>) -> Seq<char> {
    "[package]\nname = \""@ + project_name
        + "\"\nversion = \"0.1.0\"\nedition = \"2021\"\n\n# Empty workspace to avoid conflicts with parent workspace\n[workspace]\n\n[dependencies]\n"@
        + dependency_lines(deps, deps.len() as int)
}

/// Whether a dependency has the given name.
fn is_named(dep: &str, name: &str) -> (r: bool)
    ensures
        r == (dep@ == name@),
{
    chars_eq(&chars_of(dep), &chars_of(name))
}

/// The manifest line of a dependency.
fn dependency_line_exec(dep: &str) -> (r: Vec<char>)
    ensures
        r@ == dependency_line(dep@),
{
    if is_named(dep, "wgpu") {
        chars_of("wgpu = { version = \"25.0\", features = [\"wgsl\"] }\nnaga = { version = \"25.0\", features = [\"wgsl-out\"] }\n")
    } else if is_named(dep, "glam") {
        chars_of("glam = \"0.30\"\n")
    } else if is_named(dep, "bytemuck") {
        chars_of("bytemuck = { version = \"1.16\", features = [\"derive\"] }\n")
    } else if is_named(dep, "encase") {
        chars_of("encase = \"0.11\"\n")
    } else if is_named(dep, "naga_oil") {
        chars_of("naga_oil = \"0.16\"\n")
    } else if is_named(dep, "include_absolute_path") {
        chars_of("include_absolute_path = \"0.1\"\n")
    } else {
        Vec::new()
    }
}

/// The manifest of a crate that compiles one generated file; the
/// dependencies form a set, each named once.
pub fn generate_single_file_cargo_toml(project_name: &str, dependencies: &Vec<String>) -> (r: String)
    requires
        Seq::new(dependencies@.len(), |i: int| dependencies@[i]@).no_duplicates(),
    ensures
        r@ == single_file_cargo_toml(
            project_name@,
            Seq::new(dependencies@.len(), |i: int| dependencies@[i]@),
        ),
{
    let ghost dv = Seq::new(dependencies@.len(), |i: int| dependencies@[i]@);
    let mut out = chars_of("[package]\nname = \"");
    push_all(&mut out, &chars_of(project_name));
    push_all(
        &mut out,
        &chars_of(
            "\"\nversion = \"0.1.0\"\nedition = \"2021\"\n\n# Empty workspace to avoid conflicts with parent workspace\n[workspace]\n\n[dependencies]\n",
        ),
    );
    let ghost head = out@;
    let mut i: usize = 0;
    while i < dependencies.len()
        invariant
            i <= dependencies@.len(),
            dv == Seq::new(dependencies@.len(), |k: int| dependencies@[k]@),
            out@ == head + dependency_lines(dv, i as int),
        decreases dependencies@.len() - i,
    {
        push_all(&mut out, &dependency_line_exec(dependencies[i].as_str()));
        assert(out@ =~= head + dependency_lines(dv, i + 1));
        i += 1;
    }
    string_of(&out)
}

} // verus!
