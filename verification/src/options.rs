//! Configuration types of the bindings generator, and the error types of
//! module generation.

use vstd::prelude::*;

use crate::text::{
    chars_eq, chars_of, has_prefix, lemma_lines_cons, lemma_no_newline_concat, lines, lines_exec,
    matches_at_exec, push_all, slice_to_vec, strip_cr, string_of,
};

verus! {

/// How WGSL types are serialized when mirrored as Rust types.
#[derive(Debug, Copy, Clone, PartialEq, Eq, Structural)]
pub enum WgslTypeSerializeStrategy {
    Encase,
    Bytemuck,
}

impl Default for WgslTypeSerializeStrategy {
    fn default() -> (r: Self)
        ensures
            r == WgslTypeSerializeStrategy::Encase,
    {
        WgslTypeSerializeStrategy::Encase
    }
}

/// The source form that the generated shader modules load.
#[derive(Copy, Clone, Debug, PartialEq, Eq, Structural)]
pub enum WgslShaderSourceType {
    /// The final shader string is embedded in the output.
    EmbedSource,
    /// The shader is compiled by WESL at runtime from files under a base path.
    WeslWithRelativePath,
}

impl WgslShaderSourceType {
    /// The name of the generated function that creates the shader module.
    pub fn create_shader_module_fn_name(&self) -> (r: &'static str)
        ensures
            *self == WgslShaderSourceType::EmbedSource ==> r@ == "create_shader_module_embed_source"@,
            *self == WgslShaderSourceType::WeslWithRelativePath ==> r@
                == "create_shader_module_from_path"@,
    {
        match self {
            WgslShaderSourceType::EmbedSource => "create_shader_module_embed_source",
            WgslShaderSourceType::WeslWithRelativePath => "create_shader_module_from_path",
        }
    }

    /// The name of the generated function that loads the shader module.
    pub fn load_shader_module_fn_name(&self) -> (r: String)
        ensures
            r@ == match *self {
                WgslShaderSourceType::EmbedSource => "load_shader_module_embedded"@,
                WgslShaderSourceType::WeslWithRelativePath => "load_shader_module_from_path"@,
            },
    {
        match self {
            WgslShaderSourceType::EmbedSource => string_of(&chars_of("load_shader_module_embedded")),
            WgslShaderSourceType::WeslWithRelativePath => string_of(&chars_of("load_shader_module_from_path")),
        }
    }

    /// The name of the generated function that creates the compute pipeline
    /// of entry point `name`.
    pub fn create_compute_pipeline_fn_name(&self, name: &str) -> (r: String)
        ensures
            r@ == "create_"@ + name@ + match *self {
                WgslShaderSourceType::EmbedSource => "_pipeline_embed_source"@,
                WgslShaderSourceType::WeslWithRelativePath => "_pipeline_from_path"@,
            },
    {
        let mut out = chars_of("create_");
        push_all(&mut out, &chars_of(name));
        match self {
            WgslShaderSourceType::EmbedSource => push_all(&mut out, &chars_of("_pipeline_embed_source")),
            WgslShaderSourceType::WeslWithRelativePath => push_all(&mut out, &chars_of("_pipeline_from_path")),
        }
        string_of(&out)
    }

    /// The return type of a generated function that returns `type_to_return`:
    /// itself for embedded sources, a `Result` with a `String` error when the
    /// shader is loaded from files.
    pub fn get_return_type(&self, type_to_return: &str) -> (r: String)
        ensures
            r@ == match *self {
                WgslShaderSourceType::EmbedSource => type_to_return@,
                WgslShaderSourceType::WeslWithRelativePath => "::std::result::Result<"@ + type_to_return@
                    + ", ::std::string::String>"@,
            },
    {
        match self {
            WgslShaderSourceType::EmbedSource => string_of(&chars_of(type_to_return)),
            WgslShaderSourceType::WeslWithRelativePath => {
                let mut out = chars_of("::std::result::Result<");
                push_all(&mut out, &chars_of(type_to_return));
                push_all(&mut out, &chars_of(", ::std::string::String>"));
                string_of(&out)
            },
        }
    }

    /// The return statement of a generated function: the value itself for
    /// embedded sources, wrapped in `Ok` when the shader is loaded from
    /// files.
    pub fn wrap_return_stmt(&self, stm: &str) -> (r: String)
        ensures
            r@ == match *self {
                WgslShaderSourceType::EmbedSource => stm@,
                WgslShaderSourceType::WeslWithRelativePath => "::std::result::Result::Ok("@ + stm@ + seq![')'],
            },
    {
        match self {
            WgslShaderSourceType::EmbedSource => string_of(&chars_of(stm)),
            WgslShaderSourceType::WeslWithRelativePath => {
                let mut out = chars_of("::std::result::Result::Ok(");
                push_all(&mut out, &chars_of(stm));
                out.push(')');
                string_of(&out)
            },
        }
    }

    /// The operator that propagates a failed load: none for embedded
    /// sources, `?` when the shader is loaded from files.
    pub fn get_propagate_operator(&self) -> (r: &'static str)
        ensures
            r@ == match *self {
                WgslShaderSourceType::EmbedSource => ""@,
                WgslShaderSourceType::WeslWithRelativePath => "?"@,
            },
    {
        match self {
            WgslShaderSourceType::EmbedSource => "",
            WgslShaderSourceType::WeslWithRelativePath => "?",
        }
    }

    /// The parameter definitions and the arguments of the generated shader
    /// module functions.
    pub fn shader_module_params_defs_and_params(&self) -> (r: (String, String))
        ensures
            (r.0@, r.1@) == match *self {
                WgslShaderSourceType::EmbedSource => ("device: &wgpu::Device"@, "device"@),
                WgslShaderSourceType::WeslWithRelativePath => (
                    "device: &wgpu::Device, base_dir: &::std::path::Path"@,
                    "device, base_dir"@,
                ),
            },
    {
        match self {
            WgslShaderSourceType::EmbedSource => (
                string_of(&chars_of("device: &wgpu::Device")),
                string_of(&chars_of("device")),
            ),
            WgslShaderSourceType::WeslWithRelativePath => (
                string_of(&chars_of("device: &wgpu::Device, base_dir: &::std::path::Path")),
                string_of(&chars_of("device, base_dir")),
            ),
        }
    }
}

/// The shader output form.
#[derive(Debug, Clone, Copy, PartialEq, Eq, Structural)]
pub enum WgslShaderSourceOutputType {
    /// The final shader string is included directly in the output.
    FinalShaderString,
    /// A composer with helper functions runs at runtime.
    Composer,
}

impl Default for WgslShaderSourceOutputType {
    fn default() -> (r: Self)
        ensures
            r == WgslShaderSourceOutputType::FinalShaderString,
    {
        WgslShaderSourceOutputType::FinalShaderString
    }
}

/// A directory to scan for additional source files, with the module prefix
/// that its files are imported under.
#[derive(Debug)]
pub struct AdditionalScanDirectory {
    pub module_import_root: Option<String>,
    pub directory: String,
}

impl AdditionalScanDirectory {
    /// A scan directory from an optional import root and a directory.
    pub fn new(module_import_root: Option<&str>, directory: &str) -> (r: Self)
        ensures
            r.directory@ == directory@,
            match module_import_root {
                Some(m) => r.module_import_root matches Some(x) && x@ == m@,
                None => r.module_import_root is None,
            },
    {
        let module_import_root = match module_import_root {
            Some(m) => Some(m.to_owned()),
            None => None,
        };
        AdditionalScanDirectory { module_import_root, directory: directory.to_owned() }
    }
}

impl Clone for AdditionalScanDirectory {
    fn clone(&self) -> (r: Self)
        ensures
            r == *self,
    {
        let module_import_root = match &self.module_import_root {
            Some(m) => Some(m.clone()),
            None => None,
        };
        AdditionalScanDirectory { module_import_root, directory: self.directory.clone() }
    }
}

/// A WGSL struct that the generated code maps to an existing Rust type
/// instead of generating it.
#[derive(Debug, PartialEq, Eq)]
pub struct CustomStructMapping {
    /// Fully qualified name of the WGSL struct, e.g. `lib::fp64::Fp64`.
    pub from: String,
    /// Fully qualified Rust type, e.g. `crate::fp64::Fp64`.
    pub to: String,
}

impl CustomStructMapping {
    /// A mapping from a WGSL struct to a Rust type.
    pub fn new(from: &str, to: &str) -> (r: Self)
        ensures
            r.from@ == from@,
            r.to@ == to@,
    {
        CustomStructMapping { from: from.to_owned(), to: to.to_owned() }
    }
}

/// Kinds of resources that a binding refers to.
#[derive(Debug, PartialEq, Eq, Clone, Copy, Hash, Structural)]
pub enum BindResourceType {
    Buffer,
    Sampler,
    Texture,
    AccelerationStructure,
    BufferArray,
    SamplerArray,
    TextureArray,
}

/// Sampler binding types.
#[derive(Clone, Copy, Debug, PartialEq, Eq, Structural)]
pub enum SamplerType {
    Filtering,
    NonFiltering,
    Comparison,
}

/// The visibility of the types generated in the output.
#[derive(Clone, Copy, PartialEq, Eq, Debug, Structural)]
pub enum WgslTypeVisibility {
    /// `pub`
    Public,
    /// `pub(crate)`
    RestrictedCrate,
    /// `pub(super)`
    RestrictedSuper,
}

impl Default for WgslTypeVisibility {
    fn default() -> (r: Self)
        ensures
            r == WgslTypeVisibility::Public,
    {
        WgslTypeVisibility::Public
    }
}

/// Rust arrays for WGSL vectors and matrices (`[f32; 4]`, `[[f32; 4]; 4]`).
#[derive(Clone, Copy, Debug)]
pub struct RustWgslTypeMap;

/// `glam` types for WGSL vectors and matrices (`glam::Vec4`, `glam::Mat4`).
#[derive(Clone, Copy, Debug)]
pub struct GlamWgslTypeMap;

/// `nalgebra` types for WGSL vectors and matrices (`nalgebra::SVector`).
#[derive(Clone, Copy, Debug)]
pub struct NalgebraWgslTypeMap;

/// Whether a bind group is shared by several entry points or belongs to one.
#[derive(Clone, Eq, Copy, PartialEq, Debug, Structural)]
pub enum ShaderBindGroupRefKind {
    Common,
    Entrypoint,
}

/// Errors while generating Rust source for a WGSL shader module.
#[derive(Debug, PartialEq, Eq, Clone, Copy, Structural)]
pub enum CreateModuleError {
    /// Bind group sets must be consecutive and start from 0.
    NonConsecutiveBindGroups,
    /// Each binding resource must be associated with exactly one binding index.
    DuplicateBinding { binding: u32 },
}

/// Errors while assembling the generated module tree (item-category aware
/// builder).
#[derive(Debug, PartialEq, Eq)]
pub enum RustModuleBuilderError {
    /// Two items were added under one unique id with different contents.
    DuplicateContentError { id: String, existing: String, received: String },
}


/// The comment lines at the top of a generated file, unless they are
/// skipped: the generator's name and version, a warning, and the hash of
/// the sources.
pub open spec fn header_text(skip_header_comments: bool, pkg_name: Seq<char>, pkg_version: Seq<char>, content_hash: Seq<char>) -> Seq<char> {
    if skip_header_comments {
        Seq::empty()
    } else {
        "// File automatically generated by "@ + pkg_name + "^\n//\n// ^ "@ + pkg_name + " version "@
            + pkg_version + "\n// Changes made to this file will not be saved.\n// SourceHash: "@
            + content_hash + "\n\n"@
    }
}

/// The comment lines at the top of a generated file.
pub fn header_texts(skip_header_comments: bool, pkg_name: &str, pkg_version: &str, content_hash: &str) -> (r: String)
    ensures
        r@ == header_text(skip_header_comments, pkg_name@, pkg_version@, content_hash@),
{
    if skip_header_comments {
        return String::new();
    }
    let mut out = chars_of("// File automatically generated by ");
    push_all(&mut out, &chars_of(pkg_name));
    push_all(&mut out, &chars_of("^\n//\n// ^ "));
    push_all(&mut out, &chars_of(pkg_name));
    push_all(&mut out, &chars_of(" version "));
    push_all(&mut out, &chars_of(pkg_version));
    push_all(&mut out, &chars_of("\n// Changes made to this file will not be saved.\n// SourceHash: "));
    push_all(&mut out, &chars_of(content_hash));
    push_all(&mut out, &chars_of("\n\n"));
    string_of(&out)
}

/// The line of earlier output that records the hash of its sources: the
/// first line that starts with `// SourceHash:`, or the empty text when no
/// line does.
pub open spec fn source_hash_line(old_lines: Seq<Seq<char>>) -> Seq<char>
    decreases old_lines.len(),
{
    if old_lines.len() == 0 {
        Seq::empty()
    } else if has_prefix(old_lines[0], "// SourceHash:"@) {
        old_lines[0]
    } else {
        source_hash_line(old_lines.drop_first())
    }
}

/// Whether the output must be written again: always when the hash check is
/// skipped, otherwise unless the earlier output records the hash of the
/// current sources.
pub open spec fn needs_regeneration(old_content: Seq<char>, content_hash: Seq<char>, skip_hash_check: bool) -> bool {
    skip_hash_check || source_hash_line(lines(old_content)) != "// SourceHash: "@ + content_hash
}

/// The first of the lines that starts with `// SourceHash:`, or the empty
/// text.
fn find_source_hash_line(ls: &Vec<Vec<char>>) -> (r: Vec<char>)
    ensures
        r@ == source_hash_line(ls.deep_view()),
{
    let ghost lv = ls.deep_view();
    let prefix = chars_of("// SourceHash:");
    let mut i: usize = 0;
    assert(lv.skip(0) =~= lv);
    while i < ls.len()
        invariant
            i <= lv.len(),
            lv == ls.deep_view(),
            prefix@ == "// SourceHash:"@,
            source_hash_line(lv) == source_hash_line(lv.skip(i as int)),
        decreases lv.len() - i,
    {
        assert(lv.skip(i as int).drop_first() =~= lv.skip(i + 1));
        assert(lv.skip(i as int)[0] == ls@[i as int]@);
        let line = &ls[i];
        if matches_at_exec(line, 0, &prefix) {
            assert(line@.subrange(0, prefix@.len() as int) =~= line@.take(prefix@.len() as int));
            let found = slice_to_vec(line, 0, line.len());
            assert(found@ =~= line@);
            return found;
        }
        proof {
            if prefix@.len() <= line@.len() {
                assert(line@.subrange(0, prefix@.len() as int) =~= line@.take(prefix@.len() as int));
            }
        }
        i += 1;
    }
    assert(lv.skip(i as int) =~= Seq::<Seq<char>>::empty());
    Vec::new()
}

/// Whether the output must be written again, given its earlier content
/// (empty when there is none) and the hash of the current sources.
pub fn should_regenerate_output(old_content: &str, content_hash: &str, skip_hash_check: bool) -> (r: bool)
    ensures
        r == needs_regeneration(old_content@, content_hash@, skip_hash_check),
{
    if skip_hash_check {
        return true;
    }
    let ls = lines_exec(&chars_of(old_content));
    let found = find_source_hash_line(&ls);
    let mut expected = chars_of("// SourceHash: ");
    push_all(&mut expected, &chars_of(content_hash));
    !chars_eq(&found, &expected)
}

/// Whether a line is not the hash line: it does not start with
/// `// SourceHash:` because its fourth character differs.
proof fn lemma_fourth_char_not_hash(line: Seq<char>, c: char)
    requires
        line.len() > 3,
        line[3] == c,
        c != 'S',
    ensures
        !has_prefix(line, "// SourceHash:"@),
{
    reveal_strlit("// SourceHash:");
    if has_prefix(line, "// SourceHash:"@) {
        assert(line.take(14)[3] == line[3]);
    }
}

/// Output that begins with the header written for a hash records that
/// hash: while the sources keep that hash, the hash check finds the output
/// current and it is not written again.
#[verifier::spinoff_prover]
pub proof fn law_header_records_its_hash(
    pkg_name: Seq<char>,
    pkg_version: Seq<char>,
    content_hash: Seq<char>,
    rest: Seq<char>,
)
    requires
        !pkg_name.contains('\n'),
        !pkg_version.contains('\n'),
        !content_hash.contains('\n'),
        content_hash.len() > 0 ==> content_hash.last() != '\r',
    ensures
        !needs_regeneration(header_text(false, pkg_name, pkg_version, content_hash) + rest, content_hash, false),
{
    reveal_strlit("// File automatically generated by ");
    reveal_strlit("^\n//\n// ^ ");
    reveal_strlit(" version ");
    reveal_strlit("\n// Changes made to this file will not be saved.\n// SourceHash: ");
    reveal_strlit("\n\n");
    reveal_strlit("// SourceHash: ");
    reveal_strlit("// SourceHash:");
    let nl = seq!['\n'];
    let gen = "// File automatically generated by "@;
    let caret = seq!['/', '/', ' ', '^', ' '];
    let ver = " version "@;
    let warn = seq![
        '/', '/', ' ', 'C', 'h', 'a', 'n', 'g', 'e', 's', ' ', 'm', 'a', 'd', 'e', ' ', 't', 'o', ' ',
        't', 'h', 'i', 's', ' ', 'f', 'i', 'l', 'e', ' ', 'w', 'i', 'l', 'l', ' ', 'n', 'o', 't', ' ',
        'b', 'e', ' ', 's', 'a', 'v', 'e', 'd', '.',
    ];
    let hash_pre = "// SourceHash: "@;
    let l0 = gen + pkg_name + seq!['^'];
    let l1 = seq!['/', '/'];
    let l2 = caret + pkg_name + ver + pkg_version;
    let l3 = warn;
    let l4 = hash_pre + content_hash;
    let x4 = l4 + nl + (nl + rest);
    let x3 = l3 + nl + x4;
    let x2 = l2 + nl + x3;
    let x1 = l1 + nl + x2;
    let out = header_text(false, pkg_name, pkg_version, content_hash) + rest;
    assert(out =~= l0 + nl + x1);

    // No line of the header holds a newline.
    assert(!gen.contains('\n')) by {
        if gen.contains('\n') {
            let k = choose|k: int| 0 <= k < gen.len() && gen[k] == '\n';
        }
    }
    assert(!seq!['^'].contains('\n')) by {
        if seq!['^'].contains('\n') {
            let k = choose|k: int| 0 <= k < 1 && seq!['^'][k] == '\n';
        }
    }
    lemma_no_newline_concat(gen, pkg_name);
    lemma_no_newline_concat(gen + pkg_name, seq!['^']);
    assert(!l1.contains('\n')) by {
        if l1.contains('\n') {
            let k = choose|k: int| 0 <= k < 2 && l1[k] == '\n';
        }
    }
    assert(!caret.contains('\n')) by {
        if caret.contains('\n') {
            let k = choose|k: int| 0 <= k < 5 && caret[k] == '\n';
        }
    }
    assert(!ver.contains('\n')) by {
        if ver.contains('\n') {
            let k = choose|k: int| 0 <= k < ver.len() && ver[k] == '\n';
        }
    }
    lemma_no_newline_concat(caret, pkg_name);
    lemma_no_newline_concat(caret + pkg_name, ver);
    lemma_no_newline_concat(caret + pkg_name + ver, pkg_version);
    assert(!warn.contains('\n')) by {
        if warn.contains('\n') {
            let k = choose|k: int| 0 <= k < warn.len() && warn[k] == '\n';
        }
    }
    assert(!hash_pre.contains('\n')) by {
        if hash_pre.contains('\n') {
            let k = choose|k: int| 0 <= k < hash_pre.len() && hash_pre[k] == '\n';
        }
    }
    lemma_no_newline_concat(hash_pre, content_hash);

    // The first five lines are the header's.
    lemma_lines_cons(l0, x1);
    lemma_lines_cons(l1, x2);
    lemma_lines_cons(l2, x3);
    lemma_lines_cons(l3, x4);
    lemma_lines_cons(l4, nl + rest);
    let rl = lines(nl + rest);
    let s0 = strip_cr(l0);
    let s1 = strip_cr(l1);
    let s2 = strip_cr(l2);
    let s3 = strip_cr(l3);
    let s4 = strip_cr(l4);
    let ls = lines(out);
    assert(ls =~= seq![s0, s1, s2, s3, s4] + rl);

    // Only the fifth starts with `// SourceHash:`.
    assert(s0 == l0);
    assert(s1 == l1);
    assert(s3 == l3);
    assert(l4.last() != '\r') by {
        if content_hash.len() > 0 {
            assert(l4.last() == content_hash.last());
        } else {
            assert(l4 =~= hash_pre);
        }
    }
    assert(s4 == l4);
    lemma_fourth_char_not_hash(s0, 'F');
    assert(!has_prefix(s1, "// SourceHash:"@));
    assert(s2.len() > 3 && s2[3] == '^');
    lemma_fourth_char_not_hash(s2, '^');
    lemma_fourth_char_not_hash(s3, 'C');
    assert(has_prefix(s4, "// SourceHash:"@)) by {
        assert(s4.take(14) =~= "// SourceHash:"@);
    }
    let t1 = seq![s1, s2, s3, s4] + rl;
    let t2 = seq![s2, s3, s4] + rl;
    let t3 = seq![s3, s4] + rl;
    let t4 = seq![s4] + rl;
    assert(ls.drop_first() =~= t1);
    assert(t1.drop_first() =~= t2);
    assert(t2.drop_first() =~= t3);
    assert(t3.drop_first() =~= t4);
    assert(source_hash_line(t4) == s4);
    assert(source_hash_line(t3) == source_hash_line(t4));
    assert(source_hash_line(t2) == source_hash_line(t3));
    assert(source_hash_line(t1) == source_hash_line(t2));
    assert(source_hash_line(ls) == source_hash_line(t1));
}

} // verus!
