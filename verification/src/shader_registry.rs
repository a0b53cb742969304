//! Rust source text of the shader registry: an enum with a variant per
//! shader entry, and methods that create each entry's pipeline layout and
//! shader module through the entry's module.

use vstd::prelude::*;

use crate::options::WgslShaderSourceType;
use crate::struct_text::push_str;
use crate::text::{chars_of, push_all, string_of};

verus! {

/// The name of the function that creates a shader module for a source form.
pub open spec fn module_fn_name(s: WgslShaderSourceType) -> Seq<char> {
    match s {
        WgslShaderSourceType::EmbedSource => "create_shader_module_embed_source"@,
        WgslShaderSourceType::WeslWithRelativePath => "create_shader_module_from_path"@,
    }
}

/// The parameters of that function, and the arguments that pass them on.
pub open spec fn module_fn_params(s: WgslShaderSourceType) -> (Seq<char>, Seq<char>) {
    match s {
        WgslShaderSourceType::EmbedSource => ("device: &wgpu::Device"@, "device"@),
        WgslShaderSourceType::WeslWithRelativePath => (
            "device: &wgpu::Device, base_dir: &::std::path::Path"@,
            "device, base_dir"@,
        ),
    }
}

/// The return type of that function.
pub open spec fn module_fn_return(s: WgslShaderSourceType) -> Seq<char> {
    match s {
        WgslShaderSourceType::EmbedSource => "wgpu::ShaderModule"@,
        WgslShaderSourceType::WeslWithRelativePath => "::std::result::Result<"@ + "wgpu::ShaderModule"@
            + ", ::std::string::String>"@,
    }
}

/// The lines that each entry contributes to the registry.
#[derive(Clone, Copy, PartialEq, Eq, Structural)]
pub enum RegistryPiece {
    /// The entry's variant of the enum.
    Variant,
    /// The arm that creates the entry's pipeline layout.
    PipelineArm,
    /// The arm that creates the entry's shader module for a source form.
    ModuleArm(WgslShaderSourceType),
}

/// The line of an entry (its variant and its module path) in one piece.
pub open spec fn registry_line(piece: RegistryPiece, e: (Seq<char>, Seq<char>)) -> Seq<char> {
    match piece {
        RegistryPiece::Variant => "    "@ + e.0 + ",\n"@,
        RegistryPiece::PipelineArm => "            Self::"@ + e.0 + " => "@ + e.1 + "::create_pipeline_layout(device),\n"@,
        RegistryPiece::ModuleArm(s) => "            Self::"@ + e.0 + " => "@ + e.1 + "::"@ + module_fn_name(s) + "("@
            + module_fn_params(s).1 + "),\n"@,
    }
}

/// The lines of the first `n` entries in one piece.
pub open spec fn registry_lines(piece: RegistryPiece, es: Seq<(Seq<char>, Seq<char>)>, n: int) -> Seq<char>
    decreases n,
{
    if n <= 0 {
        Seq::empty()
    } else {
        registry_lines(piece, es, n - 1) + registry_line(piece, es[n - 1])
    }
}

/// The method that creates an entry's shader module for a source form.
pub open spec fn module_fn_text(s: WgslShaderSourceType, es: Seq<(Seq<char>, Seq<char>)>) -> Seq<char> {
    "\n    pub fn "@ + module_fn_name(s) + "(&self, "@ + module_fn_params(s).0 + ") -> "@ + module_fn_return(s)
        + " {\n        match self {\n"@ + registry_lines(RegistryPiece::ModuleArm(s), es, es.len() as int)
        + "        }\n    }\n"@
}

/// The shader-module methods of the first `n` source forms.
pub open spec fn module_fns_text(ss: Seq<WgslShaderSourceType>, es: Seq<(Seq<char>, Seq<char>)>, n: int) -> Seq<char>
    decreases n,
{
    if n <= 0 {
        Seq::empty()
    } else {
        module_fns_text(ss, es, n - 1) + module_fn_text(ss[n - 1], es)
    }
}

/// The shader registry of the entries (each a variant name and the path of
/// its module): the `ShaderEntry` enum and its methods
/// `create_pipeline_layout` and, for each source form in order, the one
/// that creates the shader module.
pub open spec fn registry_text(es: Seq<(Seq<char>, Seq<char>)>, ss: Seq<WgslShaderSourceType>) -> Seq<char> {
    "#[derive(Clone, Copy, Debug, PartialEq, Eq, Hash)]\npub enum ShaderEntry {\n"@ + registry_lines(
        RegistryPiece::Variant,
        es,
        es.len() as int,
    )
        + "}\n\nimpl ShaderEntry {\n    pub fn create_pipeline_layout(&self, device: &wgpu::Device) -> wgpu::PipelineLayout {\n        match self {\n"@
        + registry_lines(RegistryPiece::PipelineArm, es, es.len() as int) + "        }\n    }\n"@ + module_fns_text(
        ss,
        es,
        ss.len() as int,
    ) + "}\n"@
}

/// The abstract entries.
pub open spec fn entries_view(es: Seq<(String, String)>) -> Seq<(Seq<char>, Seq<char>)> {
    Seq::new(es.len(), |i: int| (es[i].0@, es[i].1@))
}

/// The lines of all entries in one piece.
fn registry_lines_exec(piece: RegistryPiece, entries: &Vec<(String, String)>) -> (r: Vec<char>)
    ensures
        r@ == registry_lines(piece, entries_view(entries@), entries@.len() as int),
{
    let ghost ev = entries_view(entries@);
    let mut out: Vec<char> = Vec::new();
    let mut i: usize = 0;
    while i < entries.len()
        invariant
            i <= entries@.len(),
            ev == entries_view(entries@),
            out@ == registry_lines(piece, ev, i as int),
        decreases entries@.len() - i,
    {
        let (v, m) = &entries[i];
        assert(ev[i as int] == (v@, m@));
        let ghost before = out@;
        match piece {
            RegistryPiece::Variant => {
                push_str(&mut out, "    ");
                push_str(&mut out, v.as_str());
                push_str(&mut out, ",\n");
            },
            RegistryPiece::PipelineArm => {
                push_str(&mut out, "            Self::");
                push_str(&mut out, v.as_str());
                push_str(&mut out, " => ");
                push_str(&mut out, m.as_str());
                push_str(&mut out, "::create_pipeline_layout(device),\n");
            },
            RegistryPiece::ModuleArm(s) => {
                push_str(&mut out, "            Self::");
                push_str(&mut out, v.as_str());
                push_str(&mut out, " => ");
                push_str(&mut out, m.as_str());
                push_str(&mut out, "::");
                push_str(&mut out, s.create_shader_module_fn_name());
                push_str(&mut out, "(");
                let (_, params) = s.shader_module_params_defs_and_params();
                push_str(&mut out, params.as_str());
                push_str(&mut out, "),\n");
            },
        }
        assert(out@ =~= before + registry_line(piece, ev[i as int]));
        i += 1;
    }
    out
}

/// The shader registry of the entries (variant name, module path) for the
/// source forms, in order.
pub fn shader_registry_text(entries: &Vec<(String, String)>, source_types: &Vec<WgslShaderSourceType>) -> (r:
    String)
    ensures
        r@ == registry_text(entries_view(entries@), source_types@),
{
    let ghost ev = entries_view(entries@);
    let mut out = chars_of("#[derive(Clone, Copy, Debug, PartialEq, Eq, Hash)]\npub enum ShaderEntry {\n");
    push_all(&mut out, &registry_lines_exec(RegistryPiece::Variant, entries));
    push_str(
        &mut out,
        "}\n\nimpl ShaderEntry {\n    pub fn create_pipeline_layout(&self, device: &wgpu::Device) -> wgpu::PipelineLayout {\n        match self {\n",
    );
    push_all(&mut out, &registry_lines_exec(RegistryPiece::PipelineArm, entries));
    push_str(&mut out, "        }\n    }\n");
    let ghost head = out@;
    let mut fns: Vec<char> = Vec::new();
    let mut k: usize = 0;
    while k < source_types.len()
        invariant
            k <= source_types@.len(),
            ev == entries_view(entries@),
            fns@ == module_fns_text(source_types@, ev, k as int),
        decreases source_types@.len() - k,
    {
        let s = source_types[k];
        let ghost before = fns@;
        push_str(&mut fns, "\n    pub fn ");
        push_str(&mut fns, s.create_shader_module_fn_name());
        push_str(&mut fns, "(&self, ");
        let (defs, _) = s.shader_module_params_defs_and_params();
        push_str(&mut fns, defs.as_str());
        push_str(&mut fns, ") -> ");
        push_str(&mut fns, s.get_return_type("wgpu::ShaderModule").as_str());
        push_str(&mut fns, " {\n        match self {\n");
        push_all(&mut fns, &registry_lines_exec(RegistryPiece::ModuleArm(s), entries));
        push_str(&mut fns, "        }\n    }\n");
        assert(fns@ =~= before + module_fn_text(s, ev));
        k += 1;
    }
    push_all(&mut out, &fns);
    push_str(&mut out, "}\n");
    assert(out@ =~= registry_text(ev, source_types@));
    string_of(&out)
}

} // verus!
