//! The pipeline layout of an entry point: the layouts of its bind groups,
//! each taken from the module that holds the group, and the push constant
//! range that all its stages share.

use vstd::prelude::*;

use crate::bind_group::{refs_nonempty, EntryView, ShaderEntryBindGroups};
use crate::binding_generator::{push_decimal_usize, PipelineLayoutGenerator};
use crate::fwgsl_loader::decimal;
use crate::name_demangle::qualified_item_name;
use crate::options::ShaderBindGroupRefKind;
use crate::text::{chars_of, join_exec, join_with, push_all, string_of};
use crate::wgsl::{quote_shader_stages, quoted_shader_stages, AddressSpace};

verus! {

/// A global variable of a shader module: its address space and the size in
/// bytes of its type.
#[derive(Debug, Clone, Copy, PartialEq, Eq, Structural)]
pub struct GlobalVariable {
    pub space: AddressSpace,
    pub type_size: u32,
}

/// The type size of the first push-constant global, if there is one.
pub open spec fn first_push_constant_size(globals: Seq<GlobalVariable>) -> Option<u32>
    decreases globals.len(),
{
    if globals.len() == 0 {
        None
    } else if globals[0].space is PushConstant {
        Some(globals[0].type_size)
    } else {
        first_push_constant_size(globals.drop_first())
    }
}

/// The one push constant range, from offset 0 over `size` bytes, visible to
/// the given stages.
pub open spec fn push_constant_range_text(size: u32, shader_stages: u32) -> Seq<char> {
    "wgpu::PushConstantRange { stages: "@ + quoted_shader_stages(shader_stages) + ", range: 0.."@
        + decimal(size as nat) + " }"@
}

/// The push constant range of a module, from its first push-constant
/// global, if it has one.
pub fn push_constant_range(globals: &[GlobalVariable], shader_stages: u32) -> (r: Option<String>)
    requires
        shader_stages != 0,
    ensures
        match r {
            Some(t) => first_push_constant_size(globals@) matches Some(n) && t@
                == push_constant_range_text(n, shader_stages),
            None => first_push_constant_size(globals@) is None,
        },
{
    let stages = quote_shader_stages(shader_stages);
    let mut i: usize = 0;
    assert(globals@.skip(0) =~= globals@);
    while i < globals.len()
        invariant
            i <= globals@.len(),
            stages@ == quoted_shader_stages(shader_stages),
            first_push_constant_size(globals@) == first_push_constant_size(globals@.skip(i as int)),
        decreases globals@.len() - i,
    {
        assert(globals@.skip(i as int).drop_first() =~= globals@.skip(i + 1));
        if globals[i].space == AddressSpace::PushConstant {
            let mut out = chars_of("wgpu::PushConstantRange { stages: ");
            push_all(&mut out, &chars_of(stages.as_str()));
            push_all(&mut out, &chars_of(", range: 0.."));
            push_decimal_usize(&mut out, globals[i].type_size as usize);
            push_all(&mut out, &chars_of(" }"));
            assert(globals@.skip(i as int)[0] == globals@[i as int]);
            assert(out@ =~= push_constant_range_text(globals@[i as int].type_size, shader_stages));
            return Some(string_of(&out));
        }
        i += 1;
    }
    None
}

/// The expression that gets the layout of group `g` of an entry point: the
/// group's type, in the module of its bindings for a shared group, then
/// `::get_bind_group_layout(device)`.
pub open spec fn bind_group_layout_expr(
    name_prefix: Seq<char>,
    g: int,
    r: (ShaderBindGroupRefKind, Seq<EntryView>),
) -> Seq<char> {
    let name = name_prefix + decimal(g as nat);
    (if r.0 == ShaderBindGroupRefKind::Common {
        qualified_item_name(r.1[0].1, name)
    } else {
        name
    }) + "::get_bind_group_layout(device)"@
}

/// The expressions that get the layouts of an entry point's groups, in
/// group order, with the given prefix of the bind group type names.
pub fn bind_group_layout_exprs(entry: &ShaderEntryBindGroups, name_prefix: &str) -> (r: Vec<String>)
    requires
        refs_nonempty(entry@),
    ensures
        r@.len() == entry@.2.len(),
        forall|g: int|
            0 <= g < r@.len() ==> #[trigger] r@[g]@ == bind_group_layout_expr(name_prefix@, g, entry@.2[g]),
{
    let ghost ev = entry@;
    let mut out: Vec<String> = Vec::new();
    let mut g: usize = 0;
    while g < entry.bind_group_ref.len()
        invariant
            g <= entry.bind_group_ref@.len(),
            ev == entry@,
            refs_nonempty(ev),
            out@.len() == g,
            forall|h: int|
                0 <= h < g ==> #[trigger] out@[h]@ == bind_group_layout_expr(name_prefix@, h, ev.2[h]),
        decreases entry.bind_group_ref@.len() - g,
    {
        let r = &entry.bind_group_ref[g];
        assert(ev.2[g as int] == (r.kind, r.data@));
        assert(ev.2[g as int].1.len() > 0);
        let mut name = chars_of(name_prefix);
        push_decimal_usize(&mut name, g);
        let mut text: Vec<char> = Vec::new();
        if r.kind == ShaderBindGroupRefKind::Common {
            let module = r.data.first_module();
            let mc = chars_of(module.as_str());
            if mc.len() > 0 {
                push_all(&mut text, &mc);
                push_all(&mut text, &chars_of("::"));
                proof {
                    reveal_strlit("::");
                }
            }
        }
        push_all(&mut text, &name);
        push_all(&mut text, &chars_of("::get_bind_group_layout(device)"));
        proof {
            assert(text@ =~= bind_group_layout_expr(name_prefix@, g as int, ev.2[g as int]));
        }
        out.push(string_of(&text));
        g += 1;
    }
    out
}

/// The type that holds the bind group layout entries of a pipeline layout:
/// a unit struct with a function that takes and returns one layout per
/// group.
pub open spec fn layout_entries_struct_text(
    layout_name: Seq<char>,
    entry_type: Seq<char>,
    group_count: nat,
) -> Seq<char> {
    let array = "["@ + entry_type + "; "@ + decimal(group_count) + "]"@;
    "#[derive(Debug)]\npub struct "@ + layout_name + ";\n\nimpl "@ + layout_name
        + " {\n    pub fn bind_group_layout_entries(entries: "@ + array + ") -> "@ + array
        + " {\n        entries\n    }\n}\n"@
}

/// The type that holds the bind group layout entries of a pipeline layout
/// with `group_count` groups.
pub fn layout_entries_struct(generator: &PipelineLayoutGenerator, group_count: usize) -> (r: String)
    ensures
        r@ == layout_entries_struct_text(
            generator.layout_name@,
            generator.bind_group_layout_type@,
            group_count as nat,
        ),
{
    let mut array = chars_of("[");
    push_all(&mut array, &chars_of(generator.bind_group_layout_type.as_str()));
    push_all(&mut array, &chars_of("; "));
    push_decimal_usize(&mut array, group_count);
    push_all(&mut array, &chars_of("]"));
    let name = chars_of(generator.layout_name.as_str());
    let mut out = chars_of("#[derive(Debug)]\npub struct ");
    push_all(&mut out, &name);
    push_all(&mut out, &chars_of(";\n\nimpl "));
    push_all(&mut out, &name);
    push_all(&mut out, &chars_of(" {\n    pub fn bind_group_layout_entries(entries: "));
    push_all(&mut out, &array);
    push_all(&mut out, &chars_of(") -> "));
    push_all(&mut out, &array);
    push_all(&mut out, &chars_of(" {\n        entries\n    }\n}\n"));
    string_of(&out)
}

/// `&e` for each expression.
pub open spec fn borrowed(exprs: Seq<Seq<char>>) -> Seq<Seq<char>> {
    Seq::new(exprs.len(), |i: int| "&"@ + exprs[i])
}

/// The pipeline layout code of an entry point: the entries type of the
/// extra generator when there is one, the entries type of the `wgpu`
/// generator, then `create_pipeline_layout`, labelled with the entry's
/// name, with the layouts of its groups and its push constant range.
pub open spec fn pipeline_layout_fn_text(
    entry_name: Seq<char>,
    extra_entries_struct: Seq<char>,
    wgpu_entries_struct: Seq<char>,
    layout_exprs: Seq<Seq<char>>,
    push_constant_range: Option<Seq<char>>,
) -> Seq<char> {
    extra_entries_struct + wgpu_entries_struct
        + "pub fn create_pipeline_layout(device: &wgpu::Device) -> wgpu::PipelineLayout {\n    device.create_pipeline_layout(&wgpu::PipelineLayoutDescriptor {\n        label: Some(\""@
        + entry_name + "::PipelineLayout\"),\n        bind_group_layouts: &["@ + join_with(
        borrowed(layout_exprs),
        ", "@,
    ) + "],\n        push_constant_ranges: &["@ + match push_constant_range {
        Some(p) => p,
        None => Seq::empty(),
    } + "],\n    })\n}\n"@
}

/// The pipeline layout code of an entry point, from the globals of its
/// module, its bind groups, the prefix of the bind group type names, the
/// `wgpu` pipeline layout generator and the extra one, if any.
#[verifier::spinoff_prover]
pub fn create_pipeline_layout_fn(
    entry_name: &str,
    globals: &[GlobalVariable],
    shader_entry_bind_groups: &ShaderEntryBindGroups,
    bind_group_name_prefix: &str,
    wgpu_pipeline: &PipelineLayoutGenerator,
    extra_pipeline: Option<&PipelineLayoutGenerator>,
) -> (r: String)
    requires
        refs_nonempty(shader_entry_bind_groups@),
        shader_entry_bind_groups.shader_stages != 0,
    ensures
        r@ == pipeline_layout_fn_text(
            entry_name@,
            match extra_pipeline {
                Some(g) => layout_entries_struct_text(
                    g.layout_name@,
                    g.bind_group_layout_type@,
                    shader_entry_bind_groups@.3.len(),
                ),
                None => Seq::empty(),
            },
            layout_entries_struct_text(
                wgpu_pipeline.layout_name@,
                wgpu_pipeline.bind_group_layout_type@,
                shader_entry_bind_groups@.3.len(),
            ),
            Seq::new(
                shader_entry_bind_groups@.2.len(),
                |g: int|
                    bind_group_layout_expr(
                        bind_group_name_prefix@,
                        g,
                        shader_entry_bind_groups@.2[g],
                    ),
            ),
            match first_push_constant_size(globals@) {
                Some(n) => Some(push_constant_range_text(n, shader_entry_bind_groups.shader_stages)),
                None => None,
            },
        ),
{
    let ghost ev = shader_entry_bind_groups@;
    let exprs = bind_group_layout_exprs(shader_entry_bind_groups, bind_group_name_prefix);
    let group_count = shader_entry_bind_groups.original_bind_group.len();
    assert(group_count == ev.3.len());
    let wgpu_struct = layout_entries_struct(wgpu_pipeline, group_count);
    let mut out: Vec<char> = Vec::new();
    match extra_pipeline {
        Some(g) => {
            let extra = layout_entries_struct(g, group_count);
            push_all(&mut out, &chars_of(extra.as_str()));
        },
        None => {},
    }
    push_all(&mut out, &chars_of(wgpu_struct.as_str()));
    push_all(
        &mut out,
        &chars_of(
            "pub fn create_pipeline_layout(device: &wgpu::Device) -> wgpu::PipelineLayout {\n    device.create_pipeline_layout(&wgpu::PipelineLayoutDescriptor {\n        label: Some(\"",
        ),
    );
    push_all(&mut out, &chars_of(entry_name));
    push_all(&mut out, &chars_of("::PipelineLayout\"),\n        bind_group_layouts: &["));
    let mut refs: Vec<Vec<char>> = Vec::new();
    let mut k: usize = 0;
    let ghost ex = Seq::new(ev.2.len(), |g: int| bind_group_layout_expr(bind_group_name_prefix@, g, ev.2[g]));
    while k < exprs.len()
        invariant
            k <= exprs@.len(),
            exprs@.len() == ev.2.len(),
            ev == shader_entry_bind_groups@,
            forall|g: int|
                0 <= g < exprs@.len() ==> #[trigger] exprs@[g]@ == bind_group_layout_expr(
                    bind_group_name_prefix@,
                    g,
                    ev.2[g],
                ),
            refs@.len() == k,
            ex == Seq::new(ev.2.len(), |g: int| bind_group_layout_expr(bind_group_name_prefix@, g, ev.2[g])),
            refs.deep_view() == borrowed(ex).take(k as int),
        decreases exprs@.len() - k,
    {
        let mut one = chars_of("&");
        push_all(&mut one, &chars_of(exprs[k].as_str()));
        let ghost before = refs.deep_view();
        assert(ex[k as int] == exprs@[k as int]@);
        assert(borrowed(ex)[k as int] == "&"@ + ex[k as int]);
        assert(one@ == borrowed(ex)[k as int]);
        refs.push(one);
        assert(refs.deep_view()[k as int] =~= refs@[k as int]@);
        assert(refs.deep_view() =~= borrowed(ex).take(k + 1));
        k += 1;
    }
    assert(borrowed(ex).take(k as int) =~= borrowed(ex));
    let joined = join_exec(&refs, &chars_of(", "));
    push_all(&mut out, &joined);
    push_all(&mut out, &chars_of("],\n        push_constant_ranges: &["));
    match push_constant_range(globals, shader_entry_bind_groups.shader_stages) {
        Some(p) => push_all(&mut out, &chars_of(p.as_str())),
        None => {},
    }
    push_all(&mut out, &chars_of("],\n    })\n}\n"));
    string_of(&out)
}

} // verus!
