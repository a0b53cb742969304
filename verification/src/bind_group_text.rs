//! Rust source text of a bind group: the entries types (the parameters a
//! user fills with resources, and the entries made from them) and the type
//! that wraps the `wgpu` bind group.

use vstd::prelude::*;

use crate::binding_generator::{
    last_binding_type, push_decimal_usize, type_map_view, wgpu_entry, BindGroupLayoutGenerator,
};
use crate::adt::names_view;
use crate::bind_group::{opt_chars, BindGroupsExtraItem, ExtraItemView};
use crate::name_demangle::{qualified_item_name, RustSourceItemPath};
use crate::fwgsl_loader::decimal;
use crate::naming::{heck_pascal_case, ident_chars, sanitize_and_pascal_case};
use crate::options::BindResourceType;
use crate::struct_text::push_str;
use crate::text::{chars_of, push_all, string_of};

verus! {

/// A binding of a bind group as its entries types see it: the field that
/// holds it (the binding's item name), its `@binding` index and the kind of
/// resource it takes.
pub struct EntriesBinding {
    pub field_name: String,
    pub binding_index: u32,
    pub resource_type: BindResourceType,
}

impl View for EntriesBinding {
    type V = (Seq<char>, u32, BindResourceType);

    open spec fn view(&self) -> (Seq<char>, u32, BindResourceType) {
        (self.field_name@, self.binding_index, self.resource_type)
    }
}

/// The abstract values of a list of bindings.
pub open spec fn entries_bindings_view(bs: Seq<EntriesBinding>) -> Seq<(Seq<char>, u32, BindResourceType)> {
    Seq::new(bs.len(), |i: int| bs[i]@)
}

/// The lines that each binding contributes to the entries types.
#[derive(Clone, Copy, PartialEq, Eq, Structural)]
pub enum EntriesPiece {
    /// A field of the parameters type, of the parameter type of its kind.
    ParamField,
    /// A field of the entries type, of the entry type.
    EntryField,
    /// A member of the entries that `new` makes: the entry built from the
    /// parameter.
    NewAssign,
    /// An item of the array of entries.
    ArrayItem,
}

/// The line that a binding contributes to one piece.
pub open spec fn entries_line(
    piece: EntriesPiece,
    map: Seq<(BindResourceType, Seq<char>)>,
    entry_type: Seq<char>,
    b: (Seq<char>, u32, BindResourceType),
) -> Seq<char> {
    match piece {
        EntriesPiece::ParamField => "    pub "@ + b.0 + ": "@ + match last_binding_type(map, b.2) {
            Some(t) => t,
            None => Seq::empty(),
        } + ",\n"@,
        EntriesPiece::EntryField => "    pub "@ + b.0 + ": "@ + entry_type + ",\n"@,
        EntriesPiece::NewAssign => "            "@ + b.0 + ": "@ + wgpu_entry(b.1 as nat, "params."@ + b.0, b.2)
            + ",\n"@,
        EntriesPiece::ArrayItem => "            self."@ + b.0 + ",\n"@,
    }
}

/// The lines that the first `n` bindings contribute to one piece.
pub open spec fn entries_lines(
    piece: EntriesPiece,
    map: Seq<(BindResourceType, Seq<char>)>,
    entry_type: Seq<char>,
    bs: Seq<(Seq<char>, u32, BindResourceType)>,
    n: int,
) -> Seq<char>
    decreases n,
{
    if n <= 0 {
        Seq::empty()
    } else {
        entries_lines(piece, map, entry_type, bs, n - 1) + entries_line(piece, map, entry_type, bs[n - 1])
    }
}

/// The entries types of bind group `group_no`: `<Group>EntriesParams`, whose
/// fields take the resources, and `<Group>Entries`, whose fields hold the
/// entries, with `new` (an entry for each parameter, at its binding),
/// `as_array` and `collect`. Both take a lifetime when the generator's
/// types do.
pub open spec fn bind_group_entries_spec(
    prefix: Seq<char>,
    uses_lifetime: bool,
    entry_type: Seq<char>,
    map: Seq<(BindResourceType, Seq<char>)>,
    group_no: u32,
    bs: Seq<(Seq<char>, u32, BindResourceType)>,
) -> Seq<char> {
    let name = prefix + decimal(group_no as nat) + "Entries"@;
    let lt = if uses_lifetime {
        "<'a>"@
    } else {
        Seq::empty()
    };
    let n = bs.len() as int;
    "#[derive(Debug)]\npub struct "@ + name + "Params"@ + lt + " {\n"@ + entries_lines(
        EntriesPiece::ParamField,
        map,
        entry_type,
        bs,
        n,
    ) + "}\n\n#[derive(Clone, Debug)]\npub struct "@ + name + lt + " {\n"@ + entries_lines(
        EntriesPiece::EntryField,
        map,
        entry_type,
        bs,
        n,
    ) + "}\n\nimpl"@ + lt + " "@ + name + lt + " {\n    pub fn new(params: "@ + name + "Params"@ + lt
        + ") -> Self {\n        Self {\n"@ + entries_lines(EntriesPiece::NewAssign, map, entry_type, bs, n)
        + "        }\n    }\n\n    pub fn as_array(self) -> ["@ + entry_type + "; "@ + decimal(n as nat)
        + "] {\n        [\n"@ + entries_lines(EntriesPiece::ArrayItem, map, entry_type, bs, n)
        + "        ]\n    }\n\n    pub fn collect<B: FromIterator<"@ + entry_type
        + ">>(self) -> B {\n        self.as_array().into_iter().collect()\n    }\n}\n"@
}

/// The lines that all bindings contribute to one piece.
fn entries_lines_exec(piece: EntriesPiece, generator: &BindGroupLayoutGenerator, bindings: &Vec<EntriesBinding>) -> (r: Vec<
    char,
>)
    ensures
        r@ == entries_lines(
            piece,
            type_map_view(generator.binding_type_map@),
            generator.entry_struct_type@,
            entries_bindings_view(bindings@),
            bindings@.len() as int,
        ),
{
    let ghost bv = entries_bindings_view(bindings@);
    let ghost mv = type_map_view(generator.binding_type_map@);
    let mut out: Vec<char> = Vec::new();
    let mut i: usize = 0;
    while i < bindings.len()
        invariant
            i <= bindings@.len(),
            bv == entries_bindings_view(bindings@),
            mv == type_map_view(generator.binding_type_map@),
            out@ == entries_lines(piece, mv, generator.entry_struct_type@, bv, i as int),
        decreases bindings@.len() - i,
    {
        let b = &bindings[i];
        assert(bv[i as int] == b@);
        let ghost before = out@;
        let name = b.field_name.as_str();
        match piece {
            EntriesPiece::ParamField => {
                push_str(&mut out, "    pub ");
                push_str(&mut out, name);
                push_str(&mut out, ": ");
                match generator.binding_type(b.resource_type) {
                    Some(t) => push_str(&mut out, t.as_str()),
                    None => {},
                }
                push_str(&mut out, ",\n");
            },
            EntriesPiece::EntryField => {
                push_str(&mut out, "    pub ");
                push_str(&mut out, name);
                push_str(&mut out, ": ");
                push_str(&mut out, generator.entry_struct_type.as_str());
                push_str(&mut out, ",\n");
            },
            EntriesPiece::NewAssign => {
                push_str(&mut out, "            ");
                push_str(&mut out, name);
                push_str(&mut out, ": ");
                let mut var = chars_of("params.");
                push_str(&mut var, name);
                let var = string_of(&var);
                let entry = generator.construct_entry(b.binding_index as usize, var.as_str(), b.resource_type);
                push_str(&mut out, entry.as_str());
                push_str(&mut out, ",\n");
            },
            EntriesPiece::ArrayItem => {
                push_str(&mut out, "            self.");
                push_str(&mut out, name);
                push_str(&mut out, ",\n");
            },
        }
        assert(out@ =~= before + entries_line(piece, mv, generator.entry_struct_type@, bv[i as int]));
        i += 1;
    }
    out
}

/// The entries types of bind group `group_no`, with the generator's names
/// and types. Each binding's kind of resource has a parameter type in the
/// generator's map.
pub fn bind_group_entries_text(
    generator: &BindGroupLayoutGenerator,
    group_no: u32,
    bindings: &Vec<EntriesBinding>,
) -> (r: String)
    requires
        forall|i: int|
            0 <= i < bindings@.len() ==> last_binding_type(
                type_map_view(generator.binding_type_map@),
                #[trigger] bindings@[i].resource_type,
            ) is Some,
    ensures
        r@ == bind_group_entries_spec(
            generator.name_prefix@,
            generator.uses_lifetime,
            generator.entry_struct_type@,
            type_map_view(generator.binding_type_map@),
            group_no,
            entries_bindings_view(bindings@),
        ),
{
    let name = chars_of(generator.bind_group_entries_struct_name_ident(group_no).as_str());
    proof {
        reveal_strlit("Entries");
    }
    let lt = if generator.uses_lifetime {
        chars_of("<'a>")
    } else {
        Vec::new()
    };
    let mut out = chars_of("#[derive(Debug)]\npub struct ");
    push_all(&mut out, &name);
    push_str(&mut out, "Params");
    push_all(&mut out, &lt);
    push_str(&mut out, " {\n");
    push_all(&mut out, &entries_lines_exec(EntriesPiece::ParamField, generator, bindings));
    push_str(&mut out, "}\n\n#[derive(Clone, Debug)]\npub struct ");
    push_all(&mut out, &name);
    push_all(&mut out, &lt);
    push_str(&mut out, " {\n");
    push_all(&mut out, &entries_lines_exec(EntriesPiece::EntryField, generator, bindings));
    push_str(&mut out, "}\n\nimpl");
    push_all(&mut out, &lt);
    push_str(&mut out, " ");
    push_all(&mut out, &name);
    push_all(&mut out, &lt);
    push_str(&mut out, " {\n    pub fn new(params: ");
    push_all(&mut out, &name);
    push_str(&mut out, "Params");
    push_all(&mut out, &lt);
    push_str(&mut out, ") -> Self {\n        Self {\n");
    push_all(&mut out, &entries_lines_exec(EntriesPiece::NewAssign, generator, bindings));
    push_str(&mut out, "        }\n    }\n\n    pub fn as_array(self) -> [");
    push_str(&mut out, generator.entry_struct_type.as_str());
    push_str(&mut out, "; ");
    push_decimal_usize(&mut out, bindings.len());
    push_str(&mut out, "] {\n        [\n");
    push_all(&mut out, &entries_lines_exec(EntriesPiece::ArrayItem, generator, bindings));
    push_str(&mut out, "        ]\n    }\n\n    pub fn collect<B: FromIterator<");
    push_str(&mut out, generator.entry_struct_type.as_str());
    push_str(&mut out, ">>(self) -> B {\n        self.as_array().into_iter().collect()\n    }\n}\n");
    assert(out@ =~= bind_group_entries_spec(
        generator.name_prefix@,
        generator.uses_lifetime,
        generator.entry_struct_type@,
        type_map_view(generator.binding_type_map@),
        group_no,
        entries_bindings_view(bindings@),
    ));
    string_of(&out)
}


/// The layout entries, one per line, inside the descriptor's array.
pub open spec fn layout_entry_lines(entries: Seq<Seq<char>>, n: int) -> Seq<char>
    decreases n,
{
    if n <= 0 {
        Seq::empty()
    } else {
        layout_entry_lines(entries, n - 1) + "            "@ + entries[n - 1] + ",\n"@
    }
}

/// The bind group type of group `group_no` of the shader entry
/// `entry_name` (its module name in Pascal case): a wrapper of a
/// `wgpu::BindGroup` named by the `wgpu` generator, with its layout
/// descriptor (labelled `<entry>::BindGroup<n>::LayoutDescriptor`, holding
/// the layout entries), `get_bind_group_layout`, `from_bindings` (a bind
/// group labelled `<entry>::BindGroup<n>` from the group's entries) and
/// `set`, which binds it at index `group_no`.
pub open spec fn bind_group_struct_spec(
    prefix: Seq<char>,
    entry_name: Seq<char>,
    group_no: u32,
    layout_entries: Seq<Seq<char>>,
) -> Seq<char> {
    let name = prefix + decimal(group_no as nat);
    let label = entry_name + "::BindGroup"@ + decimal(group_no as nat);
    "#[derive(Debug)]\npub struct "@ + name + "(wgpu::BindGroup);\n\nimpl "@ + name
        + " {\n    pub const LAYOUT_DESCRIPTOR: wgpu::BindGroupLayoutDescriptor<'static> = wgpu::BindGroupLayoutDescriptor {\n        label: Some(\""@
        + label + "::LayoutDescriptor\"),\n        entries: &[\n"@ + layout_entry_lines(
        layout_entries,
        layout_entries.len() as int,
    )
        + "        ],\n    };\n\n    pub fn get_bind_group_layout(device: &wgpu::Device) -> wgpu::BindGroupLayout {\n        device.create_bind_group_layout(&Self::LAYOUT_DESCRIPTOR)\n    }\n\n    pub fn from_bindings(device: &wgpu::Device, bindings: "@
        + name
        + "Entries) -> Self {\n        let bind_group_layout = Self::get_bind_group_layout(&device);\n        let entries = bindings.as_array();\n        let bind_group = device.create_bind_group(&wgpu::BindGroupDescriptor {\n            label: Some(\""@
        + label
        + "\"),\n            layout: &bind_group_layout,\n            entries: &entries,\n        });\n        Self(bind_group)\n    }\n\n    pub fn set(&self, pass: &mut impl SetBindGroup) {\n        pass.set_bind_group("@
        + decimal(group_no as nat) + ", &self.0, &[]);\n    }\n}\n"@
}

/// The bind group type of group `group_no` of the shader entry in
/// `containing_module`, whose bindings have the given layout entries; the
/// names come from the `wgpu` generator.
pub fn bind_group_struct_text(
    wgpu_layout: &BindGroupLayoutGenerator,
    containing_module: &str,
    group_no: u32,
    layout_entries: &Vec<String>,
) -> (r: String)
    ensures
        r@ == bind_group_struct_spec(
            wgpu_layout.name_prefix@,
            heck_pascal_case(ident_chars(containing_module@)),
            group_no,
            names_view(layout_entries@),
        ),
{
    let name = chars_of(wgpu_layout.bind_group_name_ident(group_no).as_str());
    let entry_name = sanitize_and_pascal_case(containing_module);
    let mut label = chars_of(entry_name.as_str());
    push_str(&mut label, "::BindGroup");
    push_decimal_usize(&mut label, group_no as usize);
    let ghost ev = names_view(layout_entries@);
    let mut lines: Vec<char> = Vec::new();
    let mut i: usize = 0;
    while i < layout_entries.len()
        invariant
            i <= layout_entries@.len(),
            ev == names_view(layout_entries@),
            lines@ == layout_entry_lines(ev, i as int),
        decreases layout_entries@.len() - i,
    {
        let ghost before = lines@;
        push_str(&mut lines, "            ");
        push_str(&mut lines, layout_entries[i].as_str());
        push_str(&mut lines, ",\n");
        assert(ev[i as int] == layout_entries@[i as int]@);
        assert(lines@ =~= before + "            "@ + ev[i as int] + ",\n"@);
        i += 1;
    }
    let mut out = chars_of("#[derive(Debug)]\npub struct ");
    push_all(&mut out, &name);
    push_str(&mut out, "(wgpu::BindGroup);\n\nimpl ");
    push_all(&mut out, &name);
    push_str(
        &mut out,
        " {\n    pub const LAYOUT_DESCRIPTOR: wgpu::BindGroupLayoutDescriptor<'static> = wgpu::BindGroupLayoutDescriptor {\n        label: Some(\"",
    );
    push_all(&mut out, &label);
    push_str(&mut out, "::LayoutDescriptor\"),\n        entries: &[\n");
    push_all(&mut out, &lines);
    push_str(
        &mut out,
        "        ],\n    };\n\n    pub fn get_bind_group_layout(device: &wgpu::Device) -> wgpu::BindGroupLayout {\n        device.create_bind_group_layout(&Self::LAYOUT_DESCRIPTOR)\n    }\n\n    pub fn from_bindings(device: &wgpu::Device, bindings: ",
    );
    push_all(&mut out, &name);
    push_str(
        &mut out,
        "Entries) -> Self {\n        let bind_group_layout = Self::get_bind_group_layout(&device);\n        let entries = bindings.as_array();\n        let bind_group = device.create_bind_group(&wgpu::BindGroupDescriptor {\n            label: Some(\"",
    );
    push_all(&mut out, &label);
    push_str(
        &mut out,
        "\"),\n            layout: &bind_group_layout,\n            entries: &entries,\n        });\n        Self(bind_group)\n    }\n\n    pub fn set(&self, pass: &mut impl SetBindGroup) {\n        pass.set_bind_group(",
    );
    push_decimal_usize(&mut out, group_no as usize);
    push_str(&mut out, ", &self.0, &[]);\n    }\n}\n");
    assert(out@ =~= bind_group_struct_spec(
        wgpu_layout.name_prefix@,
        heck_pascal_case(ident_chars(containing_module@)),
        group_no,
        ev,
    ));
    string_of(&out)
}


/// The parameters and body of `set_bind_group` shared by the trait's
/// declaration and its impls.
pub open spec fn set_bind_group_signature() -> Seq<char> {
    "    fn set_bind_group(\n        &mut self,\n        index: u32,\n        bind_group: &wgpu::BindGroup,\n        offsets: &[wgpu::DynamicOffset],\n    )"@
}

/// `SetBindGroup` for a `wgpu` pass type, forwarding to its own method.
pub open spec fn set_bind_group_impl(pass_type: Seq<char>) -> Seq<char> {
    "impl SetBindGroup for wgpu::"@ + pass_type + "<'_> {\n"@ + set_bind_group_signature()
        + " {\n        self.set_bind_group(index, bind_group, offsets);\n    }\n}\n"@
}

/// The doc attributes of the `WgpuBindGroups` struct.
pub open spec fn wgpu_bind_groups_doc() -> Seq<char> {
    "#[doc = \" Bind groups can be set individually using their set(render_pass) method, or all at once using `WgpuBindGroups::set`.\"]\n#[doc = \" For optimal performance with many draw calls, it's recommended to organize bindings into bind groups based on update frequency:\"]\n#[doc = \"   - Bind group 0: Least frequent updates (e.g. per frame resources)\"]\n#[doc = \"   - Bind group 1: More frequent updates\"]\n#[doc = \"   - Bind group 2: More frequent updates\"]\n#[doc = \"   - Bind group 3: Most frequent updates (e.g. per draw resources)\"]\n#[derive(Debug, Copy, Clone)]\npub struct WgpuBindGroups<'a> {\n"@
}

/// The type of the field of group `g`: the group's bind group type, by
/// its fully qualified name when the group is shared.
pub open spec fn group_type_name(prefix: Seq<char>, field: (usize, Option<Seq<char>>)) -> Seq<char> {
    let name = prefix + decimal(field.0 as nat);
    match field.1 {
        Some(m) => qualified_item_name(m, name),
        None => name,
    }
}

/// The field lines, or the `set` lines, of the first `n` groups.
pub open spec fn group_lines(prefix: Seq<char>, fields: Seq<(usize, Option<Seq<char>>)>, set: bool, n: int) -> Seq<char>
    decreases n,
{
    if n <= 0 {
        Seq::empty()
    } else {
        group_lines(prefix, fields, set, n - 1) + if set {
            "        self.bind_group"@ + decimal(fields[n - 1].0 as nat) + ".set(pass);\n"@
        } else {
            "    pub bind_group"@ + decimal(fields[n - 1].0 as nat) + ": &'a "@ + group_type_name(prefix, fields[n - 1])
                + ",\n"@
        }
    }
}

/// The Rust text of an extra item of an entry point's bind groups: the
/// `SetBindGroup` trait; its impls for compute passes, render passes and
/// render bundle encoders; or the `WgpuBindGroups` struct, with a field per
/// group and `set`, which sets every group on a pass. `prefix` starts the
/// names of the bind group types.
pub open spec fn extra_item_text_spec(prefix: Seq<char>, item: ExtraItemView) -> Seq<char> {
    match item {
        ExtraItemView::SetBindGroupTrait => "pub trait SetBindGroup {\n"@ + set_bind_group_signature() + ";\n}\n"@,
        ExtraItemView::ComputePassImpl => set_bind_group_impl("ComputePass"@),
        ExtraItemView::RenderPassImpl => set_bind_group_impl("RenderPass"@),
        ExtraItemView::RenderBundleEncoderImpl => set_bind_group_impl("RenderBundleEncoder"@),
        ExtraItemView::WgpuBindGroups(_, fields) => wgpu_bind_groups_doc() + group_lines(
            prefix,
            fields,
            false,
            fields.len() as int,
        ) + "}\n\nimpl<'a> WgpuBindGroups<'a> {\n    pub fn set(&self, pass: &mut impl SetBindGroup) {\n"@
            + group_lines(prefix, fields, true, fields.len() as int) + "    }\n}\n"@,
    }
}

/// Appends `SetBindGroup` for a `wgpu` pass type.
fn push_set_bind_group_impl(out: &mut Vec<char>, pass_type: &str)
    ensures
        final(out)@ == old(out)@ + set_bind_group_impl(pass_type@),
{
    let ghost before = out@;
    push_str(out, "impl SetBindGroup for wgpu::");
    push_str(out, pass_type);
    push_str(out, "<'_> {\n");
    push_str(
        out,
        "    fn set_bind_group(\n        &mut self,\n        index: u32,\n        bind_group: &wgpu::BindGroup,\n        offsets: &[wgpu::DynamicOffset],\n    )",
    );
    push_str(out, " {\n        self.set_bind_group(index, bind_group, offsets);\n    }\n}\n");
    assert(out@ =~= before + set_bind_group_impl(pass_type@));
}

/// The Rust text of an extra item; `generator` names the bind group types.
pub fn extra_item_text(generator: &BindGroupLayoutGenerator, item: &BindGroupsExtraItem) -> (r: String)
    ensures
        r@ == extra_item_text_spec(generator.name_prefix@, item@),
{
    let mut out: Vec<char> = Vec::new();
    match item {
        BindGroupsExtraItem::SetBindGroupTrait => {
            push_str(&mut out, "pub trait SetBindGroup {\n");
            push_str(
                &mut out,
                "    fn set_bind_group(\n        &mut self,\n        index: u32,\n        bind_group: &wgpu::BindGroup,\n        offsets: &[wgpu::DynamicOffset],\n    )",
            );
            push_str(&mut out, ";\n}\n");
        },
        BindGroupsExtraItem::ComputePassImpl => push_set_bind_group_impl(&mut out, "ComputePass"),
        BindGroupsExtraItem::RenderPassImpl => push_set_bind_group_impl(&mut out, "RenderPass"),
        BindGroupsExtraItem::RenderBundleEncoderImpl => push_set_bind_group_impl(&mut out, "RenderBundleEncoder"),
        BindGroupsExtraItem::WgpuBindGroups { containing_module, fields } => {
            let ghost fv = Seq::new(fields@.len(), |i: int| (fields@[i].group_no, opt_chars(fields@[i].common_module)));
            let ghost prefix = generator.name_prefix@;
            push_str(
                &mut out,
                "#[doc = \" Bind groups can be set individually using their set(render_pass) method, or all at once using `WgpuBindGroups::set`.\"]\n#[doc = \" For optimal performance with many draw calls, it's recommended to organize bindings into bind groups based on update frequency:\"]\n#[doc = \"   - Bind group 0: Least frequent updates (e.g. per frame resources)\"]\n#[doc = \"   - Bind group 1: More frequent updates\"]\n#[doc = \"   - Bind group 2: More frequent updates\"]\n#[doc = \"   - Bind group 3: Most frequent updates (e.g. per draw resources)\"]\n#[derive(Debug, Copy, Clone)]\npub struct WgpuBindGroups<'a> {\n",
            );
            let mut field_lines: Vec<char> = Vec::new();
            let mut set_lines: Vec<char> = Vec::new();
            let mut i: usize = 0;
            while i < fields.len()
                invariant
                    i <= fields@.len(),
                    fv == Seq::new(fields@.len(), |k: int| (fields@[k].group_no, opt_chars(fields@[k].common_module))),
                    prefix == generator.name_prefix@,
                    field_lines@ == group_lines(prefix, fv, false, i as int),
                    set_lines@ == group_lines(prefix, fv, true, i as int),
                decreases fields@.len() - i,
            {
                let f = &fields[i];
                assert(fv[i as int] == (f.group_no, opt_chars(f.common_module)));
                let mut name_chars = chars_of(generator.name_prefix.as_str());
                push_decimal_usize(&mut name_chars, f.group_no);
                let name = string_of(&name_chars);
                let ghost fb = field_lines@;
                let ghost sb = set_lines@;
                push_str(&mut field_lines, "    pub bind_group");
                push_decimal_usize(&mut field_lines, f.group_no);
                push_str(&mut field_lines, ": &'a ");
                match &f.common_module {
                    Some(m) => {
                        let path = RustSourceItemPath {
                            module: string_of(&chars_of(m.as_str())),
                            name,
                        };
                        push_str(&mut field_lines, path.get_fully_qualified_name().as_str());
                    },
                    None => push_str(&mut field_lines, name.as_str()),
                }
                push_str(&mut field_lines, ",\n");
                push_str(&mut set_lines, "        self.bind_group");
                push_decimal_usize(&mut set_lines, f.group_no);
                push_str(&mut set_lines, ".set(pass);\n");
                assert(field_lines@ =~= fb + ("    pub bind_group"@ + decimal(fv[i as int].0 as nat) + ": &'a "@
                    + group_type_name(prefix, fv[i as int]) + ",\n"@));
                assert(set_lines@ =~= sb + ("        self.bind_group"@ + decimal(fv[i as int].0 as nat)
                    + ".set(pass);\n"@));
                i += 1;
            }
            push_all(&mut out, &field_lines);
            push_str(&mut out, "}\n\nimpl<'a> WgpuBindGroups<'a> {\n    pub fn set(&self, pass: &mut impl SetBindGroup) {\n");
            push_all(&mut out, &set_lines);
            push_str(&mut out, "    }\n}\n");
        },
    }
    assert(out@ =~= extra_item_text_spec(generator.name_prefix@, item@));
    string_of(&out)
}

} // verus!
