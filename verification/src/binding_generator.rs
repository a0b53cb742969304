//! How bind groups and pipeline layouts are written for a GPU API: the
//! names of the generated types and the text of the API's types and entry
//! constructors. The generator for `wgpu` is the default.

use vstd::prelude::*;

use crate::fwgsl_loader::{decimal, digit_to_char};
use crate::options::{BindResourceType, WgslTypeSerializeStrategy};
use crate::type_maps::OverrideStruct;
use crate::wgsl_type::WgslType;
use crate::text::{chars_of, push_all, string_of};

verus! {

/// How an entry of a bind group is constructed.
#[derive(Debug, Clone, Copy, PartialEq, Eq, Structural)]
pub enum EntryConstructor {
    /// As a `wgpu::BindGroupEntry`.
    Wgpu,
}

/// Writes the bind group layouts.
pub struct BindGroupLayoutGenerator {
    /// The prefix of the bind group type names.
    pub name_prefix: String,
    /// Whether the generated entry types take a lifetime.
    pub uses_lifetime: bool,
    /// The text of the entry type.
    pub entry_struct_type: String,
    /// How an entry is constructed.
    pub entry_constructor: EntryConstructor,
    /// The text of the parameter type of each kind of resource.
    pub binding_type_map: Vec<(BindResourceType, String)>,
}

/// Writes the pipeline layouts.
pub struct PipelineLayoutGenerator {
    /// The name of the pipeline layout type.
    pub layout_name: String,
    /// The text of the bind group layout type.
    pub bind_group_layout_type: String,
}

/// A generator of bindings for a GPU API.
pub struct BindingGenerator {
    pub bind_group_layout: BindGroupLayoutGenerator,
    pub pipeline_layout: PipelineLayoutGenerator,
}

/// A source of a bindings generator, which users implement for their own
/// GPU API.
pub trait GetBindingsGeneratorConfig {
    /// Whether `g` is the generator that this source gives.
    spec fn generates(&self, g: BindingGenerator) -> bool;

    /// The generator of this source.
    fn get_generator_config(self) -> (r: BindingGenerator)
        ensures
            self.generates(r),
    ;
}

impl GetBindingsGeneratorConfig for BindingGenerator {
    /// A generator gives itself.
    open spec fn generates(&self, g: BindingGenerator) -> bool {
        g == *self
    }

    fn get_generator_config(self) -> (r: BindingGenerator)
        ensures
            r == self,
    {
        self
    }
}

/// Appends the decimal digits of `n`.
pub fn push_decimal_usize(out: &mut Vec<char>, n: usize)
    ensures
        final(out)@ == old(out)@ + decimal(n as nat),
    decreases n,
{
    if n >= 10 {
        push_decimal_usize(out, n / 10);
    }
    out.push(digit_to_char((n % 10) as u32));
}

/// The abstract entries of a map from kinds of resources to type texts.
pub open spec fn type_map_view(m: Seq<(BindResourceType, String)>) -> Seq<(BindResourceType, Seq<char>)> {
    Seq::new(m.len(), |i: int| (m[i].0, m[i].1@))
}

/// The type text of the last entry for a kind of resource, if there is one.
pub open spec fn last_binding_type(m: Seq<(BindResourceType, Seq<char>)>, resource_type: BindResourceType) -> Option<
    Seq<char>,
>
    decreases m.len(),
{
    if m.len() == 0 {
        None
    } else if m.last().0 == resource_type {
        Some(m.last().1)
    } else {
        last_binding_type(m.drop_last(), resource_type)
    }
}

impl BindGroupLayoutGenerator {
    /// The name of the bind group type of group `group_index`: the prefix
    /// followed by the number.
    pub fn bind_group_name_ident(&self, group_index: u32) -> (r: String)
        ensures
            r@ == self.name_prefix@ + decimal(group_index as nat),
    {
        let mut out = chars_of(self.name_prefix.as_str());
        push_decimal_usize(&mut out, group_index as usize);
        string_of(&out)
    }

    /// The name of the entries type of group `group_index`: the prefix,
    /// the number, then `Entries`.
    pub fn bind_group_entries_struct_name_ident(&self, group_index: u32) -> (r: String)
        ensures
            r@ == self.name_prefix@ + decimal(group_index as nat) + seq!['E', 'n', 't', 'r', 'i', 'e', 's'],
    {
        let mut out = chars_of(self.name_prefix.as_str());
        push_decimal_usize(&mut out, group_index as usize);
        let suffix = chars_of("Entries");
        proof {
            reveal_strlit("Entries");
            assert(suffix@ =~= seq!['E', 'n', 't', 'r', 'i', 'e', 's']);
        }
        push_all(&mut out, &suffix);
        string_of(&out)
    }

    /// The text of the parameter type of a kind of resource, if the map has
    /// one: the last entry for it.
    pub fn binding_type(&self, resource_type: BindResourceType) -> (r: Option<String>)
        ensures
            match r {
                Some(t) => exists|i: int|
                    0 <= i < self.binding_type_map@.len() && self.binding_type_map@[i].0 == resource_type
                        && #[trigger] self.binding_type_map@[i].1@ == t@ && forall|k: int|
                        i < k < self.binding_type_map@.len() ==> #[trigger] self.binding_type_map@[k].0
                            != resource_type,
                None => forall|i: int|
                    0 <= i < self.binding_type_map@.len() ==> #[trigger] self.binding_type_map@[i].0
                        != resource_type,
            },
            match r {
                Some(t) => last_binding_type(type_map_view(self.binding_type_map@), resource_type) == Some(t@),
                None => last_binding_type(type_map_view(self.binding_type_map@), resource_type) is None,
            },
    {
        let ghost mv = type_map_view(self.binding_type_map@);
        let mut i = self.binding_type_map.len();
        assert(mv.take(i as int) =~= mv);
        while i > 0
            invariant
                i <= self.binding_type_map@.len(),
                mv == type_map_view(self.binding_type_map@),
                last_binding_type(mv, resource_type) == last_binding_type(mv.take(i as int), resource_type),
                forall|k: int| i <= k < self.binding_type_map@.len() ==> #[trigger] self.binding_type_map@[k].0 != resource_type,
            decreases i,
        {
            assert(mv.take(i as int).drop_last() =~= mv.take(i - 1));
            if self.binding_type_map[i - 1].0 == resource_type {
                let t = self.binding_type_map[i - 1].1.clone();
                assert(self.binding_type_map@[i - 1].1@ == t@);
                return Some(t);
            }
            i -= 1;
        }
        None
    }

    /// The text that constructs the entry of binding `binding` from the
    /// variable `binding_var` that holds a resource of the given kind.
    pub fn construct_entry(&self, binding: usize, binding_var: &str, resource_type: BindResourceType) -> (r: String)
        ensures
            r@ == wgpu_entry(binding as nat, binding_var@, resource_type),
    {
        match self.entry_constructor {
            EntryConstructor::Wgpu => wgpu_entry_exec(binding, binding_var, resource_type),
        }
    }
}

/// The `wgpu::BindingResource` variant for a kind of resource.
pub open spec fn wgpu_resource_variant(t: BindResourceType) -> Seq<char> {
    match t {
        BindResourceType::Buffer => seq!['B', 'u', 'f', 'f', 'e', 'r'],
        BindResourceType::Sampler => seq!['S', 'a', 'm', 'p', 'l', 'e', 'r'],
        BindResourceType::Texture => seq!['T', 'e', 'x', 't', 'u', 'r', 'e', 'V', 'i', 'e', 'w'],
        BindResourceType::AccelerationStructure => seq![
            'A', 'c', 'c', 'e', 'l', 'e', 'r', 'a', 't', 'i', 'o', 'n', 'S', 't', 'r', 'u', 'c', 't',
            'u', 'r', 'e',
        ],
        BindResourceType::BufferArray => seq!['B', 'u', 'f', 'f', 'e', 'r', 'A', 'r', 'r', 'a', 'y'],
        BindResourceType::SamplerArray => seq![
            'S', 'a', 'm', 'p', 'l', 'e', 'r', 'A', 'r', 'r', 'a', 'y',
        ],
        BindResourceType::TextureArray => seq![
            'T', 'e', 'x', 't', 'u', 'r', 'e', 'V', 'i', 'e', 'w', 'A', 'r', 'r', 'a', 'y',
        ],
    }
}

/// `wgpu::BindGroupEntry { binding: N, resource: wgpu::BindingResource::V(var) }`.
pub open spec fn wgpu_entry(binding: nat, var: Seq<char>, t: BindResourceType) -> Seq<char> {
    "wgpu::BindGroupEntry { binding: "@ + decimal(binding) + ", resource: wgpu::BindingResource::"@
        + wgpu_resource_variant(t) + seq!['('] + var + ") }"@
}

/// The name of the `wgpu::BindingResource` variant for a kind of resource.
fn wgpu_resource_variant_exec(t: BindResourceType) -> (r: Vec<char>)
    ensures
        r@ == wgpu_resource_variant(t),
{
    let r = match t {
        BindResourceType::Buffer => chars_of("Buffer"),
        BindResourceType::Sampler => chars_of("Sampler"),
        BindResourceType::Texture => chars_of("TextureView"),
        BindResourceType::AccelerationStructure => chars_of("AccelerationStructure"),
        BindResourceType::BufferArray => chars_of("BufferArray"),
        BindResourceType::SamplerArray => chars_of("SamplerArray"),
        BindResourceType::TextureArray => chars_of("TextureViewArray"),
    };
    proof {
        reveal_strlit("Buffer");
        reveal_strlit("Sampler");
        reveal_strlit("TextureView");
        reveal_strlit("AccelerationStructure");
        reveal_strlit("BufferArray");
        reveal_strlit("SamplerArray");
        reveal_strlit("TextureViewArray");
        assert(r@ =~= wgpu_resource_variant(t));
    }
    r
}

/// The text that constructs a `wgpu` bind group entry.
fn wgpu_entry_exec(binding: usize, binding_var: &str, resource_type: BindResourceType) -> (r: String)
    ensures
        r@ == wgpu_entry(binding as nat, binding_var@, resource_type),
{
    let mut out = chars_of("wgpu::BindGroupEntry { binding: ");
    push_decimal_usize(&mut out, binding);
    push_all(&mut out, &chars_of(", resource: wgpu::BindingResource::"));
    push_all(&mut out, &wgpu_resource_variant_exec(resource_type));
    out.push('(');
    push_all(&mut out, &chars_of(binding_var));
    push_all(&mut out, &chars_of(") }"));
    proof {
        assert(out@ =~= wgpu_entry(binding as nat, binding_var@, resource_type));
    }
    string_of(&out)
}

/// The bind group layout generator for `wgpu`: type names `WgpuBindGroupN`
/// with a lifetime, `wgpu::BindGroupEntry` entries, and the `wgpu` type of
/// each kind of resource.
pub open spec fn is_wgpu_bind_group_layout_generator(r: &BindGroupLayoutGenerator) -> bool {
    &&& r.name_prefix@ == "WgpuBindGroup"@
    &&& r.uses_lifetime
    &&& r.entry_struct_type@ == "wgpu::BindGroupEntry<'a>"@
    &&& r.entry_constructor == EntryConstructor::Wgpu
    &&& r.binding_type_map@.len() == 7
    &&& r.binding_type_map@[0].0 == BindResourceType::Buffer
    &&& r.binding_type_map@[0].1@ == "wgpu::BufferBinding<'a>"@
    &&& r.binding_type_map@[1].0 == BindResourceType::Sampler
    &&& r.binding_type_map@[1].1@ == "&'a wgpu::Sampler"@
    &&& r.binding_type_map@[2].0 == BindResourceType::Texture
    &&& r.binding_type_map@[2].1@ == "&'a wgpu::TextureView"@
    &&& r.binding_type_map@[3].0 == BindResourceType::AccelerationStructure
    &&& r.binding_type_map@[3].1@ == "&'a wgpu::Tlas"@
    &&& r.binding_type_map@[4].0 == BindResourceType::BufferArray
    &&& r.binding_type_map@[4].1@ == "&'a [wgpu::BufferBinding<'a>]"@
    &&& r.binding_type_map@[5].0 == BindResourceType::SamplerArray
    &&& r.binding_type_map@[5].1@ == "&'a [&'a wgpu::Sampler]"@
    &&& r.binding_type_map@[6].0 == BindResourceType::TextureArray
    &&& r.binding_type_map@[6].1@ == "&'a [&'a wgpu::TextureView]"@
}

/// The pipeline layout generator for `wgpu`.
pub open spec fn is_wgpu_pipeline_layout_generator(r: &PipelineLayoutGenerator) -> bool {
    &&& r.layout_name@ == "WgpuPipelineLayout"@
    &&& r.bind_group_layout_type@ == "wgpu::BindGroupLayout"@
}

/// The bindings generator for `wgpu`.
pub struct WgpuGetBindingsGeneratorConfig;

impl WgpuGetBindingsGeneratorConfig {
    /// The bind group layout generator for `wgpu`.
    pub fn get_bind_group_layout_generator_config() -> (r: BindGroupLayoutGenerator)
        ensures
            is_wgpu_bind_group_layout_generator(&r),
    {
        let mut map: Vec<(BindResourceType, String)> = Vec::new();
        map.push((BindResourceType::Buffer, string_of(&chars_of("wgpu::BufferBinding<'a>"))));
        map.push((BindResourceType::Sampler, string_of(&chars_of("&'a wgpu::Sampler"))));
        map.push((BindResourceType::Texture, string_of(&chars_of("&'a wgpu::TextureView"))));
        map.push((BindResourceType::AccelerationStructure, string_of(&chars_of("&'a wgpu::Tlas"))));
        map.push((BindResourceType::BufferArray, string_of(&chars_of("&'a [wgpu::BufferBinding<'a>]"))));
        map.push((BindResourceType::SamplerArray, string_of(&chars_of("&'a [&'a wgpu::Sampler]"))));
        map.push((BindResourceType::TextureArray, string_of(&chars_of("&'a [&'a wgpu::TextureView]"))));
        BindGroupLayoutGenerator {
            name_prefix: string_of(&chars_of("WgpuBindGroup")),
            uses_lifetime: true,
            entry_struct_type: string_of(&chars_of("wgpu::BindGroupEntry<'a>")),
            entry_constructor: EntryConstructor::Wgpu,
            binding_type_map: map,
        }
    }

    /// The pipeline layout generator for `wgpu`.
    pub fn get_pipeline_layout_generator() -> (r: PipelineLayoutGenerator)
        ensures
            is_wgpu_pipeline_layout_generator(&r),
    {
        PipelineLayoutGenerator {
            layout_name: string_of(&chars_of("WgpuPipelineLayout")),
            bind_group_layout_type: string_of(&chars_of("wgpu::BindGroupLayout")),
        }
    }
}

impl GetBindingsGeneratorConfig for WgpuGetBindingsGeneratorConfig {
    /// The `wgpu` source gives the `wgpu` bind group and pipeline layout
    /// generators.
    open spec fn generates(&self, g: BindingGenerator) -> bool {
        &&& is_wgpu_bind_group_layout_generator(&g.bind_group_layout)
        &&& is_wgpu_pipeline_layout_generator(&g.pipeline_layout)
    }

    fn get_generator_config(self) -> (r: BindingGenerator)
        ensures
            is_wgpu_bind_group_layout_generator(&r.bind_group_layout),
            is_wgpu_pipeline_layout_generator(&r.pipeline_layout),
    {
        BindingGenerator {
            bind_group_layout: Self::get_bind_group_layout_generator_config(),
            pipeline_layout: Self::get_pipeline_layout_generator(),
        }
    }
}

impl Default for BindingGenerator {
    fn default() -> (r: BindingGenerator)
        ensures
            is_wgpu_bind_group_layout_generator(&r.bind_group_layout),
            is_wgpu_pipeline_layout_generator(&r.pipeline_layout),
    {
        BindingGenerator {
            bind_group_layout: WgpuGetBindingsGeneratorConfig::get_bind_group_layout_generator_config(),
            pipeline_layout: WgpuGetBindingsGeneratorConfig::get_pipeline_layout_generator(),
        }
    }
}

/// The part of the options builder that holds the bindings generators and
/// the type maps.
pub struct WgslBindgenOptionBuilder {
    /// The generator for bindings that the default one does not cover;
    /// unset until a setter is called.
    pub extra_binding_generator: Option<Option<BindingGenerator>>,
    /// How the generated types are serialized; unset until a setter is
    /// called.
    pub serialization_strategy: Option<WgslTypeSerializeStrategy>,
    /// The Rust types of WGSL vectors, matrices and structs; unset until a
    /// map is added.
    pub type_map: Option<Vec<(WgslType, String)>>,
    /// The structs whose Rust type is given.
    pub override_struct: Vec<OverrideStruct>,
}

impl WgslBindgenOptionBuilder {
    /// Sets the generator for extra bindings from a generator source.
    pub fn extra_binding_generator<C: GetBindingsGeneratorConfig>(&mut self, config: C) -> (r: &mut Self)
        ensures
            r.extra_binding_generator matches Some(Some(g)) && config.generates(g),
            *final(self) == *final(r),
            r.serialization_strategy == old(self).serialization_strategy,
            r.type_map == old(self).type_map,
            r.override_struct == old(self).override_struct,
    {
        let generator = Some(config.get_generator_config());
        self.extra_binding_generator = Some(generator);
        self
    }
}

} // verus!
