use vstd::prelude::*;

pub mod adt;
pub mod adt_text;
pub mod bind_group;
pub mod bind_group_text;
pub mod binding_generator;
pub mod binding_layout;
pub mod collections;
pub mod compile_test;
pub mod contents_hash;
pub mod crawl;
pub mod deptree;
pub mod fwgsl_loader;
pub mod immediate_vars;
pub mod layout;
pub mod module_path_resolver;
pub mod name_demangle;
pub mod naga_oil;
pub mod naming;
pub mod options;
pub mod parse_imports;
pub mod pipeline;
pub mod overrides;
pub mod paths;
pub mod rust_mod_builder;
pub mod rust_type;
pub mod rust_type_info;
pub mod shader_registry;
pub mod source_file;
pub mod struct_layout;
pub mod struct_text;
pub mod text;
pub mod token_utils;
pub mod type_maps;
pub mod types;
pub mod wgsl;
pub mod wgsl_type;

verus! {

} // verus!
