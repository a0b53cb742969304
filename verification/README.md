# wgsl_bindgen

The verified core of a generator of typesafe Rust bindings for WGSL shaders
used with `wgpu`. The functions in `src/` are checked by Verus against
their `requires`/`ensures` contracts, except the small functions marked
`#[verifier::external_body]` that call `std`, `indexmap`, `heck`, `case`,
`blake3`, `regex` or `proc-macro2`: their contracts are trusted, and their doc comments say
what they claim. `app/` holds the parts that read files, run processes,
and parse the generated text into `proc_macro2` token streams.

## Layout of `src/`

- `text`, `paths`, `types`: character sequences, path handling and the path
  and module-name types that the rest is written over.
- `parse_imports`, `source_file`, `module_path_resolver`, `deptree`,
  `crawl`: finding the import statements of a shader, the candidate files
  of each import, what each import resolves to while the files are crawled,
  and the dependency tree of the entry points with the full dependencies of
  each.
- `name_demangle`, `naga_oil`, `naming`: turning WGSL names (WESL-mangled
  or naga_oil-decorated) into Rust item paths and identifiers.
- `layout`, `wgsl_type`, `rust_type_info`, `rust_type`, `struct_layout`,
  `struct_text`: the memory layout of WGSL types, their Rust types, the
  type maps (`glam`, `nalgebra`, struct overrides) and regex-chosen field
  overrides (`type_maps`, `overrides`), the padded Rust structs that match
  the layout,
  and the text of their constructors, init structs and padded array
  elements.
- `bind_group`, `bind_group_text`, `binding_generator`, `binding_layout`,
  `pipeline`, `wgsl`: bind groups per entry point (consecutive, bindings
  unique, shared groups living in their module), their types and layout
  entries, the pipeline layout, and the shader registry (`shader_registry`).
- `adt`, `adt_text`, `fwgsl_loader`: algebraic data types annotated in
  compiled shaders, and the Rust enums that mirror them.
- `immediate_vars`: keeping `var<immediate>` declarations through the WESL
  compiler.
- `rust_mod_builder`, `options`, `compile_test`, `contents_hash`: the module
  tree of the output, the options and header of the generated file, and the
  hash that decides when the output is written again.

The `law_*` proof functions state properties that span several functions,
such as the struct layout filling the WGSL layout, each file of the
dependency tree being parsed once, or a written header keeping the output
current.
