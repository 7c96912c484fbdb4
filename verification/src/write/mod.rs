//! The generator.

use vstd::prelude::*;

use crate::cxx_header::CxxHeader;
use crate::includes::IncludesView;
use crate::nesting::{law_blocks_closed, law_file_is_nested};
use crate::out::{
    base, close, group_emit, law_emit_in_groups, lemma_emit_content, lemma_emit_nothing, open,
    pieces_if, render, section, text, OutFile, OutView, Piece,
};
use crate::syntax::{Api, Types};
use crate::text::{concat, lemma_concat_take, views};
use crate::write::bridge::{
    exception_glue_pieces, has_throwing_cxx, includes_for_runtime, includes_for_types,
    instantiation_pieces, needs_of, runtime_pieces, write_exception_glue,
    write_generic_instantiations, write_include_cxxbridge, write_includes,
};
use crate::write::functions::{
    cxx_function_shim_text, rust_function_decl_text, rust_function_shim_text,
    write_cxx_function_shim, write_rust_function_decl, write_rust_function_shim,
};
use crate::write::namespace::{
    namespace_end_text, namespace_start_text, write_namespace_end, write_namespace_start,
};
use crate::write::structs::{
    struct_decl_text, struct_text, struct_using_text, write_struct, write_struct_decl,
    write_struct_using,
};

pub mod bridge;
pub mod functions;
pub mod namespace;
pub mod structs;
pub mod templates;
pub mod types;

verus! {

broadcast use group_emit;

/// Whether every type that a file spells for an item can be written in C++. A header does not
/// spell the types of C++ functions.
pub open spec fn api_printable(api: Api, header: bool) -> bool {
    match api {
        Api::Struct(strct) => strct.printable(),
        Api::CxxFunction(efn) => header || efn.printable(),
        Api::RustFunction(efn) => efn.printable(),
        _ => true,
    }
}

/// Whether every type that a file spells for the items of a bridge can be written in C++.
pub open spec fn all_apis_printable(apis: Seq<Api>, header: bool) -> bool {
    forall|i: int| 0 <= i < apis.len() ==> api_printable(#[trigger] apis[i], header)
}

/// The headers that an item asks for.
pub open spec fn custom_paths(api: Api) -> Seq<Seq<char>> {
    match api {
        Api::Include(path) => seq![path@],
        _ => Seq::empty(),
    }
}

/// The declaration of the type that an item introduces.
pub open spec fn decl_pieces(api: Api) -> Seq<Piece> {
    match api {
        Api::Struct(strct) => text(struct_decl_text(strct.ident@)),
        Api::CxxType(ety) => text(struct_using_text(ety.ident@)),
        Api::RustType(ety) => text(struct_decl_text(ety.ident@)),
        _ => Seq::empty(),
    }
}

/// The definition of the struct that an item introduces.
pub open spec fn struct_pieces(api: Api) -> Seq<Piece> {
    match api {
        Api::Struct(strct) => section() + text(struct_text(strct)),
        _ => Seq::empty(),
    }
}

/// What stands at the boundary for the function that an item introduces.
pub open spec fn boundary_pieces(
    namespace: Seq<Seq<char>>,
    api: Api,
    types: Types,
) -> Seq<Piece> {
    match api {
        Api::CxxFunction(efn) => section() + text(cxx_function_shim_text(namespace, efn, types)),
        Api::RustFunction(efn) => section() + text(rust_function_decl_text(namespace, efn, types)),
        _ => Seq::empty(),
    }
}

/// What C++ calls for the Rust function that an item introduces.
pub open spec fn shim_pieces(
    namespace: Seq<Seq<char>>,
    header: bool,
    api: Api,
    types: Types,
) -> Seq<Piece> {
    match api {
        Api::RustFunction(efn) => section() + text(
            rust_function_shim_text(namespace, header, efn, types),
        ),
        _ => Seq::empty(),
    }
}

/// What stands at the boundary, in a block of its own.
pub open spec fn boundary_block(
    namespace: Seq<Seq<char>>,
    apis: Seq<Api>,
    types: Types,
) -> Seq<Piece> {
    open("extern \"C\""@) + exception_glue_pieces(apis) + concat(
        apis.map_values(|api: Api| boundary_pieces(namespace, api, types)),
    ) + close("extern \"C\""@)
}

/// The start of a file: the mark of a header.
pub open spec fn start_pieces(header: bool) -> Seq<Piece> {
    pieces_if(header, text("#pragma once\n"@))
}

/// The end of a file: a header has no instances of templates.
pub open spec fn end_pieces(
    namespace: Seq<Seq<char>>,
    types: Types,
    header: bool,
) -> Seq<Piece> {
    pieces_if(!header, section() + instantiation_pieces(namespace, types.all@))
}

/// A file, but for the lines that ask for headers.
pub open spec fn file_pieces(
    namespace: Seq<Seq<char>>,
    apis: Seq<Api>,
    types: Types,
    header: bool,
    cxx: Seq<char>,
) -> Seq<Piece> {
    start_pieces(header)
        + runtime_pieces(cxx, needs_of(apis, types, header))
        + section()
        + concat(namespace.map_values(|name: Seq<char>| text(namespace_start_text(name))))
        + section()
        + concat(apis.map_values(|api: Api| decl_pieces(api)))
        + concat(apis.map_values(|api: Api| struct_pieces(api)))
        + pieces_if(!header, boundary_block(namespace, apis, types))
        + concat(apis.map_values(|api: Api| shim_pieces(namespace, header, api, types)))
        + section()
        + concat(namespace.reverse().map_values(|name: Seq<char>| text(namespace_end_text(name))))
        + end_pieces(namespace, types, header)
}

/// The headers that a file asks for.
pub open spec fn file_includes(apis: Seq<Api>, types: Types, header: bool) -> IncludesView {
    IncludesView {
        cstring: !header && has_throwing_cxx(apis),
        ..includes_for_runtime(
            includes_for_types(
                IncludesView {
                    custom: concat(apis.map_values(|api: Api| custom_paths(api))),
                    ..IncludesView::none()
                },
                types.all@,
            ),
            needs_of(apis, types, header),
        )
    }
}

/// Writes the mark of a header.
fn write_start(out: &mut OutFile)
    ensures
        final(out)@ == old(out)@.emit(start_pieces(old(out)@.header)),
        final(out).includes == old(out).includes,
{
    if out.header {
        out.write_str("#pragma once\n");
    } else {
        proof {
            lemma_emit_nothing(out@);
        }
    }
}

/// Asks for the headers that the items of a bridge name.
fn insert_custom(out: &mut OutFile, apis: &[Api])
    ensures
        final(out)@ == old(out)@,
        final(out).includes@ == (IncludesView {
            custom: old(out).includes@.custom + concat(
                apis@.map_values(|api: Api| custom_paths(api)),
            ),
            ..old(out).includes@
        }),
{
    let ghost parts = apis@.map_values(|api: Api| custom_paths(api));
    let mut i: usize = 0;
    proof {
        assert(out.includes@.custom + concat(parts.take(0)) =~= out.includes@.custom);
    }
    while i < apis.len()
        invariant
            i <= apis.len(),
            parts == apis@.map_values(|api: Api| custom_paths(api)),
            out@ == old(out)@,
            out.includes@ == (IncludesView {
                custom: old(out).includes@.custom + concat(parts.take(i as int)),
                ..old(out).includes@
            }),
        decreases apis.len() - i,
    {
        let ghost before = out.includes@.custom;
        if let Api::Include(path) = &apis[i] {
            out.includes.insert(path.clone());
        }
        proof {
            lemma_concat_take(parts, i as int);
            assert(out.includes@.custom =~= before + parts[i as int]);
            assert(out.includes@.custom =~= old(out).includes@.custom + concat(
                parts.take(i + 1),
            ));
        }
        i += 1;
    }
    proof {
        assert(parts.take(i as int) =~= parts);
    }
}

/// Writes the lines that open the namespace.
fn write_namespace_starts(out: &mut OutFile)
    ensures
        final(out)@ == old(out)@.emit(
            concat(
                old(out)@.namespace.map_values(
                    |name: Seq<char>| text(namespace_start_text(name)),
                ),
            ),
        ),
        final(out).includes == old(out).includes,
{
    let ghost start = out@;
    let ghost parts = start.namespace.map_values(
        |name: Seq<char>| text(namespace_start_text(name)),
    );
    let mut i: usize = 0;
    proof {
        lemma_emit_nothing(start);
    }
    while i < out.namespace.len()
        invariant
            i <= out.namespace.len(),
            out@.namespace == start.namespace,
            parts == start.namespace.map_values(
                |name: Seq<char>| text(namespace_start_text(name)),
            ),
            out@ == start.emit(concat(parts.take(i as int))),
            out.includes == old(out).includes,
        decreases out.namespace.len() - i,
    {
        let name = out.namespace[i].clone();
        proof {
            assert(name@ == out@.namespace[i as int]);
        }
        write_namespace_start(out, name.as_str());
        proof {
            law_emit_in_groups(start, concat(parts.take(i as int)), parts[i as int]);
            lemma_concat_take(parts, i as int);
        }
        i += 1;
    }
    proof {
        assert(parts.take(i as int) =~= parts);
    }
}

/// Writes the lines that close the namespace, innermost first.
fn write_namespace_ends(out: &mut OutFile)
    ensures
        final(out)@ == old(out)@.emit(
            concat(
                old(out)@.namespace.reverse().map_values(
                    |name: Seq<char>| text(namespace_end_text(name)),
                ),
            ),
        ),
        final(out).includes == old(out).includes,
{
    let ghost start = out@;
    let ghost parts = start.namespace.reverse().map_values(
        |name: Seq<char>| text(namespace_end_text(name)),
    );
    let mut i: usize = out.namespace.len();
    proof {
        lemma_emit_nothing(start);
    }
    while i > 0
        invariant
            i <= out.namespace.len(),
            out@.namespace == start.namespace,
            parts == start.namespace.reverse().map_values(
                |name: Seq<char>| text(namespace_end_text(name)),
            ),
            out@ == start.emit(concat(parts.take(start.namespace.len() - i))),
            out.includes == old(out).includes,
        decreases i,
    {
        i -= 1;
        let name = out.namespace[i].clone();
        proof {
            assert(name@ == out@.namespace[i as int]);
        }
        write_namespace_end(out, name.as_str());
        proof {
            let n = start.namespace.len() - i - 1;
            law_emit_in_groups(start, concat(parts.take(n)), parts[n]);
            lemma_concat_take(parts, n);
        }
    }
    proof {
        assert(parts.take(start.namespace.len() as int) =~= parts);
    }
}

/// Writes the declaration of the type that an item introduces.
fn write_decl(out: &mut OutFile, api: &Api)
    ensures
        final(out)@ == old(out)@.emit(decl_pieces(*api)),
        final(out).includes == old(out).includes,
{
    match api {
        Api::Struct(strct) => write_struct_decl(out, &strct.ident),
        Api::CxxType(ety) => write_struct_using(out, &ety.ident),
        Api::RustType(ety) => write_struct_decl(out, &ety.ident),
        _ => {
            proof {
                lemma_emit_nothing(out@);
            }
        },
    }
}

/// Writes the declarations of the types that a bridge introduces.
fn write_decls(out: &mut OutFile, apis: &[Api])
    ensures
        final(out)@ == old(out)@.emit(concat(apis@.map_values(|api: Api| decl_pieces(api)))),
        final(out).includes == old(out).includes,
{
    let ghost start = out@;
    let ghost parts = apis@.map_values(|api: Api| decl_pieces(api));
    let mut i: usize = 0;
    proof {
        lemma_emit_nothing(start);
    }
    while i < apis.len()
        invariant
            i <= apis.len(),
            parts == apis@.map_values(|api: Api| decl_pieces(api)),
            out@ == start.emit(concat(parts.take(i as int))),
            out.includes == old(out).includes,
        decreases apis.len() - i,
    {
        write_decl(out, &apis[i]);
        proof {
            law_emit_in_groups(start, concat(parts.take(i as int)), parts[i as int]);
            lemma_concat_take(parts, i as int);
        }
        i += 1;
    }
    proof {
        assert(parts.take(i as int) =~= parts);
    }
}

/// Writes the definition of the struct that an item introduces.
fn write_struct_section(out: &mut OutFile, api: &Api)
    requires
        api_printable(*api, old(out)@.header),
    ensures
        final(out)@ == old(out)@.emit(struct_pieces(*api)),
        final(out).includes == old(out).includes,
{
    if let Api::Struct(strct) = api {
        assert(base(out@));
        out.next_section();
        write_struct(out, strct);
    } else {
        proof {
            lemma_emit_nothing(out@);
        }
    }
}

/// Writes the definitions of the structs that a bridge introduces.
fn write_structs(out: &mut OutFile, apis: &[Api])
    requires
        all_apis_printable(apis@, old(out)@.header),
    ensures
        final(out)@ == old(out)@.emit(concat(apis@.map_values(|api: Api| struct_pieces(api)))),
        final(out).includes == old(out).includes,
{
    let ghost start = out@;
    let ghost parts = apis@.map_values(|api: Api| struct_pieces(api));
    let mut i: usize = 0;
    proof {
        lemma_emit_nothing(start);
    }
    while i < apis.len()
        invariant
            i <= apis.len(),
            all_apis_printable(apis@, start.header),
            parts == apis@.map_values(|api: Api| struct_pieces(api)),
            out@ == start.emit(concat(parts.take(i as int))),
            out.includes == old(out).includes,
        decreases apis.len() - i,
    {
        write_struct_section(out, &apis[i]);
        proof {
            law_emit_in_groups(start, concat(parts.take(i as int)), parts[i as int]);
            lemma_concat_take(parts, i as int);
        }
        i += 1;
    }
    proof {
        assert(parts.take(i as int) =~= parts);
    }
}

/// Writes what stands at the boundary for the function that an item introduces.
fn write_boundary(out: &mut OutFile, api: &Api, types: &Types)
    requires
        api_printable(*api, old(out)@.header),
        !old(out)@.header,
    ensures
        final(out)@ == old(out)@.emit(boundary_pieces(old(out)@.namespace, *api, *types)),
        final(out).includes@ == (IncludesView {
            cstring: old(out).includes@.cstring || (*api matches Api::CxxFunction(efn)
                && efn.throws),
            ..old(out).includes@
        }),
{
    match api {
        Api::CxxFunction(efn) => {
            assert(base(out@));
            out.next_section();
            write_cxx_function_shim(out, efn, types);
        },
        Api::RustFunction(efn) => {
            assert(base(out@));
            out.next_section();
            write_rust_function_decl(out, efn, types);
        },
        _ => {
            proof {
                lemma_emit_nothing(out@);
            }
        },
    }
}

/// Writes what stands at the boundary for the functions that a bridge introduces.
fn write_boundaries(out: &mut OutFile, apis: &[Api], types: &Types)
    requires
        all_apis_printable(apis@, old(out)@.header),
        !old(out)@.header,
    ensures
        final(out)@ == old(out)@.emit(
            concat(
                apis@.map_values(|api: Api| boundary_pieces(old(out)@.namespace, api, *types)),
            ),
        ),
        final(out).includes@ == (IncludesView {
            cstring: old(out).includes@.cstring || has_throwing_cxx(apis@),
            ..old(out).includes@
        }),
{
    let ghost start = out@;
    let ghost parts = apis@.map_values(|api: Api| boundary_pieces(start.namespace, api, *types));
    let mut i: usize = 0;
    proof {
        lemma_emit_nothing(start);
    }
    while i < apis.len()
        invariant
            i <= apis.len(),
            all_apis_printable(apis@, start.header),
            !start.header,
            parts == apis@.map_values(|api: Api| boundary_pieces(start.namespace, api, *types)),
            out@ == start.emit(concat(parts.take(i as int))),
            out.includes@ == (IncludesView {
                cstring: old(out).includes@.cstring || exists|j: int|
                    0 <= j < i && ((#[trigger] apis@[j]) matches Api::CxxFunction(efn)
                        && efn.throws),
                ..old(out).includes@
            }),
        decreases apis.len() - i,
    {
        write_boundary(out, &apis[i], types);
        proof {
            law_emit_in_groups(start, concat(parts.take(i as int)), parts[i as int]);
            lemma_concat_take(parts, i as int);
        }
        i += 1;
    }
    proof {
        assert(parts.take(i as int) =~= parts);
    }
}

/// Writes what stands at the boundary, in a block of its own; a header has none of it.
fn write_boundary_block(out: &mut OutFile, apis: &[Api], types: &Types)
    requires
        all_apis_printable(apis@, old(out)@.header),
    ensures
        final(out)@ == old(out)@.emit(
            pieces_if(!old(out)@.header, boundary_block(old(out)@.namespace, apis@, *types)),
        ),
        final(out).includes@ == (IncludesView {
            cstring: old(out).includes@.cstring || (!old(out)@.header && has_throwing_cxx(apis@)),
            ..old(out).includes@
        }),
{
    if !out.header {
        assert(base(out@));
        out.begin_block("extern \"C\"");
        write_exception_glue(out, apis);
        write_boundaries(out, apis, types);
        out.end_block("extern \"C\"");
    } else {
        proof {
            lemma_emit_nothing(out@);
        }
    }
}

/// Writes what C++ calls for the Rust function that an item introduces.
fn write_shim(out: &mut OutFile, api: &Api, types: &Types)
    requires
        api_printable(*api, old(out)@.header),
    ensures
        final(out)@ == old(out)@.emit(
            shim_pieces(old(out)@.namespace, old(out)@.header, *api, *types),
        ),
        final(out).includes == old(out).includes,
{
    if let Api::RustFunction(efn) = api {
        assert(base(out@));
        out.next_section();
        write_rust_function_shim(out, efn, types);
    } else {
        proof {
            lemma_emit_nothing(out@);
        }
    }
}

/// Writes what C++ calls for the Rust functions that a bridge introduces.
fn write_shims(out: &mut OutFile, apis: &[Api], types: &Types)
    requires
        all_apis_printable(apis@, old(out)@.header),
    ensures
        final(out)@ == old(out)@.emit(
            concat(
                apis@.map_values(
                    |api: Api| shim_pieces(old(out)@.namespace, old(out)@.header, api, *types),
                ),
            ),
        ),
        final(out).includes == old(out).includes,
{
    let ghost start = out@;
    let ghost parts = apis@.map_values(
        |api: Api| shim_pieces(start.namespace, start.header, api, *types),
    );
    let mut i: usize = 0;
    proof {
        lemma_emit_nothing(start);
    }
    while i < apis.len()
        invariant
            i <= apis.len(),
            all_apis_printable(apis@, start.header),
            parts == apis@.map_values(
                |api: Api| shim_pieces(start.namespace, start.header, api, *types),
            ),
            out@ == start.emit(concat(parts.take(i as int))),
            out.includes == old(out).includes,
        decreases apis.len() - i,
    {
        write_shim(out, &apis[i], types);
        proof {
            law_emit_in_groups(start, concat(parts.take(i as int)), parts[i as int]);
            lemma_concat_take(parts, i as int);
        }
        i += 1;
    }
    proof {
        assert(parts.take(i as int) =~= parts);
    }
}

/// Writes the instances of templates; a header has none.
fn write_end(out: &mut OutFile, types: &Types)
    ensures
        final(out)@ == old(out)@.emit(
            end_pieces(old(out)@.namespace, *types, old(out)@.header),
        ),
        final(out).includes == old(out).includes,
{
    if !out.header {
        assert(base(out@));
        out.next_section();
        write_generic_instantiations(out, types);
    } else {
        proof {
            lemma_emit_nothing(out@);
        }
    }
}

/// Generates the header or the source file of a bridge: first the lines that ask for headers,
/// then everything else.
pub fn gen(
    namespace: Vec<String>,
    apis: &[Api],
    types: &Types,
    header: bool,
    cxx: &CxxHeader,
) -> (out: OutFile)
    requires
        needs_of(apis@, *types, header).met_by(cxx@),
        all_apis_printable(apis@, header),
    ensures
        out@.content == file_includes(apis@, *types, header).text() + render(
            file_pieces(views(namespace@), apis@, *types, header, cxx@),
        ),
        out@ == OutView::fresh(views(namespace@), header).emit(
            file_pieces(views(namespace@), apis@, *types, header, cxx@),
        ).prepend(file_includes(apis@, *types, header).text()),
        out@.blocks_pending.len() == 0,
        out.includes@ == file_includes(apis@, *types, header),
{
    let ghost names = views(namespace@);
    let mut out_file = OutFile::new(namespace, header);
    let out = &mut out_file;
    let ghost start = out@;
    assert(base(start));

    write_start(out);
    insert_custom(out, apis);
    write_includes(out, types);
    write_include_cxxbridge(out, apis, types, cxx);

    out.next_section();
    write_namespace_starts(out);

    out.next_section();
    write_decls(out, apis);
    write_structs(out, apis);
    write_boundary_block(out, apis, types);
    write_shims(out, apis, types);

    out.next_section();
    write_namespace_ends(out);
    write_end(out, types);

    proof {
        let custom = concat(apis@.map_values(|api: Api| custom_paths(api)));
        assert(Seq::<Seq<char>>::empty() + custom =~= custom);
        lemma_emit_content(start, file_pieces(names, apis@, *types, header, cxx@));
        law_file_is_nested(names, apis@, *types, header, cxx@);
        law_blocks_closed(start, file_pieces(names, apis@, *types, header, cxx@));
    }
    let lines = out.includes.to_string();
    out.prepend(lines);

    out_file
}

}
