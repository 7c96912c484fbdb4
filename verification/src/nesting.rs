//! Blocks: each one that a generated file opens is closed.

use vstd::prelude::*;

use crate::out::{close, open, pieces_if, section, text, OutView, Piece};
use crate::syntax::{Api, Type, Types};
use crate::text::concat;
use crate::write::bridge::{
    exception_glue_pieces, extern_instance_pieces, header_section_pieces, impl_instance_pieces,
    instantiation_pieces, needs_of, runtime_pieces, Needs,
};
use crate::write::functions::{
    cxx_function_shim_text, rust_function_decl_text, rust_function_shim_text,
};
use crate::write::namespace::{namespace_end_text, namespace_start_text};
use crate::write::structs::{struct_decl_text, struct_text, struct_using_text};
use crate::write::templates::{
    code_lines, manually_drop_template, maybe_uninit_template, rust_box_extern_text,
    rust_box_impl_text, unique_ptr_text,
};
use crate::write::{
    boundary_block, boundary_pieces, decl_pieces, end_pieces, file_pieces, shim_pieces,
    start_pieces, struct_pieces,
};

verus! {

/// How many more blocks the pieces open than they close.
pub open spec fn depth(pieces: Seq<Piece>) -> int
    decreases pieces.len(),
{
    if pieces.len() == 0 {
        0
    } else {
        depth(pieces.drop_last()) + match pieces.last() {
            Piece::Open(_) => 1,
            Piece::Close(_) => -1int,
            _ => 0,
        }
    }
}

/// Whether each block that the pieces open is closed, and none is closed that was not opened.
#[verifier::opaque]
pub open spec fn nested(pieces: Seq<Piece>) -> bool {
    &&& depth(pieces) == 0
    &&& forall|n: int| 0 <= n <= pieces.len() ==> depth(#[trigger] pieces.take(n)) >= 0
}

proof fn lemma_depth_add(a: Seq<Piece>, b: Seq<Piece>)
    ensures
        depth(a + b) == depth(a) + depth(b),
    decreases b.len(),
{
    if b.len() == 0 {
        assert(a + b =~= a);
    } else {
        lemma_depth_add(a, b.drop_last());
        assert((a + b).drop_last() =~= a + b.drop_last());
    }
}

proof fn lemma_nested_empty()
    ensures
        nested(Seq::empty()),
{
    reveal(nested);
    assert forall|n: int| 0 <= n <= 0 implies depth(
        #[trigger] Seq::<Piece>::empty().take(n),
    ) >= 0 by {
        assert(Seq::<Piece>::empty().take(n) =~= Seq::empty());
    }
}

proof fn lemma_nested_add(a: Seq<Piece>, b: Seq<Piece>)
    requires
        nested(a),
        nested(b),
    ensures
        nested(a + b),
{
    reveal(nested);
    lemma_depth_add(a, b);
    assert forall|n: int| 0 <= n <= (a + b).len() implies depth(
        #[trigger] (a + b).take(n),
    ) >= 0 by {
        if n <= a.len() {
            assert((a + b).take(n) =~= a.take(n));
        } else {
            assert((a + b).take(n) =~= a + b.take(n - a.len()));
            lemma_depth_add(a, b.take(n - a.len()));
        }
    }
}

/// A piece that neither opens nor closes a block.
proof fn lemma_nested_one(piece: Piece)
    requires
        !(piece is Open),
        !(piece is Close),
    ensures
        nested(seq![piece]),
{
    reveal(nested);
    let pieces = seq![piece];
    reveal_with_fuel(depth, 2);
    assert(pieces.drop_last() =~= Seq::empty());
    assert forall|n: int| 0 <= n <= pieces.len() implies depth(#[trigger] pieces.take(n)) >= 0 by {
        if n == 0 {
            assert(pieces.take(n) =~= Seq::empty());
        } else {
            assert(pieces.take(n) =~= pieces);
        }
    }
}

proof fn lemma_nested_text(s: Seq<char>)
    ensures
        nested(text(s)),
{
    lemma_nested_one(Piece::Text(s));
}

proof fn lemma_nested_section()
    ensures
        nested(section()),
{
    lemma_nested_one(Piece::Section);
}

proof fn lemma_nested_section_text(s: Seq<char>)
    ensures
        nested(section() + text(s)),
{
    lemma_nested_section();
    lemma_nested_text(s);
    lemma_nested_add(section(), text(s));
}

proof fn lemma_nested_block(start: Seq<char>, pieces: Seq<Piece>, end: Seq<char>)
    requires
        nested(pieces),
    ensures
        nested(open(start) + pieces + close(end)),
{
    reveal(nested);
    let block = open(start) + pieces + close(end);
    reveal_with_fuel(depth, 2);
    assert(open(start).drop_last() =~= Seq::empty());
    assert(close(end).drop_last() =~= Seq::empty());
    assert(depth(open(start)) == 1);
    assert(depth(close(end)) == -1);
    lemma_depth_add(open(start), pieces);
    lemma_depth_add(open(start) + pieces, close(end));
    assert forall|n: int| 0 <= n <= block.len() implies depth(#[trigger] block.take(n)) >= 0 by {
        if n == 0 {
            assert(block.take(n) =~= Seq::empty());
        } else if n <= pieces.len() + 1 {
            assert(block.take(n) =~= open(start) + pieces.take(n - 1));
            lemma_depth_add(open(start), pieces.take(n - 1));
        } else {
            assert(block.take(n) =~= block);
        }
    }
}

proof fn lemma_nested_concat(parts: Seq<Seq<Piece>>)
    requires
        forall|i: int| 0 <= i < parts.len() ==> nested(#[trigger] parts[i]),
    ensures
        nested(concat(parts)),
    decreases parts.len(),
{
    if parts.len() == 0 {
        lemma_nested_empty();
    } else {
        assert forall|i: int| 0 <= i < parts.drop_last().len() implies nested(
            #[trigger] parts.drop_last()[i],
        ) by {
            assert(parts.drop_last()[i] == parts[i]);
        }
        lemma_nested_concat(parts.drop_last());
        lemma_nested_add(concat(parts.drop_last()), parts.last());
    }
}

/// How many more block starts than block ends stand in the file after the pieces.
pub open spec fn unclosed(file: OutView, pieces: Seq<Piece>) -> int
    decreases pieces.len(),
{
    if pieces.len() == 0 {
        0
    } else {
        let pending = file.emit(pieces.drop_last()).blocks_pending.len();
        unclosed(file, pieces.drop_last()) + match pieces.last() {
            Piece::Text(s) => if s.len() > 0 {
                pending as int
            } else {
                0
            },
            Piece::Close(_) => if pending == 0 {
                -1int
            } else {
                0
            },
            _ => 0,
        }
    }
}

/// Pieces that close each block which they open leave none pending, and as many block ends in the
/// file as block starts.
pub proof fn law_blocks_closed(file: OutView, pieces: Seq<Piece>)
    requires
        file.blocks_pending.len() == 0,
        nested(pieces),
    ensures
        file.emit(pieces).blocks_pending.len() == 0,
        unclosed(file, pieces) == 0,
{
    reveal(nested);
    lemma_blocks_balance(file, pieces);
}

proof fn lemma_blocks_balance(file: OutView, pieces: Seq<Piece>)
    requires
        file.blocks_pending.len() == 0,
        forall|n: int| 0 <= n <= pieces.len() ==> depth(#[trigger] pieces.take(n)) >= 0,
    ensures
        file.emit(pieces).blocks_pending.len() <= depth(pieces),
        unclosed(file, pieces) + file.emit(pieces).blocks_pending.len() == depth(pieces),
    decreases pieces.len(),
{
    reveal(OutView::emit);
    reveal(OutView::write);
    if pieces.len() > 0 {
        let front = pieces.drop_last();
        assert forall|n: int| 0 <= n <= front.len() implies depth(
            #[trigger] front.take(n),
        ) >= 0 by {
            assert(front.take(n) =~= pieces.take(n));
        }
        lemma_blocks_balance(file, front);
        assert(pieces.take(pieces.len() as int) =~= pieces);
    }
}

proof fn lemma_nested_header_section(cxx: Seq<char>, needed: bool, guard: Seq<char>)
    ensures
        nested(header_section_pieces(cxx, needed, guard)),
{
    if needed {
        lemma_nested_section_text(
            concat(code_lines(crate::cxx_header::section(cxx, guard).unwrap())),
        );
    } else {
        lemma_nested_empty();
    }
}

proof fn lemma_nested_runtime(cxx: Seq<char>, needs: Needs)
    ensures
        nested(runtime_pieces(cxx, needs)),
{
    let origin = pieces_if(needs.any(), text("// #include \"rust/cxx.h\"\n"@));
    let string = header_section_pieces(cxx, needs.rust_string, "CXXBRIDGE02_RUST_STRING"@);
    let str = header_section_pieces(cxx, needs.rust_str, "CXXBRIDGE02_RUST_STR"@);
    let boxes = header_section_pieces(cxx, needs.rust_box, "CXXBRIDGE02_RUST_BOX"@);
    let error = header_section_pieces(cxx, needs.rust_error, "CXXBRIDGE02_RUST_ERROR"@);
    let bitcopy = header_section_pieces(cxx, needs.unsafe_bitcopy, "CXXBRIDGE02_RUST_BITCOPY"@);
    let manually_drop = pieces_if(
        needs.manually_drop,
        section() + text(manually_drop_template()),
    );
    let maybe_uninit = pieces_if(needs.maybe_uninit, section() + text(maybe_uninit_template()));
    lemma_nested_empty();
    lemma_nested_text("// #include \"rust/cxx.h\"\n"@);
    lemma_nested_header_section(cxx, needs.rust_string, "CXXBRIDGE02_RUST_STRING"@);
    lemma_nested_header_section(cxx, needs.rust_str, "CXXBRIDGE02_RUST_STR"@);
    lemma_nested_header_section(cxx, needs.rust_box, "CXXBRIDGE02_RUST_BOX"@);
    lemma_nested_header_section(cxx, needs.rust_error, "CXXBRIDGE02_RUST_ERROR"@);
    lemma_nested_header_section(cxx, needs.unsafe_bitcopy, "CXXBRIDGE02_RUST_BITCOPY"@);
    lemma_nested_section_text(manually_drop_template());
    lemma_nested_section_text(maybe_uninit_template());
    let head = open("namespace rust"@) + open("inline namespace cxxbridge02"@);
    lemma_nested_add(origin, string);
    lemma_add_associates(head, origin, string);
    let body = origin + string;
    lemma_nested_add(body, str);
    lemma_add_associates(head, body, str);
    let body = body + str;
    lemma_nested_add(body, boxes);
    lemma_add_associates(head, body, boxes);
    let body = body + boxes;
    lemma_nested_add(body, error);
    lemma_add_associates(head, body, error);
    let body = body + error;
    lemma_nested_add(body, bitcopy);
    lemma_add_associates(head, body, bitcopy);
    let body = body + bitcopy;
    lemma_nested_add(body, manually_drop);
    lemma_add_associates(head, body, manually_drop);
    let body = body + manually_drop;
    lemma_nested_add(body, maybe_uninit);
    lemma_add_associates(head, body, maybe_uninit);
    let body = body + maybe_uninit;
    lemma_nested_two_blocks(body);
}

proof fn lemma_add_associates(a: Seq<Piece>, b: Seq<Piece>, c: Seq<Piece>)
    ensures
        a + (b + c) == a + b + c,
{
    assert(a + (b + c) =~= a + b + c);
}

/// The namespace of the C++ runtime, with the namespace of its version in it.
proof fn lemma_nested_two_blocks(body: Seq<Piece>)
    requires
        nested(body),
    ensures
        nested(
            open("namespace rust"@) + open("inline namespace cxxbridge02"@) + body + close(
                "namespace cxxbridge02"@,
            ) + close("namespace rust"@),
        ),
{
    let inner = open("inline namespace cxxbridge02"@) + body + close("namespace cxxbridge02"@);
    lemma_nested_block("inline namespace cxxbridge02"@, body, "namespace cxxbridge02"@);
    lemma_nested_block("namespace rust"@, inner, "namespace rust"@);
    assert(open("namespace rust"@) + open("inline namespace cxxbridge02"@) + body + close(
        "namespace cxxbridge02"@,
    ) + close("namespace rust"@) =~= open("namespace rust"@) + inner + close("namespace rust"@));
}

proof fn lemma_nested_instantiations(namespace: Seq<Seq<char>>, types: Seq<Type>)
    ensures
        nested(instantiation_pieces(namespace, types)),
{
    let externs = types.map_values(|ty: Type| extern_instance_pieces(namespace, ty));
    let impls = types.map_values(|ty: Type| impl_instance_pieces(namespace, ty));
    lemma_nested_empty();
    assert forall|i: int| 0 <= i < externs.len() implies nested(#[trigger] externs[i]) by {
        match types[i] {
            Type::RustBox(ty) => if let Type::Ident(inner) = ty.inner {
                lemma_nested_section_text(rust_box_extern_text(namespace, inner@));
            },
            Type::UniquePtr(ptr) => if let Type::Ident(inner) = ptr.inner {
                lemma_nested_section_text(unique_ptr_text(namespace, inner@));
            },
            _ => {},
        }
    }
    assert forall|i: int| 0 <= i < impls.len() implies nested(#[trigger] impls[i]) by {
        match types[i] {
            Type::RustBox(ty) => if let Type::Ident(inner) = ty.inner {
                lemma_nested_text(rust_box_impl_text(namespace, inner@));
            },
            _ => {},
        }
    }
    lemma_nested_concat(externs);
    lemma_nested_concat(impls);
    let c = open("extern \"C\""@) + concat(externs) + close("extern \"C\""@);
    let rust = open("namespace rust"@) + open("inline namespace cxxbridge02"@) + concat(impls)
        + close("namespace cxxbridge02"@) + close("namespace rust"@);
    lemma_nested_block("extern \"C\""@, concat(externs), "extern \"C\""@);
    lemma_nested_two_blocks(concat(impls));
    lemma_nested_add(c, rust);
    assert(instantiation_pieces(namespace, types) =~= c + rust);
}

proof fn lemma_nested_boundary_block(namespace: Seq<Seq<char>>, apis: Seq<Api>, types: Types)
    ensures
        nested(boundary_block(namespace, apis, types)),
{
    let parts = apis.map_values(|api: Api| boundary_pieces(namespace, api, types));
    lemma_nested_empty();
    assert forall|i: int| 0 <= i < parts.len() implies nested(#[trigger] parts[i]) by {
        match apis[i] {
            Api::CxxFunction(efn) => lemma_nested_section_text(
                cxx_function_shim_text(namespace, efn, types),
            ),
            Api::RustFunction(efn) => lemma_nested_section_text(
                rust_function_decl_text(namespace, efn, types),
            ),
            _ => {},
        }
    }
    lemma_nested_concat(parts);
    lemma_nested_section_text("const char *cxxbridge02$exception(const char *, size_t);"@);
    lemma_nested_add(exception_glue_pieces(apis), concat(parts));
    let body = exception_glue_pieces(apis) + concat(parts);
    lemma_nested_block("extern \"C\""@, body, "extern \"C\""@);
    assert(boundary_block(namespace, apis, types) =~= open("extern \"C\""@) + body + close(
        "extern \"C\""@,
    ));
}

/// A generated file closes each block that it opens.
pub proof fn law_file_is_nested(
    namespace: Seq<Seq<char>>,
    apis: Seq<Api>,
    types: Types,
    header: bool,
    cxx: Seq<char>,
)
    ensures
        nested(file_pieces(namespace, apis, types, header, cxx)),
{
    let runtime = runtime_pieces(cxx, needs_of(apis, types, header));
    let starts = namespace.map_values(|name: Seq<char>| text(namespace_start_text(name)));
    let decls = apis.map_values(|api: Api| decl_pieces(api));
    let structs = apis.map_values(|api: Api| struct_pieces(api));
    let boundary = pieces_if(!header, boundary_block(namespace, apis, types));
    let shims = apis.map_values(|api: Api| shim_pieces(namespace, header, api, types));
    let ends = namespace.reverse().map_values(|name: Seq<char>| text(namespace_end_text(name)));
    let end = end_pieces(namespace, types, header);

    lemma_nested_empty();
    lemma_nested_section();
    lemma_nested_text("#pragma once\n"@);
    lemma_nested_runtime(cxx, needs_of(apis, types, header));
    assert forall|i: int| 0 <= i < starts.len() implies nested(#[trigger] starts[i]) by {
        lemma_nested_text(namespace_start_text(namespace[i]));
    }
    assert forall|i: int| 0 <= i < decls.len() implies nested(#[trigger] decls[i]) by {
        match apis[i] {
            Api::Struct(strct) => lemma_nested_text(struct_decl_text(strct.ident@)),
            Api::CxxType(ety) => lemma_nested_text(struct_using_text(ety.ident@)),
            Api::RustType(ety) => lemma_nested_text(struct_decl_text(ety.ident@)),
            _ => {},
        }
    }
    assert forall|i: int| 0 <= i < structs.len() implies nested(#[trigger] structs[i]) by {
        if let Api::Struct(strct) = apis[i] {
            lemma_nested_section_text(struct_text(strct));
        }
    }
    assert forall|i: int| 0 <= i < shims.len() implies nested(#[trigger] shims[i]) by {
        if let Api::RustFunction(efn) = apis[i] {
            lemma_nested_section_text(rust_function_shim_text(namespace, header, efn, types));
        }
    }
    assert forall|i: int| 0 <= i < ends.len() implies nested(#[trigger] ends[i]) by {
        lemma_nested_text(namespace_end_text(namespace.reverse()[i]));
    }
    lemma_nested_concat(starts);
    lemma_nested_concat(decls);
    lemma_nested_concat(structs);
    lemma_nested_boundary_block(namespace, apis, types);
    lemma_nested_concat(shims);
    lemma_nested_concat(ends);
    lemma_nested_instantiations(namespace, types.all@);
    lemma_nested_add(section(), instantiation_pieces(namespace, types.all@));

    let upto_runtime = start_pieces(header) + runtime;
    lemma_nested_add(start_pieces(header), runtime);
    let upto_starts = upto_runtime + section() + concat(starts);
    lemma_nested_add(upto_runtime, section());
    lemma_nested_add(upto_runtime + section(), concat(starts));
    let upto_structs = upto_starts + section() + concat(decls) + concat(structs);
    lemma_nested_add(upto_starts, section());
    lemma_nested_add(upto_starts + section(), concat(decls));
    lemma_nested_add(upto_starts + section() + concat(decls), concat(structs));
    let upto_shims = upto_structs + boundary + concat(shims);
    lemma_nested_add(upto_structs, boundary);
    lemma_nested_add(upto_structs + boundary, concat(shims));
    lemma_nested_add(upto_shims, section());
    lemma_nested_add(upto_shims + section(), concat(ends));
    lemma_nested_add(upto_shims + section() + concat(ends), end);
}

}
