//! Layout: which parts a file has, and in which order.

use vstd::prelude::*;

use crate::out::{close, open, section, text, Piece};
use crate::syntax::{Api, ExternFn, Types, Var};
use crate::text::{comma_separated, concat, lines};
use crate::write::bridge::{instantiation_pieces, needs_of, runtime_pieces};
use crate::write::functions::{
    cxx_function_shim_text, param_text, rust_function_decl_text, rust_function_shim_text,
};
use crate::write::structs::struct_text;
use crate::write::types::return_type_text;
use crate::write::{
    boundary_pieces, custom_paths, decl_pieces, file_includes, file_pieces, shim_pieces,
    struct_pieces,
};

verus! {

/// Texts one after the other.
pub open spec fn texts(all: Seq<Seq<char>>) -> Seq<Piece> {
    Seq::new(all.len(), |i: int| Piece::Text(all[i]))
}

/// Texts one after the other, each in a section of its own.
pub open spec fn sections(all: Seq<Seq<char>>) -> Seq<Piece> {
    Seq::new(
        2 * all.len(),
        |i: int|
            if i % 2 == 0 {
                Piece::Section
            } else {
                Piece::Text(all[i / 2])
            },
    )
}

/// One section more.
pub proof fn lemma_sections_push(all: Seq<Seq<char>>, s: Seq<char>)
    ensures
        sections(all.push(s)) == sections(all) + (section() + text(s)),
{
    assert(sections(all.push(s)) =~= sections(all) + (section() + text(s)));
}

/// Items of which some give a section each give the sections of these, in their order.
pub proof fn lemma_sections<A>(
    items: Seq<A>,
    f: spec_fn(A) -> Seq<Piece>,
    keep: spec_fn(A) -> bool,
    g: spec_fn(A) -> Seq<char>,
)
    requires
        forall|a: A|
            #[trigger] f(a) == if keep(a) {
                section() + text(g(a))
            } else {
                Seq::empty()
            },
    ensures
        concat(items.map_values(f)) == sections(items.filter(keep).map_values(g)),
    decreases items.len(),
{
    reveal(Seq::filter);
    if items.len() > 0 {
        let front = items.drop_last();
        lemma_sections(front, f, keep, g);
        assert(items.map_values(f).drop_last() =~= front.map_values(f));
        assert(items.map_values(f).last() == f(items.last()));
        if keep(items.last()) {
            assert(front.filter(keep).push(items.last()).map_values(g) =~= front.filter(
                keep,
            ).map_values(g).push(g(items.last())));
            lemma_sections_push(front.filter(keep).map_values(g), g(items.last()));
        } else {
            assert(concat(items.map_values(f)) =~= concat(front.map_values(f)));
        }
    } else {
        assert(items.filter(keep).map_values(g) =~= Seq::<Seq<char>>::empty());
        assert(sections(Seq::empty()) =~= Seq::<Piece>::empty());
    }
}

/// Items of which some give a text each give the texts of these, in their order.
pub proof fn lemma_texts<A>(
    items: Seq<A>,
    f: spec_fn(A) -> Seq<Piece>,
    keep: spec_fn(A) -> bool,
    g: spec_fn(A) -> Seq<char>,
)
    requires
        forall|a: A|
            #[trigger] f(a) == if keep(a) {
                text(g(a))
            } else {
                Seq::empty()
            },
    ensures
        concat(items.map_values(f)) == texts(items.filter(keep).map_values(g)),
    decreases items.len(),
{
    reveal(Seq::filter);
    if items.len() > 0 {
        let front = items.drop_last();
        lemma_texts(front, f, keep, g);
        assert(items.map_values(f).drop_last() =~= front.map_values(f));
        assert(items.map_values(f).last() == f(items.last()));
        if keep(items.last()) {
            assert(front.filter(keep).push(items.last()).map_values(g) =~= front.filter(
                keep,
            ).map_values(g).push(g(items.last())));
            assert(texts(front.filter(keep).map_values(g).push(g(items.last()))) =~= texts(
                front.filter(keep).map_values(g),
            ) + text(g(items.last())));
        } else {
            assert(concat(items.map_values(f)) =~= concat(front.map_values(f)));
        }
    } else {
        assert(items.filter(keep).map_values(g) =~= Seq::<Seq<char>>::empty());
        assert(texts(Seq::empty()) =~= Seq::<Piece>::empty());
    }
}

/// A text for each item gives all of them.
proof fn lemma_all_texts<A>(items: Seq<A>, g: spec_fn(A) -> Seq<char>, f: spec_fn(A) -> Seq<Piece>)
    requires
        forall|a: A| #[trigger] f(a) == text(g(a)),
    ensures
        concat(items.map_values(f)) == texts(items.map_values(g)),
    decreases items.len(),
{
    if items.len() > 0 {
        let front = items.drop_last();
        lemma_all_texts(front, g, f);
        assert(items.map_values(f).drop_last() =~= front.map_values(f));
        assert(items.map_values(f).last() == f(items.last()));
        assert(texts(items.map_values(g)) =~= texts(front.map_values(g)) + text(g(items.last())));
    } else {
        assert(texts(items.map_values(g)) =~= Seq::<Piece>::empty());
    }
}

/// How C++ sees a Rust function, up to the end of its signature.
pub open spec fn prototype(efn: ExternFn) -> Seq<char> {
    concat(lines(efn.doc@).map_values(|line: Seq<char>| "//"@ + line + "\n"@)) + return_type_text(
        efn.ret,
    ) + efn.ident@ + "("@ + comma_separated(efn.args@.map_values(|arg: Var| param_text(arg))) + ")"@
        + if efn.throws {
        Seq::empty()
    } else {
        " noexcept"@
    }
}

/// The declaration of a type that an item introduces: of a struct and of an opaque Rust type by
/// its name, of an opaque C++ type by an alias.
pub open spec fn declaration(api: Api) -> Seq<char> {
    match api {
        Api::Struct(strct) => "struct "@ + strct.ident@ + ";\n"@,
        Api::CxxType(ety) => "using "@ + ety.ident@ + " = "@ + ety.ident@ + ";\n"@,
        Api::RustType(ety) => "struct "@ + ety.ident@ + ";\n"@,
        _ => Seq::empty(),
    }
}

proof fn lemma_namespace_lines(namespace: Seq<Seq<char>>)
    ensures
        concat(
            namespace.map_values(
                |name: Seq<char>| text(crate::write::namespace::namespace_start_text(name)),
            ),
        ) == texts(namespace.map_values(|name: Seq<char>| "namespace "@ + name + " {\n"@)),
        concat(
            namespace.reverse().map_values(
                |name: Seq<char>| text(crate::write::namespace::namespace_end_text(name)),
            ),
        ) == texts(
            namespace.reverse().map_values(|name: Seq<char>| "} // namespace "@ + name + "\n"@),
        ),
{
    lemma_all_texts(
        namespace,
        |name: Seq<char>| "namespace "@ + name + " {\n"@,
        |name: Seq<char>| text(crate::write::namespace::namespace_start_text(name)),
    );
    lemma_all_texts(
        namespace.reverse(),
        |name: Seq<char>| "} // namespace "@ + name + "\n"@,
        |name: Seq<char>| text(crate::write::namespace::namespace_end_text(name)),
    );
}

proof fn lemma_types_of_items(apis: Seq<Api>)
    ensures
        concat(apis.map_values(|api: Api| decl_pieces(api))) == texts(
            apis.filter(
                |api: Api| api is Struct || api is CxxType || api is RustType,
            ).map_values(|api: Api| declaration(api)),
        ),
        concat(apis.map_values(|api: Api| struct_pieces(api))) == sections(
            apis.filter(|api: Api| api is Struct).map_values(
                |api: Api| struct_text(api->Struct_0),
            ),
        ),
{
    lemma_texts(
        apis,
        |api: Api| decl_pieces(api),
        |api: Api| api is Struct || api is CxxType || api is RustType,
        |api: Api| declaration(api),
    );
    lemma_sections(
        apis,
        |api: Api| struct_pieces(api),
        |api: Api| api is Struct,
        |api: Api| struct_text(api->Struct_0),
    );
}

/// A header has, in this order: the mark of a header, what it needs of the runtime, the start of
/// the namespace, a declaration of each type, a section with each struct, a section with the
/// prototype of each Rust function, and the end of the namespace. Items of a kind keep their
/// order, and no item is left out or comes twice.
pub proof fn law_header_layout(
    namespace: Seq<Seq<char>>,
    apis: Seq<Api>,
    types: Types,
    cxx: Seq<char>,
)
    ensures
        file_pieces(namespace, apis, types, true, cxx) == text("#pragma once\n"@) + runtime_pieces(
            cxx,
            needs_of(apis, types, true),
        ) + section() + texts(
            namespace.map_values(|name: Seq<char>| "namespace "@ + name + " {\n"@),
        ) + section() + texts(
            apis.filter(
                |api: Api| api is Struct || api is CxxType || api is RustType,
            ).map_values(|api: Api| declaration(api)),
        ) + sections(
            apis.filter(|api: Api| api is Struct).map_values(
                |api: Api| struct_text(api->Struct_0),
            ),
        ) + sections(
            apis.filter(|api: Api| api is RustFunction).map_values(
                |api: Api| prototype(api->RustFunction_0) + ";\n"@,
            ),
        ) + section() + texts(
            namespace.reverse().map_values(|name: Seq<char>| "} // namespace "@ + name + "\n"@),
        ),
{
    broadcast use lemma_nothing_behind;

    lemma_namespace_lines(namespace);
    lemma_types_of_items(apis);
    assert forall|api: Api| #[trigger] shim_pieces(namespace, true, api, types) == if api
        is RustFunction {
        section() + text(prototype(api->RustFunction_0) + ";\n"@)
    } else {
        Seq::empty()
    } by {
        if let Api::RustFunction(efn) = api {
            assert(rust_function_shim_text(namespace, true, efn, types) =~= prototype(efn)
                + ";\n"@);
        }
    }
    lemma_sections(
        apis,
        |api: Api| shim_pieces(namespace, true, api, types),
        |api: Api| api is RustFunction,
        |api: Api| prototype(api->RustFunction_0) + ";\n"@,
    );
}

broadcast proof fn lemma_nothing_behind(pieces: Seq<Piece>)
    ensures
        #[trigger] (pieces + Seq::<Piece>::empty()) == pieces,
{
    assert(pieces + Seq::<Piece>::empty() =~= pieces);
}

/// A source file has, in this order: what it needs of the runtime, the start of the namespace, a
/// declaration of each type, a section with each struct, a block with the glue for exceptions, if
/// a C++ function may fail, and a section with what stands at the boundary for each function, a
/// section with the shim around each Rust function, the end of the namespace, and the instances of
/// templates. Items of a kind keep their order, and no item is left out or comes twice.
pub proof fn law_source_layout(
    namespace: Seq<Seq<char>>,
    apis: Seq<Api>,
    types: Types,
    cxx: Seq<char>,
)
    ensures
        file_pieces(namespace, apis, types, false, cxx) == runtime_pieces(
            cxx,
            needs_of(apis, types, false),
        ) + section() + texts(
            namespace.map_values(|name: Seq<char>| "namespace "@ + name + " {\n"@),
        ) + section() + texts(
            apis.filter(
                |api: Api| api is Struct || api is CxxType || api is RustType,
            ).map_values(|api: Api| declaration(api)),
        ) + sections(
            apis.filter(|api: Api| api is Struct).map_values(
                |api: Api| struct_text(api->Struct_0),
            ),
        ) + (open("extern \"C\""@) + (if exists|i: int|
            0 <= i < apis.len() && ((#[trigger] apis[i]) matches Api::CxxFunction(efn)
                && efn.throws) {
            section() + text("const char *cxxbridge02$exception(const char *, size_t);"@)
        } else {
            Seq::empty()
        }) + sections(
            apis.filter(|api: Api| api is CxxFunction || api is RustFunction).map_values(
                |api: Api|
                    match api {
                        Api::CxxFunction(efn) => cxx_function_shim_text(namespace, efn, types),
                        Api::RustFunction(efn) => rust_function_decl_text(namespace, efn, types),
                        _ => Seq::empty(),
                    },
            ),
        ) + close("extern \"C\""@)) + sections(
            apis.filter(|api: Api| api is RustFunction).map_values(
                |api: Api| rust_function_shim_text(namespace, false, api->RustFunction_0, types),
            ),
        ) + section() + texts(
            namespace.reverse().map_values(|name: Seq<char>| "} // namespace "@ + name + "\n"@),
        ) + (section() + instantiation_pieces(namespace, types.all@)),
{
    lemma_namespace_lines(namespace);
    lemma_types_of_items(apis);
    lemma_sections(
        apis,
        |api: Api| boundary_pieces(namespace, api, types),
        |api: Api| api is CxxFunction || api is RustFunction,
        |api: Api|
            match api {
                Api::CxxFunction(efn) => cxx_function_shim_text(namespace, efn, types),
                Api::RustFunction(efn) => rust_function_decl_text(namespace, efn, types),
                _ => Seq::empty(),
            },
    );
    lemma_sections(
        apis,
        |api: Api| shim_pieces(namespace, false, api, types),
        |api: Api| api is RustFunction,
        |api: Api| rust_function_shim_text(namespace, false, api->RustFunction_0, types),
    );
    let runtime = runtime_pieces(cxx, needs_of(apis, types, false));
    assert(Seq::<Piece>::empty() + runtime =~= runtime);
}

proof fn lemma_filter_at<A>(items: Seq<A>, keep: spec_fn(A) -> bool, i: int)
    requires
        0 <= i < items.len(),
        keep(items[i]),
    ensures
        0 <= items.take(i).filter(keep).len() < items.filter(keep).len(),
        items.filter(keep)[items.take(i).filter(keep).len() as int] == items[i],
    decreases items.len(),
{
    reveal(Seq::filter);
    let front = items.drop_last();
    if i == items.len() - 1 {
        assert(items.take(i) =~= front);
    } else {
        lemma_filter_at(front, keep, i);
        assert(front.take(i) =~= items.take(i));
    }
}

/// A header declares every Rust function, whether it may fail or not: at the place that the Rust
/// functions before it leave to it, a section starts and has its prototype.
pub proof fn law_header_declares_rust_functions(
    namespace: Seq<Seq<char>>,
    apis: Seq<Api>,
    types: Types,
    cxx: Seq<char>,
    i: int,
) -> (at: int)
    requires
        0 <= i < apis.len(),
        apis[i] is RustFunction,
    ensures
        0 <= at < file_pieces(namespace, apis, types, true, cxx).len() - 1,
        file_pieces(namespace, apis, types, true, cxx)[at] == Piece::Section,
        file_pieces(namespace, apis, types, true, cxx)[at + 1] == Piece::Text(
            prototype(apis[i]->RustFunction_0) + ";\n"@,
        ),
        at == 1 + runtime_pieces(cxx, needs_of(apis, types, true)).len() + 1 + namespace.len() + 1
            + apis.filter(|api: Api| api is Struct || api is CxxType || api is RustType).len() + 2
            * apis.filter(|api: Api| api is Struct).len() + 2 * apis.take(i).filter(
            |api: Api| api is RustFunction,
        ).len(),
{
    law_header_layout(namespace, apis, types, cxx);
    lemma_filter_at(apis, |api: Api| api is RustFunction, i);
    let k = apis.take(i).filter(|api: Api| api is RustFunction).len() as int;
    let runtime = runtime_pieces(cxx, needs_of(apis, types, true));
    let starts = texts(namespace.map_values(|name: Seq<char>| "namespace "@ + name + " {\n"@));
    let declared = texts(
        apis.filter(
            |api: Api| api is Struct || api is CxxType || api is RustType,
        ).map_values(|api: Api| declaration(api)),
    );
    let defined = sections(
        apis.filter(|api: Api| api is Struct).map_values(|api: Api| struct_text(api->Struct_0)),
    );
    let prototypes = apis.filter(|api: Api| api is RustFunction).map_values(
        |api: Api| prototype(api->RustFunction_0) + ";\n"@,
    );
    let ends = texts(
        namespace.reverse().map_values(|name: Seq<char>| "} // namespace "@ + name + "\n"@),
    );
    let front = text("#pragma once\n"@) + runtime + section() + starts + section() + declared
        + defined;
    lemma_section_within(front, prototypes, section(), ends, k);
    front.len() + 2 * k
}

proof fn lemma_section_within(
    front: Seq<Piece>,
    all: Seq<Seq<char>>,
    behind: Seq<Piece>,
    end: Seq<Piece>,
    k: int,
)
    requires
        0 <= k < all.len(),
    ensures
        ({
            let pieces = front + sections(all) + behind + end;
            &&& pieces.len() >= front.len() + 2 * k + 2
            &&& pieces[front.len() + 2 * k] == Piece::Section
            &&& pieces[front.len() + 2 * k + 1] == Piece::Text(all[k])
        }),
{
    assert((2 * k + 1) / 2 == k);
    assert(sections(all)[2 * k] == Piece::Section);
    assert(sections(all)[2 * k + 1] == Piece::Text(all[k]));
}

/// A file asks for the headers that the items of a bridge name, all of them and in their order.
pub proof fn law_named_headers(apis: Seq<Api>, types: Types, header: bool)
    ensures
        file_includes(apis, types, header).custom == apis.filter(
            |api: Api| api is Include,
        ).map_values(|api: Api| api->Include_0@),
{
    lemma_named_headers(apis);
}

proof fn lemma_named_headers(apis: Seq<Api>)
    ensures
        concat(apis.map_values(|api: Api| custom_paths(api))) == apis.filter(
            |api: Api| api is Include,
        ).map_values(|api: Api| api->Include_0@),
    decreases apis.len(),
{
    reveal(Seq::filter);
    let f = |api: Api| custom_paths(api);
    let keep = |api: Api| api is Include;
    let g = |api: Api| api->Include_0@;
    if apis.len() > 0 {
        let front = apis.drop_last();
        lemma_named_headers(front);
        assert(apis.map_values(f).drop_last() =~= front.map_values(f));
        assert(concat(apis.map_values(f)) =~= apis.filter(keep).map_values(g));
    } else {
        assert(concat(apis.map_values(f)) =~= apis.filter(keep).map_values(g));
    }
}

}
