//! What holds of the parts of a generated file together.

use vstd::prelude::*;

use crate::out::{section, text};
use crate::syntax::{Api, Atom, ExternFn, Types, Var};
use crate::text::{comma_separated, concat, dollars_for_colons, text_if};
use crate::write::bridge::{
    exception_glue_pieces, gives_something_away, needs_of, returns_behind_pointer, takes_string,
};
use crate::write::functions::{
    boundary_return_text, cxx_function_shim_text, cxx_shim_param_text, cxx_shim_signature,
    return_param_text, rust_function_decl_text, rust_function_shim_text, rust_shim_body,
    rust_shim_signature,
};
use crate::write::namespace::{instance_name, link_name, link_prefix, qualified_name};
use crate::write::types::extern_arg_text;
use crate::write::{
    custom_paths, decl_pieces, file_includes, file_pieces, shim_pieces, struct_pieces,
};

verus! {

/// Leaving out items that contribute nothing changes nothing.
proof fn lemma_concat_filter<A, B>(
    items: Seq<A>,
    keep: spec_fn(A) -> bool,
    f: spec_fn(A) -> Seq<B>,
)
    requires
        forall|item: A| !keep(item) ==> #[trigger] f(item) == Seq::<B>::empty(),
    ensures
        concat(items.filter(keep).map_values(f)) == concat(items.map_values(f)),
    decreases items.len(),
{
    reveal(Seq::filter);
    if items.len() > 0 {
        let front = items.drop_last();
        lemma_concat_filter(front, keep, f);
        assert(items.map_values(f).drop_last() =~= front.map_values(f));
        if keep(items.last()) {
            let kept = front.filter(keep).push(items.last());
            assert(kept.map_values(f).drop_last() =~= front.filter(keep).map_values(f));
        } else {
            assert(concat(items.map_values(f)) =~= concat(front.map_values(f)));
        }
    } else {
        assert(items.filter(keep).map_values(f) =~= items.map_values(f));
    }
}

/// A header says nothing of the C++ functions of its bridge: without them it is the same.
pub proof fn law_header_ignores_cxx_functions(
    namespace: Seq<Seq<char>>,
    apis: Seq<Api>,
    types: Types,
    cxx: Seq<char>,
)
    ensures
        ({
            let others = apis.filter(|api: Api| !(api is CxxFunction));
            &&& file_pieces(namespace, others, types, true, cxx) == file_pieces(
                namespace,
                apis,
                types,
                true,
                cxx,
            )
            &&& file_includes(others, types, true) == file_includes(apis, types, true)
        }),
{
    let keep = |api: Api| !(api is CxxFunction);
    lemma_concat_filter(apis, keep, |api: Api| decl_pieces(api));
    lemma_concat_filter(apis, keep, |api: Api| struct_pieces(api));
    lemma_concat_filter(apis, keep, |api: Api| shim_pieces(namespace, true, api, types));
    lemma_concat_filter(apis, keep, |api: Api| custom_paths(api));
}

/// What a function looks like at the boundary, up to the end of its parameters.
pub open spec fn boundary_signature(
    namespace: Seq<Seq<char>>,
    efn: ExternFn,
    types: Types,
) -> Seq<char> {
    boundary_return_text(efn, types) + link_name(namespace, efn.ident@) + "("@ + comma_separated(
        efn.args@.map_values(|arg: Var| extern_arg_text(arg, types)),
    ) + return_param_text(efn, types)
}

/// What a function looks like at the boundary, up to the end of its parameters, with a `const `
/// in front of each Rust string that it takes by value.
pub open spec fn boundary_signature_with_const(
    namespace: Seq<Seq<char>>,
    efn: ExternFn,
    types: Types,
) -> Seq<char> {
    boundary_return_text(efn, types) + link_name(namespace, efn.ident@) + "("@ + comma_separated(
        efn.args@.map_values(
            |arg: Var|
                text_if(arg.ty.atom() == Some(Atom::RustString), "const "@) + extern_arg_text(
                    arg,
                    types,
                ),
        ),
    ) + return_param_text(efn, types)
}

/// A function looks the same at the boundary whichever language defines it, but for the `const `
/// that the shim around a C++ function has in front of each Rust string that it takes by value.
/// The shim starts with that signature.
pub proof fn law_boundary_signatures_agree(
    namespace: Seq<Seq<char>>,
    efn: ExternFn,
    types: Types,
)
    ensures
        rust_function_decl_text(namespace, efn, types) == boundary_signature(namespace, efn, types)
            + ") noexcept;\n"@,
        cxx_shim_signature(namespace, efn, types) == boundary_signature_with_const(
            namespace,
            efn,
            types,
        ) + ") noexcept {\n"@,
        cxx_shim_signature(namespace, efn, types).is_prefix_of(
            cxx_function_shim_text(namespace, efn, types),
        ),
        !takes_string(efn) ==> boundary_signature_with_const(namespace, efn, types)
            == boundary_signature(namespace, efn, types),
{
    let marked = efn.args@.map_values(
        |arg: Var|
            text_if(arg.ty.atom() == Some(Atom::RustString), "const "@) + extern_arg_text(
                arg,
                types,
            ),
    );
    let plain = efn.args@.map_values(|arg: Var| extern_arg_text(arg, types));
    assert(efn.args@.map_values(|arg: Var| cxx_shim_param_text(arg, types)) =~= marked);
    if !takes_string(efn) {
        assert forall|i: int| 0 <= i < marked.len() implies marked[i] == plain[i] by {
            let arg = efn.args@[i];
            assert(arg.ty.atom() != Some(Atom::RustString));
            assert(marked[i] =~= extern_arg_text(arg, types));
        }
        assert(marked =~= plain);
    }
}

/// The header and the source file of a bridge agree on the signature of a Rust function.
pub proof fn law_declaration_matches_definition(
    namespace: Seq<Seq<char>>,
    efn: ExternFn,
    types: Types,
)
    ensures
        rust_function_shim_text(namespace, true, efn, types) == rust_shim_signature(efn)
            + ";\n"@,
        rust_function_shim_text(namespace, false, efn, types) == rust_shim_signature(efn)
            + rust_shim_body(namespace, efn, types),
{
}

/// A source file has what its shims use for errors, strings and arguments that are given away,
/// and for values that a Rust function returns behind a pointer.
pub proof fn law_runtime_covers_use(apis: Seq<Api>, types: Types, i: int)
    requires
        0 <= i < apis.len(),
    ensures
        apis[i] matches Api::CxxFunction(efn) ==> {
            &&& takes_string(efn) ==> needs_of(apis, types, false).unsafe_bitcopy
            &&& efn.throws ==> file_includes(apis, types, false).cstring
            &&& efn.throws ==> exception_glue_pieces(apis) == section() + text(
                "const char *cxxbridge02$exception(const char *, size_t);"@,
            )
        },
        apis[i] matches Api::RustFunction(efn) ==> {
            &&& efn.throws ==> needs_of(apis, types, false).rust_error
            &&& efn.throws ==> file_includes(apis, types, false).exception
            &&& gives_something_away(efn, types) ==> needs_of(apis, types, false).manually_drop
            &&& returns_behind_pointer(efn, types) ==> needs_of(apis, types, false).maybe_uninit
        },
{
}

/// Whether `c` does not occur in `s`.
pub open spec fn free_of(s: Seq<char>, c: char) -> bool {
    forall|i: int| 0 <= i < s.len() ==> s[i] != c
}

/// Whether `c` occurs in none of the names.
pub open spec fn all_free_of(names: Seq<Seq<char>>, c: char) -> bool {
    forall|i: int| 0 <= i < names.len() ==> free_of(#[trigger] names[i], c)
}

proof fn lemma_link_prefix_last(names: Seq<Seq<char>>)
    requires
        names.len() > 0,
    ensures
        link_prefix(names) == (link_prefix(names.drop_last()) + names.last()).push('$'),
{
    reveal_strlit("$");
    let parts = names.map_values(|name: Seq<char>| name + "$"@);
    assert(parts.drop_last() =~= names.drop_last().map_values(|name: Seq<char>| name + "$"@));
    assert(link_prefix(names) =~= (link_prefix(names.drop_last()) + names.last()).push('$'));
}

/// Names that are free of `$` can be told apart after a `$` is put between them.
proof fn lemma_link_prefix_splits(
    a: Seq<Seq<char>>,
    a_last: Seq<char>,
    b: Seq<Seq<char>>,
    b_last: Seq<char>,
)
    requires
        all_free_of(a, '$'),
        all_free_of(b, '$'),
        free_of(a_last, '$'),
        free_of(b_last, '$'),
        link_prefix(a) + a_last == link_prefix(b) + b_last,
    ensures
        a == b,
        a_last == b_last,
    decreases a.len(),
{
    let whole = link_prefix(a) + a_last;
    let other = link_prefix(b) + b_last;
    let a_len = link_prefix(a).len() as int;
    let b_len = link_prefix(b).len() as int;
    if a.len() > 0 {
        lemma_link_prefix_last(a);
        assert(whole[a_len - 1] == '$');
    }
    if b.len() > 0 {
        lemma_link_prefix_last(b);
        assert(other[b_len - 1] == '$');
    }
    assert(whole.len() == a_len + a_last.len());
    assert(other.len() == b_len + b_last.len());
    if a_len < b_len {
        assert(b.len() > 0);
        assert(whole[b_len - 1] == a_last[b_len - 1 - a_len]);
        assert(false);
    }
    if b_len < a_len {
        assert(a.len() > 0);
        assert(other[a_len - 1] == b_last[a_len - 1 - b_len]);
        assert(false);
    }
    assert(a_last =~= b_last) by {
        assert forall|i: int| 0 <= i < a_last.len() implies a_last[i] == b_last[i] by {
            assert(whole[a_len + i] == a_last[i]);
            assert(other[a_len + i] == b_last[i]);
        }
    }
    assert(link_prefix(a) =~= link_prefix(b)) by {
        assert(link_prefix(a) =~= whole.take(a_len));
        assert(link_prefix(b) =~= whole.take(a_len));
    }
    if a.len() > 0 && b.len() > 0 {
        let a_front = link_prefix(a.drop_last()) + a.last();
        let b_front = link_prefix(b.drop_last()) + b.last();
        assert(a_front =~= link_prefix(a).drop_last());
        assert(b_front =~= link_prefix(b).drop_last());
        assert(all_free_of(a.drop_last(), '$'));
        assert(all_free_of(b.drop_last(), '$'));
        lemma_link_prefix_splits(a.drop_last(), a.last(), b.drop_last(), b.last());
        assert(a =~= a.drop_last().push(a.last()));
        assert(b =~= b.drop_last().push(b.last()));
    } else {
        assert(a =~= b);
    }
}

/// No two functions share the name by which the linker knows them, within a bridge or across
/// bridges, as long as the names they are made of are free of `$`.
pub proof fn law_link_names_distinct(
    a_namespace: Seq<Seq<char>>,
    a: Seq<char>,
    b_namespace: Seq<Seq<char>>,
    b: Seq<char>,
)
    requires
        all_free_of(a_namespace, '$'),
        all_free_of(b_namespace, '$'),
        free_of(a, '$'),
        free_of(b, '$'),
        link_name(a_namespace, a) == link_name(b_namespace, b),
    ensures
        a_namespace == b_namespace,
        a == b,
{
    reveal_strlit("cxxbridge02$");
    reveal_strlit("cxxbridge02");
    let mark = "cxxbridge02"@;
    let a_names = a_namespace.push(mark);
    let b_names = b_namespace.push(mark);
    assert("cxxbridge02$"@ =~= mark.push('$'));
    assert(a_names.drop_last() =~= a_namespace);
    assert(b_names.drop_last() =~= b_namespace);
    lemma_link_prefix_last(a_names);
    lemma_link_prefix_last(b_names);
    assert(link_name(a_namespace, a) =~= link_prefix(a_names) + a);
    assert(link_name(b_namespace, b) =~= link_prefix(b_names) + b);
    lemma_link_prefix_splits(a_names, a, b_names, b);
}

proof fn lemma_dollars_plain(s: Seq<char>)
    requires
        free_of(s, ':'),
    ensures
        dollars_for_colons(s) == s,
    decreases s.len(),
{
    if s.len() >= 2 {
        lemma_dollars_plain(s.skip(1));
        assert(dollars_for_colons(s) =~= s);
    }
}

proof fn lemma_dollars_segment(segment: Seq<char>, rest: Seq<char>)
    requires
        free_of(segment, ':'),
    ensures
        dollars_for_colons(segment + "::"@ + rest) == segment + "$"@ + dollars_for_colons(rest),
    decreases segment.len(),
{
    reveal_strlit("::");
    reveal_strlit("$");
    let s = segment + "::"@ + rest;
    if segment.len() == 0 {
        assert(s[0] == ':' && s[1] == ':');
        assert(s.skip(2) =~= rest);
        assert(dollars_for_colons(s) =~= segment + "$"@ + dollars_for_colons(rest));
    } else {
        let tail = segment.skip(1);
        lemma_dollars_segment(tail, rest);
        assert(s[0] == segment[0]);
        assert(s.skip(1) =~= tail + "::"@ + rest);
        assert(dollars_for_colons(s) =~= segment + "$"@ + dollars_for_colons(rest));
    }
}

proof fn lemma_dollars_namespace(namespace: Seq<Seq<char>>, rest: Seq<char>)
    requires
        all_free_of(namespace, ':'),
    ensures
        dollars_for_colons(qualified_name(namespace, rest)) == link_prefix(namespace)
            + dollars_for_colons(rest),
    decreases namespace.len(),
{
    if namespace.len() == 0 {
        assert(qualified_name(namespace, rest) =~= rest);
        assert(link_prefix(namespace) + dollars_for_colons(rest) =~= dollars_for_colons(rest));
    } else {
        let front = namespace.drop_last();
        let last = namespace.last();
        let parts = namespace.map_values(|name: Seq<char>| name + "::"@);
        assert(parts.drop_last() =~= front.map_values(|name: Seq<char>| name + "::"@));
        assert(qualified_name(namespace, rest) =~= qualified_name(front, last + "::"@ + rest));
        assert(all_free_of(front, ':'));
        lemma_dollars_namespace(front, last + "::"@ + rest);
        lemma_dollars_segment(last, rest);
        lemma_link_prefix_last(namespace);
        reveal_strlit("$");
        assert(link_prefix(front) + (last + "$"@ + dollars_for_colons(rest)) =~= link_prefix(
            namespace,
        ) + dollars_for_colons(rest));
    }
}

/// The name of an instance is the name of the type with a `$` after each segment of the
/// namespace, as long as the names it is made of are free of `:`.
pub proof fn law_instance_name(namespace: Seq<Seq<char>>, ident: Seq<char>)
    requires
        all_free_of(namespace, ':'),
        free_of(ident, ':'),
    ensures
        instance_name(namespace, ident) == link_prefix(namespace) + ident,
{
    lemma_dollars_namespace(namespace, ident);
    lemma_dollars_plain(ident);
}

/// No two types share the name of their instances, as long as the names they are made of are
/// free of `:` and `$`.
pub proof fn law_instance_names_distinct(
    a_namespace: Seq<Seq<char>>,
    a: Seq<char>,
    b_namespace: Seq<Seq<char>>,
    b: Seq<char>,
)
    requires
        all_free_of(a_namespace, ':') && all_free_of(a_namespace, '$'),
        all_free_of(b_namespace, ':') && all_free_of(b_namespace, '$'),
        free_of(a, ':') && free_of(a, '$'),
        free_of(b, ':') && free_of(b, '$'),
        instance_name(a_namespace, a) == instance_name(b_namespace, b),
    ensures
        a_namespace == b_namespace,
        a == b,
{
    law_instance_name(a_namespace, a);
    law_instance_name(b_namespace, b);
    lemma_link_prefix_splits(a_namespace, a, b_namespace, b);
}

}
