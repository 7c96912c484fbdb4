//! Lines: a function is declared at the boundary on one line, the first line of its shim.

use vstd::prelude::*;

use crate::laws::{
    all_free_of, boundary_signature, boundary_signature_with_const, free_of,
    law_boundary_signatures_agree,
};
use crate::syntax::{ExternFn, Type, Types, Var};
use crate::text::{comma_separated, concat, line_end};
use crate::write::functions::{
    boundary_return_text, cxx_function_shim_text, cxx_shim_param_text, cxx_shim_signature,
    return_param_text, rust_function_decl_text,
};
use crate::write::namespace::link_name;
use crate::write::types::{extern_arg_text, return_type_text, type_space_text, type_text};

verus! {

/// Whether a text is one line: it has a line feed at its end, and nowhere else.
pub open spec fn is_line(s: Seq<char>) -> bool {
    &&& s.len() > 0
    &&& s.last() == '\n'
    &&& free_of(s.drop_last(), '\n')
}

/// The first line of a text that has a line feed, with that line feed.
pub open spec fn first_line(s: Seq<char>) -> Seq<char> {
    s.take(line_end(s) as int + 1)
}

/// Whether the names in a type are free of line feeds, as identifiers are.
pub open spec fn type_on_line(ty: Type) -> bool
    decreases ty,
{
    match ty {
        Type::Ident(ident) => free_of(ident@, '\n'),
        Type::RustBox(ty) => type_on_line(ty.inner),
        Type::UniquePtr(ptr) => type_on_line(ptr.inner),
        Type::Ref(r) => type_on_line(r.inner),
        Type::Str(_) => true,
        Type::Void => true,
    }
}

/// Whether the names in a list of arguments are free of line feeds.
pub open spec fn args_on_line(args: Seq<Var>) -> bool {
    forall|i: int|
        0 <= i < args.len() ==> free_of((#[trigger] args[i]).ident@, '\n') && type_on_line(
            args[i].ty,
        )
}

/// Whether the names in a function are free of line feeds.
pub open spec fn function_on_line(efn: ExternFn) -> bool {
    &&& free_of(efn.ident@, '\n')
    &&& args_on_line(efn.args@)
    &&& efn.ret matches Some(ret) ==> type_on_line(ret)
}

broadcast proof fn lemma_free_add(a: Seq<char>, b: Seq<char>, c: char)
    requires
        free_of(a, c),
        free_of(b, c),
    ensures
        #[trigger] free_of(a + b, c),
{
}

proof fn lemma_concat(parts: Seq<Seq<char>>)
    requires
        all_free_of(parts, '\n'),
    ensures
        free_of(concat(parts), '\n'),
    decreases parts.len(),
{
    if parts.len() > 0 {
        assert(all_free_of(parts.drop_last(), '\n'));
        lemma_concat(parts.drop_last());
        lemma_free_add(concat(parts.drop_last()), parts.last(), '\n');
    }
}

proof fn lemma_comma_separated(parts: Seq<Seq<char>>)
    requires
        all_free_of(parts, '\n'),
    ensures
        free_of(comma_separated(parts), '\n'),
    decreases parts.len(),
{
    broadcast use lemma_free_add;

    lemma_boundary_literals();
    if parts.len() > 0 {
        assert(all_free_of(parts.drop_last(), '\n'));
        lemma_comma_separated(parts.drop_last());
    }
}

/// The names of atoms.
proof fn lemma_atom_literals()
    ensures
        free_of("bool"@, '\n'),
        free_of("uint8_t"@, '\n'),
        free_of("uint16_t"@, '\n'),
        free_of("uint32_t"@, '\n'),
        free_of("uint64_t"@, '\n'),
        free_of("size_t"@, '\n'),
        free_of("int8_t"@, '\n'),
        free_of("int16_t"@, '\n'),
        free_of("int32_t"@, '\n'),
        free_of("int64_t"@, '\n'),
        free_of("ssize_t"@, '\n'),
        free_of("float"@, '\n'),
        free_of("double"@, '\n'),
        free_of("::std::string"@, '\n'),
        free_of("::rust::String"@, '\n'),
{
    reveal_strlit("bool");
    reveal_strlit("uint8_t");
    reveal_strlit("uint16_t");
    reveal_strlit("uint32_t");
    reveal_strlit("uint64_t");
    reveal_strlit("size_t");
    reveal_strlit("int8_t");
    reveal_strlit("int16_t");
    reveal_strlit("int32_t");
    reveal_strlit("int64_t");
    reveal_strlit("ssize_t");
    reveal_strlit("float");
    reveal_strlit("double");
    reveal_strlit("::std::string");
    reveal_strlit("::rust::String");
}

/// The spelling of other types.
proof fn lemma_type_literals()
    ensures
        free_of("::rust::Box<"@, '\n'),
        free_of(">"@, '\n'),
        free_of("::std::unique_ptr<"@, '\n'),
        free_of("const "@, '\n'),
        free_of(" &"@, '\n'),
        free_of("::rust::Str"@, '\n'),
        free_of(" "@, '\n'),
        free_of("void "@, '\n'),
        free_of("*"@, '\n'),
        free_of(" *"@, '\n'),
        free_of("::rust::Str::Repr "@, '\n'),
{
    reveal_strlit("::rust::Box<");
    reveal_strlit(">");
    reveal_strlit("::std::unique_ptr<");
    reveal_strlit("const ");
    reveal_strlit(" &");
    reveal_strlit("::rust::Str");
    reveal_strlit(" ");
    reveal_strlit("void ");
    reveal_strlit("*");
    reveal_strlit(" *");
    reveal_strlit("::rust::Str::Repr ");
}

/// What stands between the names in a signature.
proof fn lemma_boundary_literals()
    ensures
        free_of("$"@, '\n'),
        free_of("cxxbridge02$"@, '\n'),
        free_of(", "@, '\n'),
        free_of("*return$"@, '\n'),
        free_of("("@, '\n'),
        is_line(") noexcept;\n"@),
        is_line(") noexcept {\n"@),
{
    reveal_strlit("$");
    reveal_strlit("cxxbridge02$");
    reveal_strlit(", ");
    reveal_strlit("*return$");
    reveal_strlit("(");
    reveal_strlit(") noexcept;\n");
    reveal_strlit(") noexcept {\n");
}

proof fn lemma_type_text(ty: Type)
    requires
        type_on_line(ty),
    ensures
        free_of(type_text(ty), '\n'),
        free_of(type_space_text(ty), '\n'),
    decreases ty,
{
    broadcast use lemma_free_add;

    lemma_atom_literals();
    lemma_type_literals();
    match ty {
        Type::RustBox(ty) => lemma_type_text(ty.inner),
        Type::UniquePtr(ptr) => lemma_type_text(ptr.inner),
        Type::Ref(r) => lemma_type_text(r.inner),
        _ => {},
    }
}

proof fn lemma_extern_arg_text(arg: Var, types: Types)
    requires
        free_of(arg.ident@, '\n'),
        type_on_line(arg.ty),
    ensures
        free_of(extern_arg_text(arg, types), '\n'),
        free_of(cxx_shim_param_text(arg, types), '\n'),
{
    broadcast use lemma_free_add;

    lemma_type_literals();
    lemma_type_text(arg.ty);
    match arg.ty {
        Type::RustBox(ty) => lemma_type_text(ty.inner),
        Type::UniquePtr(ptr) => lemma_type_text(ptr.inner),
        _ => {},
    }
}

proof fn lemma_link_name(namespace: Seq<Seq<char>>, ident: Seq<char>)
    requires
        all_free_of(namespace, '\n'),
        free_of(ident, '\n'),
    ensures
        free_of(link_name(namespace, ident), '\n'),
{
    broadcast use lemma_free_add;

    lemma_boundary_literals();
    let parts = namespace.map_values(|name: Seq<char>| name + "$"@);
    assert forall|i: int| 0 <= i < parts.len() implies free_of(#[trigger] parts[i], '\n') by {
        assert(free_of(namespace[i], '\n'));
    }
    lemma_concat(parts);
}

/// What stands at the boundary in front of the parameters that a bridge names, and behind them.
proof fn lemma_around_params(namespace: Seq<Seq<char>>, efn: ExternFn, types: Types)
    requires
        all_free_of(namespace, '\n'),
        function_on_line(efn),
    ensures
        free_of(
            boundary_return_text(efn, types) + link_name(namespace, efn.ident@) + "("@,
            '\n',
        ),
        free_of(return_param_text(efn, types), '\n'),
{
    broadcast use lemma_free_add;

    lemma_type_literals();
    lemma_boundary_literals();
    lemma_link_name(namespace, efn.ident@);
    if let Some(ret) = efn.ret {
        lemma_type_text(ret);
        match ret {
            Type::RustBox(ty) => lemma_type_text(ty.inner),
            Type::UniquePtr(ptr) => lemma_type_text(ptr.inner),
            Type::Ref(r) => lemma_type_text(r.inner),
            _ => {},
        }
    }
    assert(free_of(boundary_return_text(efn, types), '\n'));
    assert(free_of(return_type_text(efn.ret), '\n'));
}

/// What ends in a line is a line, if there is no line feed before it.
proof fn lemma_line_add(a: Seq<char>, b: Seq<char>)
    requires
        free_of(a, '\n'),
        is_line(b),
    ensures
        is_line(a + b),
{
    assert((a + b).drop_last() =~= a + b.drop_last());
    lemma_free_add(a, b.drop_last(), '\n');
}

/// A line at the start of a text is the first line of that text.
proof fn lemma_first_line(s: Seq<char>, line: Seq<char>)
    requires
        is_line(line),
        line.is_prefix_of(s),
    ensures
        line_end(s) + 1 == line.len(),
        first_line(s) == line,
    decreases line.len(),
{
    assert(s[0] == line[0]);
    if line.len() > 1 {
        assert(line.drop_last()[0] == line[0]);
        let tail = line.skip(1);
        assert(tail.drop_last() =~= line.drop_last().skip(1));
        assert(tail =~= s.skip(1).take(tail.len() as int));
        lemma_first_line(s.skip(1), tail);
    }
    assert(first_line(s) =~= line);
}

/// The declaration of a Rust function at the boundary is one line. It is the first line of the
/// shim around a C++ function with the same signature, without the `const ` in front of each Rust
/// string that the function takes by value, and with `;` in place of ` {`.
pub proof fn law_declaration_is_first_line(
    namespace: Seq<Seq<char>>,
    efn: ExternFn,
    types: Types,
)
    requires
        all_free_of(namespace, '\n'),
        function_on_line(efn),
    ensures
        is_line(rust_function_decl_text(namespace, efn, types)),
        rust_function_decl_text(namespace, efn, types) == boundary_signature(namespace, efn, types)
            + ") noexcept;\n"@,
        is_line(first_line(cxx_function_shim_text(namespace, efn, types))),
        first_line(cxx_function_shim_text(namespace, efn, types))
            == boundary_signature_with_const(namespace, efn, types) + ") noexcept {\n"@,
{
    broadcast use lemma_free_add;

    law_boundary_signatures_agree(namespace, efn, types);
    lemma_boundary_literals();
    lemma_around_params(namespace, efn, types);
    let plain = efn.args@.map_values(|arg: Var| extern_arg_text(arg, types));
    let marked = efn.args@.map_values(|arg: Var| cxx_shim_param_text(arg, types));
    assert forall|i: int| 0 <= i < plain.len() implies free_of(#[trigger] plain[i], '\n') by {
        lemma_extern_arg_text(efn.args@[i], types);
    }
    assert forall|i: int| 0 <= i < marked.len() implies free_of(#[trigger] marked[i], '\n') by {
        lemma_extern_arg_text(efn.args@[i], types);
    }
    lemma_comma_separated(plain);
    lemma_comma_separated(marked);
    let head = boundary_return_text(efn, types) + link_name(namespace, efn.ident@) + "("@;
    let tail = return_param_text(efn, types);
    lemma_line_add(head + comma_separated(plain) + tail, ") noexcept;\n"@);
    lemma_line_add(head + comma_separated(marked) + tail, ") noexcept {\n"@);
    lemma_first_line(
        cxx_function_shim_text(namespace, efn, types),
        cxx_shim_signature(namespace, efn, types),
    );
}

}
