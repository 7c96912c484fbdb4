//! Functions: the shims on either side of the boundary, and the declarations between them.

use vstd::prelude::*;

use crate::includes::IncludesView;
use crate::out::{base, group_write, lemma_write_nothing, OutFile};
use crate::syntax::{all_printable, Atom, ExternFn, Type, Types, Var};
use crate::text::{
    comma_separated, concat, lemma_comma_separated_take, lemma_concat_take, text_if,
};
use crate::write::namespace::{link_name, write_link_name};
use crate::write::structs::{doc_lines, write_doc};
use crate::write::types::{
    extern_arg_text, extern_return_type_text, indirect_return, return_type_text,
    returns_indirectly, type_space_text, type_text, write_extern_arg, write_extern_return_type,
    write_return_type, write_type, write_type_space,
};

verus! {

broadcast use group_write;

/// What a function returns at the boundary: the error if it may fail.
pub open spec fn boundary_return_text(efn: ExternFn, types: Types) -> Seq<char> {
    if efn.throws {
        "::rust::Str::Repr "@
    } else {
        extern_return_type_text(efn.ret, types)
    }
}

/// The last parameter of a function that returns its value through a pointer.
pub open spec fn return_param_text(efn: ExternFn, types: Types) -> Seq<char> {
    text_if(
        returns_indirectly(efn, types),
        text_if(efn.args@.len() > 0, ", "@) + return_type_text(efn.ret) + "*return$"@,
    )
}

/// A parameter of the shim around a C++ function.
pub open spec fn cxx_shim_param_text(arg: Var, types: Types) -> Seq<char> {
    text_if(arg.ty.atom() == Some(Atom::RustString), "const "@) + extern_arg_text(arg, types)
}

/// An argument that the shim around a C++ function hands on.
pub open spec fn cxx_shim_arg_text(arg: Var, types: Types) -> Seq<char> {
    match arg.ty {
        Type::RustBox(_) => type_text(arg.ty) + "::from_raw("@ + arg.ident@ + ")"@,
        Type::UniquePtr(_) => type_text(arg.ty) + "("@ + arg.ident@ + ")"@,
        _ => if arg.ty.atom() == Some(Atom::RustString) {
            "::rust::String(::rust::unsafe_bitcopy, *"@ + arg.ident@ + ")"@
        } else if types.indirect(arg.ty) {
            "::std::move(*"@ + arg.ident@ + ")"@
        } else {
            arg.ident@
        },
    }
}

/// What stands before the call in the shim around a C++ function.
pub open spec fn cxx_shim_before_call(efn: ExternFn, types: Types) -> Seq<char> {
    match efn.ret {
        Some(ret) => if returns_indirectly(efn, types) {
            "new (return$) "@ + type_text(ret) + "("@
        } else {
            "return "@ + match ret {
                Type::Ref(_) => "&"@,
                Type::Str(_) => "::rust::Str::Repr("@,
                _ => Seq::empty(),
            }
        },
        None => Seq::empty(),
    }
}

/// How the value of the call in the shim around a C++ function crosses the boundary.
pub open spec fn cxx_shim_unwrap(ret: Option<Type>) -> Seq<char> {
    match ret {
        Some(Type::RustBox(_)) => ".into_raw()"@,
        Some(Type::UniquePtr(_)) => ".release()"@,
        Some(Type::Str(_)) => ")"@,
        _ => Seq::empty(),
    }
}

/// The start of the part of the shim around a C++ function that may throw.
pub open spec fn cxx_shim_try() -> Seq<char> {
    "::rust::Str::Repr throw$;\n"@ + "  try {\n"@ + "    "@
}

/// How the shim around a C++ function turns an exception into an error.
pub open spec fn cxx_shim_catch() -> Seq<char> {
    "    throw$.ptr = nullptr;\n"@
        + "  } catch (const ::std::exception &catch$) {\n"@
        + "    const char *return$ = catch$.what();\n"@
        + "    throw$.len = ::std::strlen(return$);\n"@
        + "    throw$.ptr = cxxbridge02$exception(return$, throw$.len);\n"@
        + "  }\n"@
        + "  return throw$;\n"@
}

/// The signature of the shim around a C++ function.
pub open spec fn cxx_shim_signature(
    namespace: Seq<Seq<char>>,
    efn: ExternFn,
    types: Types,
) -> Seq<char> {
    boundary_return_text(efn, types) + link_name(namespace, efn.ident@) + "("@ + comma_separated(
        efn.args@.map_values(|arg: Var| cxx_shim_param_text(arg, types)),
    ) + return_param_text(efn, types) + ") noexcept {\n"@
}

/// The pointer by which the shim around a C++ function picks the overload that the bridge names.
pub open spec fn cxx_shim_pointer(efn: ExternFn) -> Seq<char> {
    "  "@ + return_type_text(efn.ret) + "(*"@ + efn.ident@ + "$)("@ + comma_separated(
        efn.args@.map_values(|arg: Var| type_text(arg.ty)),
    ) + ") = "@ + efn.ident@ + ";\n"@
}

/// The call in the shim around a C++ function.
pub open spec fn cxx_shim_call(efn: ExternFn, types: Types) -> Seq<char> {
    "  "@ + text_if(efn.throws, cxx_shim_try()) + cxx_shim_before_call(efn, types) + efn.ident@
        + "$("@ + comma_separated(
        efn.args@.map_values(|arg: Var| cxx_shim_arg_text(arg, types)),
    ) + ")"@ + cxx_shim_unwrap(efn.ret) + text_if(returns_indirectly(efn, types), ")"@) + ";\n"@
}

/// The shim through which Rust calls a C++ function.
pub open spec fn cxx_function_shim_text(
    namespace: Seq<Seq<char>>,
    efn: ExternFn,
    types: Types,
) -> Seq<char> {
    cxx_shim_signature(namespace, efn, types) + cxx_shim_pointer(efn) + cxx_shim_call(efn, types)
        + text_if(efn.throws, cxx_shim_catch()) + "}\n"@
}

/// The declaration of a Rust function as it stands at the boundary.
pub open spec fn rust_function_decl_text(
    namespace: Seq<Seq<char>>,
    efn: ExternFn,
    types: Types,
) -> Seq<char> {
    boundary_return_text(efn, types) + link_name(namespace, efn.ident@) + "("@ + comma_separated(
        efn.args@.map_values(|arg: Var| extern_arg_text(arg, types)),
    ) + return_param_text(efn, types) + ") noexcept;\n"@
}

/// A parameter of a Rust function as C++ sees it.
pub open spec fn param_text(arg: Var) -> Seq<char> {
    type_space_text(arg.ty) + arg.ident@
}

/// Whether the shim around a Rust function gives an argument away, so that Rust alone drops it.
pub open spec fn gives_away(arg: Var, types: Types) -> bool {
    arg.ty.atom() != Some(Atom::RustString) && types.indirect(arg.ty)
}

/// The local that holds an argument which the shim around a Rust function gives away.
pub open spec fn manually_drop_text(arg: Var, types: Types) -> Seq<char> {
    text_if(
        gives_away(arg, types),
        "  ::rust::ManuallyDrop<"@ + type_text(arg.ty) + "> "@ + arg.ident@ + "$(::std::move("@
            + arg.ident@ + "));\n"@,
    )
}

/// An argument that the shim around a Rust function hands on.
pub open spec fn rust_shim_arg_text(arg: Var, types: Types) -> Seq<char> {
    (match arg.ty {
        Type::Str(_) => "::rust::Str::Repr("@,
        _ => text_if(types.indirect(arg.ty), "&"@),
    }) + arg.ident@ + match arg.ty {
        Type::RustBox(_) => ".into_raw()"@,
        Type::UniquePtr(_) => ".release()"@,
        Type::Str(_) => ")"@,
        _ => text_if(gives_away(arg, types), "$.value"@),
    }
}

/// What stands before the call in the shim around a Rust function.
pub open spec fn rust_shim_before_call(efn: ExternFn, types: Types) -> Seq<char> {
    match efn.ret {
        Some(ret) => if returns_indirectly(efn, types) {
            "::rust::MaybeUninit<"@ + type_text(ret) + "> return$;\n"@ + "  "@
        } else {
            "return "@ + match ret {
                Type::RustBox(_) => type_text(ret) + "::from_raw("@,
                Type::UniquePtr(_) => type_text(ret) + "("@,
                Type::Ref(_) => "*"@,
                _ => Seq::empty(),
            }
        },
        None => Seq::empty(),
    }
}

/// The argument behind which the shim around a Rust function awaits the value.
pub open spec fn rust_shim_return_arg(efn: ExternFn, types: Types) -> Seq<char> {
    text_if(
        returns_indirectly(efn, types),
        text_if(efn.args@.len() > 0, ", "@) + "&return$.value"@,
    )
}

/// How the shim around a Rust function turns an error into an exception.
pub open spec fn rust_shim_throw() -> Seq<char> {
    "  if (error$.ptr) {\n"@ + "    throw ::rust::Error(error$);\n"@ + "  }\n"@
}

/// The call in the shim around a Rust function.
pub open spec fn rust_shim_call(
    namespace: Seq<Seq<char>>,
    efn: ExternFn,
    types: Types,
) -> Seq<char> {
    "  "@ + rust_shim_before_call(efn, types) + text_if(
        efn.throws,
        "::rust::Str::Repr error$ = "@,
    ) + link_name(namespace, efn.ident@) + "("@ + comma_separated(
        efn.args@.map_values(|arg: Var| rust_shim_arg_text(arg, types)),
    ) + rust_shim_return_arg(efn, types) + ")"@ + text_if(
        efn.ret matches Some(ret) && (ret is RustBox || ret is UniquePtr),
        ")"@,
    ) + ";\n"@
}

/// The body of the shim around a Rust function.
pub open spec fn rust_shim_body(
    namespace: Seq<Seq<char>>,
    efn: ExternFn,
    types: Types,
) -> Seq<char> {
    " {\n"@ + concat(efn.args@.map_values(|arg: Var| manually_drop_text(arg, types)))
        + rust_shim_call(namespace, efn, types) + text_if(efn.throws, rust_shim_throw()) + text_if(
        returns_indirectly(efn, types),
        "  return ::std::move(return$.value);\n"@,
    ) + "}\n"@
}

/// The signature of the shim around a Rust function, and the comment above it.
pub open spec fn rust_shim_signature(efn: ExternFn) -> Seq<char> {
    concat(doc_lines(efn.doc@)) + return_type_text(efn.ret) + efn.ident@ + "("@ + comma_separated(
        efn.args@.map_values(|arg: Var| param_text(arg)),
    ) + ")"@ + text_if(!efn.throws, " noexcept"@)
}

/// The shim through which C++ calls a Rust function; a header has its declaration only.
pub open spec fn rust_function_shim_text(
    namespace: Seq<Seq<char>>,
    header: bool,
    efn: ExternFn,
    types: Types,
) -> Seq<char> {
    rust_shim_signature(efn) + if header {
        ";\n"@
    } else {
        rust_shim_body(namespace, efn, types)
    }
}

/// Writes what a function returns at the boundary.
fn write_boundary_return(out: &mut OutFile, efn: &ExternFn, types: &Types)
    requires
        efn.printable(),
    ensures
        final(out)@ == old(out)@.write(boundary_return_text(*efn, *types)),
        final(out).includes == old(out).includes,
{
    if efn.throws {
        out.write_str("::rust::Str::Repr ");
    } else {
        write_extern_return_type(out, &efn.ret, types);
    }
}

/// Writes the last parameter of a function that returns its value through a pointer.
fn write_return_param(out: &mut OutFile, efn: &ExternFn, types: &Types)
    requires
        efn.printable(),
    ensures
        final(out)@ == old(out)@.write(return_param_text(*efn, *types)),
        final(out).includes == old(out).includes,
{
    if indirect_return(efn, types) {
        assert(base(out@));
        if efn.args.len() > 0 {
            out.write_str(", ");
        }
        write_return_type(out, &efn.ret);
        out.write_str("*return$");
    } else {
        proof {
            lemma_write_nothing(out@);
        }
    }
}

/// Writes a parameter of the shim around a C++ function.
fn write_cxx_shim_param(out: &mut OutFile, arg: &Var, types: &Types)
    requires
        arg.ty.printable(),
    ensures
        final(out)@ == old(out)@.write(cxx_shim_param_text(*arg, *types)),
        final(out).includes == old(out).includes,
{
    assert(base(out@));
    if arg.ty.is(Atom::RustString) {
        out.write_str("const ");
    }
    write_extern_arg(out, arg, types);
}

/// Writes the parameters of the shim around a C++ function.
fn write_cxx_shim_params(out: &mut OutFile, args: &Vec<Var>, types: &Types)
    requires
        all_printable(args@),
    ensures
        final(out)@ == old(out)@.write(
            comma_separated(args@.map_values(|arg: Var| cxx_shim_param_text(arg, *types))),
        ),
        final(out).includes == old(out).includes,
{
    let ghost start = out@;
    let ghost params = args@.map_values(|arg: Var| cxx_shim_param_text(arg, *types));
    let mut i: usize = 0;
    proof {
        lemma_write_nothing(start);
    }
    while i < args.len()
        invariant
            i <= args.len(),
            all_printable(args@),
            params == args@.map_values(|arg: Var| cxx_shim_param_text(arg, *types)),
            out@ == start.write(comma_separated(params.take(i as int))),
            out.includes == old(out).includes,
        decreases args.len() - i,
    {
        assert(base(start));
        if i > 0 {
            out.write_str(", ");
        }
        write_cxx_shim_param(out, &args[i], types);
        proof {
            lemma_comma_separated_take(params, i as int);
        }
        i += 1;
    }
    proof {
        assert(params.take(i as int) =~= params);
    }
}

/// Writes the signature of the shim around a C++ function.
fn write_cxx_shim_signature(out: &mut OutFile, efn: &ExternFn, types: &Types)
    requires
        efn.printable(),
    ensures
        final(out)@ == old(out)@.write(cxx_shim_signature(old(out)@.namespace, *efn, *types)),
        final(out).includes == old(out).includes,
{
    assert(base(out@));
    write_boundary_return(out, efn, types);
    write_link_name(out, &efn.ident);
    out.write_str("(");
    write_cxx_shim_params(out, &efn.args, types);
    write_return_param(out, efn, types);
    out.write_str(") noexcept {\n");
}

/// Writes the types of the arguments of a function.
fn write_arg_types(out: &mut OutFile, args: &Vec<Var>)
    requires
        all_printable(args@),
    ensures
        final(out)@ == old(out)@.write(
            comma_separated(args@.map_values(|arg: Var| type_text(arg.ty))),
        ),
        final(out).includes == old(out).includes,
{
    let ghost start = out@;
    let ghost arg_types = args@.map_values(|arg: Var| type_text(arg.ty));
    let mut i: usize = 0;
    proof {
        lemma_write_nothing(start);
    }
    while i < args.len()
        invariant
            i <= args.len(),
            all_printable(args@),
            arg_types == args@.map_values(|arg: Var| type_text(arg.ty)),
            out@ == start.write(comma_separated(arg_types.take(i as int))),
            out.includes == old(out).includes,
        decreases args.len() - i,
    {
        assert(base(start));
        if i > 0 {
            out.write_str(", ");
        }
        write_type(out, &args[i].ty);
        proof {
            lemma_comma_separated_take(arg_types, i as int);
        }
        i += 1;
    }
    proof {
        assert(arg_types.take(i as int) =~= arg_types);
    }
}

/// Writes the pointer by which the shim around a C++ function picks the overload.
fn write_cxx_shim_pointer(out: &mut OutFile, efn: &ExternFn)
    requires
        efn.printable(),
    ensures
        final(out)@ == old(out)@.write(cxx_shim_pointer(*efn)),
        final(out).includes == old(out).includes,
{
    assert(base(out@));
    out.write_str("  ");
    write_return_type(out, &efn.ret);
    out.write_str("(*");
    out.write_str(efn.ident.text.as_str());
    out.write_str("$)(");
    write_arg_types(out, &efn.args);
    out.write_str(") = ");
    out.write_str(efn.ident.text.as_str());
    out.write_str(";\n");
}

/// Writes an argument that the shim around a C++ function hands on.
fn write_cxx_shim_arg(out: &mut OutFile, arg: &Var, types: &Types)
    requires
        arg.ty.printable(),
    ensures
        final(out)@ == old(out)@.write(cxx_shim_arg_text(*arg, *types)),
        final(out).includes == old(out).includes,
{
    assert(base(out@));
    if let Type::RustBox(_) = &arg.ty {
        write_type(out, &arg.ty);
        out.write_str("::from_raw(");
        out.write_str(arg.ident.text.as_str());
        out.write_str(")");
    } else if let Type::UniquePtr(_) = &arg.ty {
        write_type(out, &arg.ty);
        out.write_str("(");
        out.write_str(arg.ident.text.as_str());
        out.write_str(")");
    } else if arg.ty.is(Atom::RustString) {
        out.write_str("::rust::String(::rust::unsafe_bitcopy, *");
        out.write_str(arg.ident.text.as_str());
        out.write_str(")");
    } else if types.needs_indirect_abi(&arg.ty) {
        out.write_str("::std::move(*");
        out.write_str(arg.ident.text.as_str());
        out.write_str(")");
    } else {
        out.write_str(arg.ident.text.as_str());
    }
}

/// Writes the arguments that the shim around a C++ function hands on.
fn write_cxx_shim_args(out: &mut OutFile, args: &Vec<Var>, types: &Types)
    requires
        all_printable(args@),
    ensures
        final(out)@ == old(out)@.write(
            comma_separated(args@.map_values(|arg: Var| cxx_shim_arg_text(arg, *types))),
        ),
        final(out).includes == old(out).includes,
{
    let ghost start = out@;
    let ghost call_args = args@.map_values(|arg: Var| cxx_shim_arg_text(arg, *types));
    let mut i: usize = 0;
    proof {
        lemma_write_nothing(start);
    }
    while i < args.len()
        invariant
            i <= args.len(),
            all_printable(args@),
            call_args == args@.map_values(|arg: Var| cxx_shim_arg_text(arg, *types)),
            out@ == start.write(comma_separated(call_args.take(i as int))),
            out.includes == old(out).includes,
        decreases args.len() - i,
    {
        assert(base(start));
        if i > 0 {
            out.write_str(", ");
        }
        write_cxx_shim_arg(out, &args[i], types);
        proof {
            lemma_comma_separated_take(call_args, i as int);
        }
        i += 1;
    }
    proof {
        assert(call_args.take(i as int) =~= call_args);
    }
}

/// Writes the start of the part of the shim around a C++ function that may throw.
fn write_cxx_shim_try(out: &mut OutFile, throws: bool)
    ensures
        final(out)@ == old(out)@.write(text_if(throws, cxx_shim_try())),
        final(out).includes == old(out).includes,
{
    if throws {
        assert(base(out@));
        out.write_str("::rust::Str::Repr throw$;\n");
        out.write_str("  try {\n");
        out.write_str("    ");
    } else {
        proof {
            lemma_write_nothing(out@);
        }
    }
}

/// Writes what stands before the call in the shim around a C++ function.
fn write_cxx_shim_before_call(out: &mut OutFile, efn: &ExternFn, types: &Types)
    requires
        efn.printable(),
    ensures
        final(out)@ == old(out)@.write(cxx_shim_before_call(*efn, *types)),
        final(out).includes == old(out).includes,
{
    if let Some(ret) = &efn.ret {
        assert(base(out@));
        if indirect_return(efn, types) {
            out.write_str("new (return$) ");
            write_type(out, ret);
            out.write_str("(");
        } else {
            out.write_str("return ");
            match ret {
                Type::Ref(_) => out.write_str("&"),
                Type::Str(_) => out.write_str("::rust::Str::Repr("),
                _ => {},
            }
        }
    } else {
        proof {
            lemma_write_nothing(out@);
        }
    }
}

/// Writes how the value of the call in the shim around a C++ function crosses the boundary.
fn write_cxx_shim_unwrap(out: &mut OutFile, ret: &Option<Type>)
    ensures
        final(out)@ == old(out)@.write(cxx_shim_unwrap(*ret)),
        final(out).includes == old(out).includes,
{
    match ret {
        Some(Type::RustBox(_)) => out.write_str(".into_raw()"),
        Some(Type::UniquePtr(_)) => out.write_str(".release()"),
        Some(Type::Str(_)) => out.write_str(")"),
        _ => {
            proof {
                lemma_write_nothing(out@);
            }
        },
    }
}

/// Writes the call in the shim around a C++ function.
fn write_cxx_shim_call(out: &mut OutFile, efn: &ExternFn, types: &Types)
    requires
        efn.printable(),
    ensures
        final(out)@ == old(out)@.write(cxx_shim_call(*efn, *types)),
        final(out).includes == old(out).includes,
{
    assert(base(out@));
    out.write_str("  ");
    write_cxx_shim_try(out, efn.throws);
    write_cxx_shim_before_call(out, efn, types);
    out.write_str(efn.ident.text.as_str());
    out.write_str("$(");
    write_cxx_shim_args(out, &efn.args, types);
    out.write_str(")");
    write_cxx_shim_unwrap(out, &efn.ret);
    if indirect_return(efn, types) {
        out.write_str(")");
    }
    out.write_str(";\n");
}

/// Writes how the shim around a C++ function turns an exception into an error.
fn write_cxx_shim_catch(out: &mut OutFile, throws: bool)
    ensures
        final(out)@ == old(out)@.write(text_if(throws, cxx_shim_catch())),
        final(out).includes@ == (IncludesView {
            cstring: old(out).includes@.cstring || throws,
            ..old(out).includes@
        }),
{
    if throws {
        assert(base(out@));
        out.includes.cstring = true;
        out.write_str("    throw$.ptr = nullptr;\n");
        out.write_str("  } catch (const ::std::exception &catch$) {\n");
        out.write_str("    const char *return$ = catch$.what();\n");
        out.write_str("    throw$.len = ::std::strlen(return$);\n");
        out.write_str("    throw$.ptr = cxxbridge02$exception(return$, throw$.len);\n");
        out.write_str("  }\n");
        out.write_str("  return throw$;\n");
    } else {
        proof {
            lemma_write_nothing(out@);
        }
    }
}

/// Writes the shim through which Rust calls a C++ function.
pub fn write_cxx_function_shim(out: &mut OutFile, efn: &ExternFn, types: &Types)
    requires
        efn.printable(),
    ensures
        final(out)@ == old(out)@.write(cxx_function_shim_text(old(out)@.namespace, *efn, *types)),
        final(out).includes@ == (IncludesView {
            cstring: old(out).includes@.cstring || efn.throws,
            ..old(out).includes@
        }),
{
    assert(base(out@));
    write_cxx_shim_signature(out, efn, types);
    write_cxx_shim_pointer(out, efn);
    write_cxx_shim_call(out, efn, types);
    write_cxx_shim_catch(out, efn.throws);
    out.write_str("}\n");
}

/// Writes arguments at the boundary.
fn write_extern_args(out: &mut OutFile, args: &Vec<Var>, types: &Types)
    requires
        all_printable(args@),
    ensures
        final(out)@ == old(out)@.write(
            comma_separated(args@.map_values(|arg: Var| extern_arg_text(arg, *types))),
        ),
        final(out).includes == old(out).includes,
{
    let ghost start = out@;
    let ghost params = args@.map_values(|arg: Var| extern_arg_text(arg, *types));
    let mut i: usize = 0;
    proof {
        lemma_write_nothing(start);
    }
    while i < args.len()
        invariant
            i <= args.len(),
            all_printable(args@),
            params == args@.map_values(|arg: Var| extern_arg_text(arg, *types)),
            out@ == start.write(comma_separated(params.take(i as int))),
            out.includes == old(out).includes,
        decreases args.len() - i,
    {
        assert(base(start));
        if i > 0 {
            out.write_str(", ");
        }
        write_extern_arg(out, &args[i], types);
        proof {
            lemma_comma_separated_take(params, i as int);
        }
        i += 1;
    }
    proof {
        assert(params.take(i as int) =~= params);
    }
}

/// Writes the declaration of a Rust function as it stands at the boundary.
pub fn write_rust_function_decl(out: &mut OutFile, efn: &ExternFn, types: &Types)
    requires
        efn.printable(),
    ensures
        final(out)@ == old(out)@.write(rust_function_decl_text(old(out)@.namespace, *efn, *types)),
        final(out).includes == old(out).includes,
{
    assert(base(out@));
    write_boundary_return(out, efn, types);
    write_link_name(out, &efn.ident);
    out.write_str("(");
    write_extern_args(out, &efn.args, types);
    write_return_param(out, efn, types);
    out.write_str(") noexcept;\n");
}

/// Writes a parameter of a Rust function as C++ sees it.
fn write_param(out: &mut OutFile, arg: &Var)
    requires
        arg.ty.printable(),
    ensures
        final(out)@ == old(out)@.write(param_text(*arg)),
        final(out).includes == old(out).includes,
{
    assert(base(out@));
    write_type_space(out, &arg.ty);
    out.write_str(arg.ident.text.as_str());
}

/// Writes the parameters of a Rust function as C++ sees them.
fn write_params(out: &mut OutFile, args: &Vec<Var>)
    requires
        all_printable(args@),
    ensures
        final(out)@ == old(out)@.write(
            comma_separated(args@.map_values(|arg: Var| param_text(arg))),
        ),
        final(out).includes == old(out).includes,
{
    let ghost start = out@;
    let ghost params = args@.map_values(|arg: Var| param_text(arg));
    let mut i: usize = 0;
    proof {
        lemma_write_nothing(start);
    }
    while i < args.len()
        invariant
            i <= args.len(),
            all_printable(args@),
            params == args@.map_values(|arg: Var| param_text(arg)),
            out@ == start.write(comma_separated(params.take(i as int))),
            out.includes == old(out).includes,
        decreases args.len() - i,
    {
        assert(base(start));
        if i > 0 {
            out.write_str(", ");
        }
        write_param(out, &args[i]);
        proof {
            lemma_comma_separated_take(params, i as int);
        }
        i += 1;
    }
    proof {
        assert(params.take(i as int) =~= params);
    }
}

/// Writes the signature of the shim around a Rust function, and the comment above it.
fn write_rust_shim_signature(out: &mut OutFile, efn: &ExternFn)
    requires
        efn.printable(),
    ensures
        final(out)@ == old(out)@.write(rust_shim_signature(*efn)),
        final(out).includes == old(out).includes,
{
    assert(base(out@));
    write_doc(out, &efn.doc);
    write_return_type(out, &efn.ret);
    out.write_str(efn.ident.text.as_str());
    out.write_str("(");
    write_params(out, &efn.args);
    out.write_str(")");
    if !efn.throws {
        out.write_str(" noexcept");
    }
}

/// Writes the local that holds an argument which the shim around a Rust function gives away.
fn write_manually_drop(out: &mut OutFile, arg: &Var, types: &Types)
    requires
        arg.ty.printable(),
    ensures
        final(out)@ == old(out)@.write(manually_drop_text(*arg, *types)),
        final(out).includes == old(out).includes,
{
    if !arg.ty.is(Atom::RustString) && types.needs_indirect_abi(&arg.ty) {
        assert(base(out@));
        out.write_str("  ::rust::ManuallyDrop<");
        write_type(out, &arg.ty);
        out.write_str("> ");
        out.write_str(arg.ident.text.as_str());
        out.write_str("$(::std::move(");
        out.write_str(arg.ident.text.as_str());
        out.write_str("));\n");
    } else {
        proof {
            lemma_write_nothing(out@);
        }
    }
}

/// Writes the locals that hold the arguments which the shim around a Rust function gives away.
fn write_manually_drops(out: &mut OutFile, args: &Vec<Var>, types: &Types)
    requires
        all_printable(args@),
    ensures
        final(out)@ == old(out)@.write(
            concat(args@.map_values(|arg: Var| manually_drop_text(arg, *types))),
        ),
        final(out).includes == old(out).includes,
{
    let ghost start = out@;
    let ghost drops = args@.map_values(|arg: Var| manually_drop_text(arg, *types));
    let mut i: usize = 0;
    proof {
        lemma_write_nothing(start);
    }
    while i < args.len()
        invariant
            i <= args.len(),
            all_printable(args@),
            drops == args@.map_values(|arg: Var| manually_drop_text(arg, *types)),
            out@ == start.write(concat(drops.take(i as int))),
            out.includes == old(out).includes,
        decreases args.len() - i,
    {
        assert(base(start));
        write_manually_drop(out, &args[i], types);
        proof {
            lemma_concat_take(drops, i as int);
        }
        i += 1;
    }
    proof {
        assert(drops.take(i as int) =~= drops);
    }
}

/// Writes an argument that the shim around a Rust function hands on.
fn write_rust_shim_arg(out: &mut OutFile, arg: &Var, types: &Types)
    ensures
        final(out)@ == old(out)@.write(rust_shim_arg_text(*arg, *types)),
        final(out).includes == old(out).includes,
{
    assert(base(out@));
    match &arg.ty {
        Type::Str(_) => out.write_str("::rust::Str::Repr("),
        ty => if types.needs_indirect_abi(ty) {
            out.write_str("&");
        },
    }
    out.write_str(arg.ident.text.as_str());
    match &arg.ty {
        Type::RustBox(_) => out.write_str(".into_raw()"),
        Type::UniquePtr(_) => out.write_str(".release()"),
        Type::Str(_) => out.write_str(")"),
        ty => if !ty.is(Atom::RustString) && types.needs_indirect_abi(ty) {
            out.write_str("$.value");
        },
    }
}

/// Writes the arguments that the shim around a Rust function hands on.
fn write_rust_shim_args(out: &mut OutFile, args: &Vec<Var>, types: &Types)
    requires
        all_printable(args@),
    ensures
        final(out)@ == old(out)@.write(
            comma_separated(args@.map_values(|arg: Var| rust_shim_arg_text(arg, *types))),
        ),
        final(out).includes == old(out).includes,
{
    let ghost start = out@;
    let ghost call_args = args@.map_values(|arg: Var| rust_shim_arg_text(arg, *types));
    let mut i: usize = 0;
    proof {
        lemma_write_nothing(start);
    }
    while i < args.len()
        invariant
            i <= args.len(),
            all_printable(args@),
            call_args == args@.map_values(|arg: Var| rust_shim_arg_text(arg, *types)),
            out@ == start.write(comma_separated(call_args.take(i as int))),
            out.includes == old(out).includes,
        decreases args.len() - i,
    {
        assert(base(start));
        if i > 0 {
            out.write_str(", ");
        }
        write_rust_shim_arg(out, &args[i], types);
        proof {
            lemma_comma_separated_take(call_args, i as int);
        }
        i += 1;
    }
    proof {
        assert(call_args.take(i as int) =~= call_args);
    }
}

/// Writes what stands before the call in the shim around a Rust function.
fn write_rust_shim_before_call(out: &mut OutFile, efn: &ExternFn, types: &Types)
    requires
        efn.printable(),
    ensures
        final(out)@ == old(out)@.write(rust_shim_before_call(*efn, *types)),
        final(out).includes == old(out).includes,
{
    if let Some(ret) = &efn.ret {
        assert(base(out@));
        if indirect_return(efn, types) {
            out.write_str("::rust::MaybeUninit<");
            write_type(out, ret);
            out.write_str("> return$;\n");
            out.write_str("  ");
        } else {
            out.write_str("return ");
            let ghost before = out@;
            assert(base(before));
            match ret {
                Type::RustBox(_) => {
                    write_type(out, ret);
                    out.write_str("::from_raw(");
                    assert(out@ == before.write(type_text(*ret) + "::from_raw("@));
                },
                Type::UniquePtr(_) => {
                    write_type(out, ret);
                    out.write_str("(");
                    assert(out@ == before.write(type_text(*ret) + "("@));
                },
                Type::Ref(_) => out.write_str("*"),
                _ => {},
            }
        }
    } else {
        proof {
            lemma_write_nothing(out@);
        }
    }
}

/// Writes the argument behind which the shim around a Rust function awaits the value.
fn write_rust_shim_return_arg(out: &mut OutFile, efn: &ExternFn, types: &Types)
    ensures
        final(out)@ == old(out)@.write(rust_shim_return_arg(*efn, *types)),
        final(out).includes == old(out).includes,
{
    if indirect_return(efn, types) {
        assert(base(out@));
        if efn.args.len() > 0 {
            out.write_str(", ");
        }
        out.write_str("&return$.value");
    } else {
        proof {
            lemma_write_nothing(out@);
        }
    }
}

/// Writes the call in the shim around a Rust function.
fn write_rust_shim_call(out: &mut OutFile, efn: &ExternFn, types: &Types)
    requires
        efn.printable(),
    ensures
        final(out)@ == old(out)@.write(rust_shim_call(old(out)@.namespace, *efn, *types)),
        final(out).includes == old(out).includes,
{
    assert(base(out@));
    out.write_str("  ");
    write_rust_shim_before_call(out, efn, types);
    if efn.throws {
        out.write_str("::rust::Str::Repr error$ = ");
    }
    write_link_name(out, &efn.ident);
    out.write_str("(");
    write_rust_shim_args(out, &efn.args, types);
    write_rust_shim_return_arg(out, efn, types);
    out.write_str(")");
    if let Some(ret) = &efn.ret {
        if let Type::RustBox(_) | Type::UniquePtr(_) = ret {
            out.write_str(")");
        }
    }
    out.write_str(";\n");
}

/// Writes how the shim around a Rust function turns an error into an exception.
fn write_rust_shim_throw(out: &mut OutFile, throws: bool)
    ensures
        final(out)@ == old(out)@.write(text_if(throws, rust_shim_throw())),
        final(out).includes == old(out).includes,
{
    if throws {
        assert(base(out@));
        out.write_str("  if (error$.ptr) {\n");
        out.write_str("    throw ::rust::Error(error$);\n");
        out.write_str("  }\n");
    } else {
        proof {
            lemma_write_nothing(out@);
        }
    }
}

/// Writes the body of the shim around a Rust function.
fn write_rust_shim_body(out: &mut OutFile, efn: &ExternFn, types: &Types)
    requires
        efn.printable(),
    ensures
        final(out)@ == old(out)@.write(rust_shim_body(old(out)@.namespace, *efn, *types)),
        final(out).includes == old(out).includes,
{
    assert(base(out@));
    out.write_str(" {\n");
    write_manually_drops(out, &efn.args, types);
    write_rust_shim_call(out, efn, types);
    write_rust_shim_throw(out, efn.throws);
    if indirect_return(efn, types) {
        out.write_str("  return ::std::move(return$.value);\n");
    }
    out.write_str("}\n");
}

/// Writes the shim through which C++ calls a Rust function; a header gets its declaration only.
pub fn write_rust_function_shim(out: &mut OutFile, efn: &ExternFn, types: &Types)
    requires
        efn.printable(),
    ensures
        final(out)@ == old(out)@.write(
            rust_function_shim_text(old(out)@.namespace, old(out)@.header, *efn, *types),
        ),
        final(out).includes == old(out).includes,
{
    assert(base(out@));
    write_rust_shim_signature(out, efn);
    if out.header {
        out.write_str(";\n");
    } else {
        write_rust_shim_body(out, efn, types);
    }
}

}
