//! Calls: how values cross the boundary in either direction.

use vstd::prelude::*;

use crate::syntax::{ExternFn, Type, Types, Var};
use crate::text::{
    comma_separated, concat, group_joined, lemma_empty_left, lemma_empty_right, lines,
};
use crate::write::functions::{
    cxx_function_shim_text, cxx_shim_arg_text, cxx_shim_signature, manually_drop_text, param_text,
    rust_function_shim_text, rust_shim_arg_text, rust_shim_signature,
};
use crate::write::namespace::link_name;
use crate::write::types::{return_type_text, type_text};

verus! {

/// Before it calls a C++ function, the shim picks the overload whose arguments and value have
/// exactly the types that the bridge names. The shim ends with the call where the function cannot
/// fail.
///
/// What the call says there goes by the value: nothing for none, `return` for a value as it is,
/// an address for a reference of either kind, a representation for a string slice, a raw pointer
/// for a box or a unique pointer, and a new value behind the pointer argument for one that goes
/// behind a pointer.
pub proof fn law_cxx_shim_returns_the_value(
    namespace: Seq<Seq<char>>,
    efn: ExternFn,
    types: Types,
)
    requires
        !efn.throws,
    ensures
        ({
            let shim = cxx_function_shim_text(namespace, efn, types);
            let start = cxx_shim_signature(namespace, efn, types) + ("  "@ + return_type_text(
                efn.ret,
            ) + "(*"@ + efn.ident@ + "$)("@ + comma_separated(
                efn.args@.map_values(|arg: Var| type_text(arg.ty)),
            ) + ") = "@ + efn.ident@ + ";\n"@);
            let call = efn.ident@ + "$("@ + comma_separated(
                efn.args@.map_values(|arg: Var| cxx_shim_arg_text(arg, types)),
            ) + ")"@;
            &&& efn.ret is None ==> shim == start + "  "@ + call + ";\n}\n"@
            &&& efn.ret matches Some(ret) ==> {
                &&& ret is Ref ==> shim == start + "  return &"@ + call + ";\n}\n"@
                &&& ret is Str ==> shim == start + "  return ::rust::Str::Repr("@ + call
                    + ");\n}\n"@
                &&& ret is RustBox ==> shim == start + "  return "@ + call + ".into_raw();\n}\n"@
                &&& ret is UniquePtr ==> shim == start + "  return "@ + call + ".release();\n}\n"@
                &&& ret is Ident && !types.indirect(ret) ==> shim == start + "  return "@ + call
                    + ";\n}\n"@
                &&& ret is Ident && types.indirect(ret) ==> shim == start + "  new (return$) "@
                    + type_text(ret) + "("@ + call + ");\n}\n"@
            }
        }),
{
    broadcast use group_joined;

    lemma_cxx_literals();
}

/// How the pieces of a shim around a C++ function read together.
proof fn lemma_cxx_literals()
    ensures
        ";\n"@ + "}\n"@ == ";\n}\n"@,
        ")"@ + ";\n"@ + "}\n"@ == ");\n}\n"@,
        ".into_raw()"@ + ";\n"@ + "}\n"@ == ".into_raw();\n}\n"@,
        ".release()"@ + ";\n"@ + "}\n"@ == ".release();\n}\n"@,
        "  "@ + "return "@ == "  return "@,
        "  "@ + "return "@ + "&"@ == "  return &"@,
        "  "@ + "return "@ + "::rust::Str::Repr("@ == "  return ::rust::Str::Repr("@,
        "  "@ + "new (return$) "@ == "  new (return$) "@,
{
    reveal_strlit(";\n");
    reveal_strlit("}\n");
    reveal_strlit(";\n}\n");
    reveal_strlit(")");
    reveal_strlit(");\n}\n");
    reveal_strlit(".into_raw()");
    reveal_strlit(".into_raw();\n}\n");
    reveal_strlit(".release()");
    reveal_strlit(".release();\n}\n");
    reveal_strlit("  ");
    reveal_strlit("return ");
    reveal_strlit("  return ");
    reveal_strlit("&");
    reveal_strlit("  return &");
    reveal_strlit("::rust::Str::Repr(");
    reveal_strlit("  return ::rust::Str::Repr(");
    reveal_strlit("new (return$) ");
    reveal_strlit("  new (return$) ");
}

/// The shim around a C++ function that may fail makes the call where an exception is caught,
/// leaves the value, if there is one, behind the pointer argument, and returns no error or the
/// message of the exception.
pub proof fn law_cxx_shim_catches(namespace: Seq<Seq<char>>, efn: ExternFn, types: Types)
    requires
        efn.throws,
    ensures
        ({
            let shim = cxx_function_shim_text(namespace, efn, types);
            let start = cxx_shim_signature(namespace, efn, types) + ("  "@ + return_type_text(
                efn.ret,
            ) + "(*"@ + efn.ident@ + "$)("@ + comma_separated(
                efn.args@.map_values(|arg: Var| type_text(arg.ty)),
            ) + ") = "@ + efn.ident@ + ";\n"@) + "  "@ + "::rust::Str::Repr throw$;\n"@
                + "  try {\n"@ + "    "@;
            let call = efn.ident@ + "$("@ + comma_separated(
                efn.args@.map_values(|arg: Var| cxx_shim_arg_text(arg, types)),
            ) + ")"@;
            let end = "    throw$.ptr = nullptr;\n"@
                + "  } catch (const ::std::exception &catch$) {\n"@
                + "    const char *return$ = catch$.what();\n"@
                + "    throw$.len = ::std::strlen(return$);\n"@
                + "    throw$.ptr = cxxbridge02$exception(return$, throw$.len);\n"@ + "  }\n"@
                + "  return throw$;\n"@ + "}\n"@;
            &&& efn.ret is None ==> shim == start + call + ";\n"@ + end
            &&& efn.ret matches Some(ret) ==> {
                let made = start + "new (return$) "@ + type_text(ret) + "("@ + call;
                &&& ret is RustBox ==> shim == made + ".into_raw()"@ + ")"@ + ";\n"@ + end
                &&& ret is UniquePtr ==> shim == made + ".release()"@ + ")"@ + ";\n"@ + end
                &&& ret is Str ==> shim == made + ")"@ + ")"@ + ";\n"@ + end
                &&& ret is Ref || ret is Ident ==> shim == made + ")"@ + ";\n"@ + end
            }
        }),
{
    broadcast use group_joined;

}

/// A C++ function gets each argument as the bridge names it: a box and a unique pointer made of
/// the raw pointer, a Rust string copied bit by bit, any other value behind a pointer moved out,
/// and anything else as it came.
pub proof fn law_cxx_function_gets_its_arguments(arg: Var, types: Types)
    ensures
        arg.ty is RustBox ==> cxx_shim_arg_text(arg, types) == type_text(arg.ty) + "::from_raw("@
            + arg.ident@ + ")"@,
        arg.ty is UniquePtr ==> cxx_shim_arg_text(arg, types) == type_text(arg.ty) + "("@
            + arg.ident@ + ")"@,
        arg.ty is Ref || arg.ty is Str ==> cxx_shim_arg_text(arg, types) == arg.ident@,
        arg.ty matches Type::Ident(name) ==> {
            &&& name@ == "String"@ ==> cxx_shim_arg_text(arg, types)
                == "::rust::String(::rust::unsafe_bitcopy, *"@ + arg.ident@ + ")"@
            &&& name@ != "String"@ && types.indirect(arg.ty) ==> cxx_shim_arg_text(arg, types)
                == "::std::move(*"@ + arg.ident@ + ")"@
            &&& name@ != "String"@ && !types.indirect(arg.ty) ==> cxx_shim_arg_text(arg, types)
                == arg.ident@
        },
{
    if let Type::Ident(name) = arg.ty {
        crate::spelling::law_atoms_are_named(name@);
    }
}

/// C++ sees a Rust function by its own name, with its comment line by line above it, its arguments
/// in their order, and `noexcept` if and only if it cannot fail. A header has this and no more; a
/// source file goes on with a body.
pub proof fn law_rust_function_is_declared(
    namespace: Seq<Seq<char>>,
    efn: ExternFn,
    types: Types,
)
    ensures
        ({
            let start = concat(
                lines(efn.doc@).map_values(|line: Seq<char>| "//"@ + line + "\n"@),
            ) + return_type_text(efn.ret) + efn.ident@ + "("@ + comma_separated(
                efn.args@.map_values(|arg: Var| param_text(arg)),
            ) + ")"@;
            let header = rust_function_shim_text(namespace, true, efn, types);
            let source = rust_function_shim_text(namespace, false, efn, types);
            &&& efn.throws ==> header == start + ";\n"@
            &&& !efn.throws ==> header == start + " noexcept"@ + ";\n"@
            &&& efn.throws ==> (start + " {\n"@).is_prefix_of(source)
            &&& !efn.throws ==> (start + " noexcept"@ + " {\n"@).is_prefix_of(source)
        }),
{
    broadcast use lemma_empty_right;

}

/// The text of the call by which the shim around a Rust function reaches Rust.
pub open spec fn call_of_rust(
    namespace: Seq<Seq<char>>,
    efn: ExternFn,
    types: Types,
    last: Seq<char>,
) -> Seq<char> {
    link_name(namespace, efn.ident@) + "("@ + comma_separated(
        efn.args@.map_values(|arg: Var| rust_shim_arg_text(arg, types)),
    ) + last + ")"@
}

proof fn lemma_header_start(namespace: Seq<Seq<char>>, efn: ExternFn, types: Types)
    ensures
        ({
            let header = rust_function_shim_text(namespace, true, efn, types);
            header.take(header.len() - 2) == rust_shim_signature(efn)
        }),
{
    reveal_strlit(";\n");
    let header = rust_function_shim_text(namespace, true, efn, types);
    assert(header.take(header.len() - 2) =~= rust_shim_signature(efn));
}

/// In a source file the shim around a Rust function that cannot fail returns the value of the
/// call: as it is, made of the raw pointer for a box or a unique pointer, through the pointer for
/// a reference, and out of the local that Rust filled for a value that goes behind a pointer. It
/// has that local in no other case.
pub proof fn law_rust_shim_returns_the_value(
    namespace: Seq<Seq<char>>,
    efn: ExternFn,
    types: Types,
)
    requires
        !efn.throws,
    ensures
        ({
            let header = rust_function_shim_text(namespace, true, efn, types);
            let source = rust_function_shim_text(namespace, false, efn, types);
            let start = header.take(header.len() - 2) + " {\n"@ + concat(
                efn.args@.map_values(|arg: Var| manually_drop_text(arg, types)),
            );
            let call = call_of_rust(namespace, efn, types, Seq::empty());
            &&& efn.ret is None ==> source == start + "  "@ + call + ";\n}\n"@
            &&& efn.ret matches Some(ret) ==> {
                &&& ret is Str || (ret is Ident && !types.indirect(ret)) ==> source == start
                    + "  return "@ + call + ";\n}\n"@
                &&& ret is Ref ==> source == start + "  return *"@ + call + ";\n}\n"@
                &&& ret is RustBox ==> source == start + "  return "@ + type_text(ret)
                    + "::from_raw("@ + call + ");\n}\n"@
                &&& ret is UniquePtr ==> source == start + "  return "@ + type_text(ret) + "("@
                    + call + ");\n}\n"@
                &&& ret is Ident && types.indirect(ret) ==> {
                    let last = if efn.args@.len() > 0 {
                        ", "@ + "&return$.value"@
                    } else {
                        "&return$.value"@
                    };
                    source == start + "  ::rust::MaybeUninit<"@ + type_text(ret)
                        + "> return$;\n  "@ + call_of_rust(namespace, efn, types, last)
                        + ";\n  return ::std::move(return$.value);\n}\n"@
                }
            }
        }),
{
    broadcast use group_joined;

    lemma_cxx_literals();
    lemma_rust_literals();
    lemma_header_start(namespace, efn, types);
}

/// How the pieces of a shim around a Rust function read together.
proof fn lemma_rust_literals()
    ensures
        "  "@ + "return "@ + "*"@ == "  return *"@,
        "  "@ + "::rust::MaybeUninit<"@ == "  ::rust::MaybeUninit<"@,
        "> return$;\n"@ + "  "@ == "> return$;\n  "@,
        ";\n"@ + "  return ::std::move(return$.value);\n"@ + "}\n"@
            == ";\n  return ::std::move(return$.value);\n}\n"@,
        "  return ::std::move(return$.value);\n"@ + "}\n"@
            == "  return ::std::move(return$.value);\n}\n"@,
{
    reveal_strlit("  ");
    reveal_strlit("return ");
    reveal_strlit("*");
    reveal_strlit("  return *");
    reveal_strlit("::rust::MaybeUninit<");
    reveal_strlit("  ::rust::MaybeUninit<");
    reveal_strlit("> return$;\n");
    reveal_strlit("> return$;\n  ");
    reveal_strlit(";\n");
    reveal_strlit("}\n");
    reveal_strlit("  return ::std::move(return$.value);\n");
    reveal_strlit("  return ::std::move(return$.value);\n}\n");
    reveal_strlit(";\n  return ::std::move(return$.value);\n}\n");
}

/// In a source file the shim around a Rust function that may fail throws the error that the call
/// returned, and otherwise returns the value, if there is one, out of the local that Rust filled.
pub proof fn law_rust_shim_throws(namespace: Seq<Seq<char>>, efn: ExternFn, types: Types)
    requires
        efn.throws,
    ensures
        ({
            let header = rust_function_shim_text(namespace, true, efn, types);
            let source = rust_function_shim_text(namespace, false, efn, types);
            let start = header.take(header.len() - 2) + " {\n"@ + concat(
                efn.args@.map_values(|arg: Var| manually_drop_text(arg, types)),
            );
            let throw = "  if (error$.ptr) {\n"@ + "    throw ::rust::Error(error$);\n"@ + "  }\n"@;
            &&& efn.ret is None ==> source == start + "  "@ + "::rust::Str::Repr error$ = "@
                + call_of_rust(namespace, efn, types, Seq::empty()) + ";\n"@ + throw + "}\n"@
            &&& efn.ret matches Some(ret) ==> {
                let last = if efn.args@.len() > 0 {
                    ", "@ + "&return$.value"@
                } else {
                    "&return$.value"@
                };
                let close = if ret is RustBox || ret is UniquePtr {
                    ")"@
                } else {
                    Seq::empty()
                };
                source == start + "  ::rust::MaybeUninit<"@ + type_text(ret) + "> return$;\n  "@
                    + "::rust::Str::Repr error$ = "@ + call_of_rust(namespace, efn, types, last)
                    + close + ";\n"@ + throw + "  return ::std::move(return$.value);\n}\n"@
            }
        }),
{
    broadcast use group_joined;

    lemma_rust_literals();
    lemma_header_start(namespace, efn, types);
}

/// Rust gets each argument as it is at the boundary: the raw pointer of a box or a unique pointer,
/// the representation of a string slice, the address of a Rust string, and the address of the
/// local that holds any other value behind a pointer. There is such a local for these values
/// only, and the argument is moved into it.
pub proof fn law_rust_function_gets_its_arguments(arg: Var, types: Types)
    ensures
        arg.ty is RustBox ==> rust_shim_arg_text(arg, types) == arg.ident@ + ".into_raw()"@,
        arg.ty is UniquePtr ==> rust_shim_arg_text(arg, types) == arg.ident@ + ".release()"@,
        arg.ty is Str ==> rust_shim_arg_text(arg, types) == "::rust::Str::Repr("@ + arg.ident@
            + ")"@,
        arg.ty is Ref ==> rust_shim_arg_text(arg, types) == arg.ident@,
        !(arg.ty is Ident) ==> manually_drop_text(arg, types) == Seq::<char>::empty(),
        arg.ty matches Type::Ident(name) ==> {
            &&& !types.indirect(arg.ty) ==> rust_shim_arg_text(arg, types) == arg.ident@
            &&& types.indirect(arg.ty) && name@ == "String"@ ==> rust_shim_arg_text(arg, types)
                == "&"@ + arg.ident@
            &&& types.indirect(arg.ty) && name@ != "String"@ ==> rust_shim_arg_text(arg, types)
                == "&"@ + arg.ident@ + "$.value"@
            &&& types.indirect(arg.ty) && name@ != "String"@ ==> manually_drop_text(arg, types)
                == "  ::rust::ManuallyDrop<"@ + type_text(arg.ty) + "> "@ + arg.ident@
                + "$(::std::move("@ + arg.ident@ + "));\n"@
            &&& !types.indirect(arg.ty) || name@ == "String"@ ==> manually_drop_text(arg, types)
                == Seq::<char>::empty()
        },
{
    broadcast use lemma_empty_left, lemma_empty_right;

    if let Type::Ident(name) = arg.ty {
        crate::spelling::law_atoms_are_named(name@);
    }
}

}
