//! Brackets: a shim closes each one that it opens.

use vstd::prelude::*;

use crate::syntax::{ExternFn, Type, Types, Var};
use crate::text::{comma_separated, concat, text_if};
use crate::write::functions::{
    boundary_return_text, cxx_function_shim_text, cxx_shim_arg_text, cxx_shim_call, cxx_shim_catch,
    cxx_shim_param_text, cxx_shim_pointer, cxx_shim_signature, manually_drop_text, param_text,
    return_param_text, rust_function_decl_text, rust_function_shim_text, rust_shim_arg_text,
    rust_shim_body, rust_shim_call,
};
use crate::write::namespace::link_name;
use crate::write::structs::doc_lines;
use crate::write::types::{extern_arg_text, return_type_text, type_space_text, type_text};

verus! {

/// A kind of bracket.
#[derive(Clone, Copy, Debug, PartialEq, Eq, Structural)]
pub enum Bracket {
    /// `(` and `)`.
    Round,
    /// `{` and `}`.
    Curly,
}

/// One for an opening bracket, minus one for a closing bracket, zero for anything else.
pub open spec fn weight(c: char, bracket: Bracket) -> int {
    match bracket {
        Bracket::Round => if c == '(' {
            1
        } else if c == ')' {
            -1
        } else {
            0
        },
        Bracket::Curly => if c == '{' {
            1
        } else if c == '}' {
            -1
        } else {
            0
        },
    }
}

/// How many more brackets the first `n` characters of `s` open than they close.
pub open spec fn surplus_upto(s: Seq<char>, bracket: Bracket, n: int) -> int
    decreases n,
{
    if n <= 0 {
        0
    } else {
        surplus_upto(s, bracket, n - 1) + weight(s[n - 1], bracket)
    }
}

/// How many more brackets a text opens than it closes.
pub open spec fn surplus(s: Seq<char>, bracket: Bracket) -> int {
    surplus_upto(s, bracket, s.len() as int)
}

/// Whether a text closes each bracket that it opens, and none that it has not opened before.
pub open spec fn matched(s: Seq<char>, bracket: Bracket) -> bool {
    &&& surplus(s, bracket) == 0
    &&& forall|n: int| 0 <= n <= s.len() ==> #[trigger] surplus_upto(s, bracket, n) >= 0
}

/// Whether a text closes each bracket of either kind that it opens, and none that it has not
/// opened before.
#[verifier::opaque]
pub open spec fn balanced(s: Seq<char>) -> bool {
    &&& matched(s, Bracket::Round)
    &&& matched(s, Bracket::Curly)
}

/// Whether the names in a type close each bracket that they open: identifiers hold none.
pub open spec fn balanced_type(ty: Type) -> bool
    decreases ty,
{
    match ty {
        Type::Ident(ident) => balanced(ident@),
        Type::RustBox(ty) => balanced_type(ty.inner),
        Type::UniquePtr(ptr) => balanced_type(ptr.inner),
        Type::Ref(r) => balanced_type(r.inner),
        Type::Str(_) => true,
        Type::Void => true,
    }
}

/// Whether the names in a list of arguments close each bracket that they open.
pub open spec fn balanced_args(args: Seq<Var>) -> bool {
    forall|i: int|
        0 <= i < args.len() ==> balanced((#[trigger] args[i]).ident@) && balanced_type(args[i].ty)
}

/// Whether the names in a function close each bracket that they open.
pub open spec fn balanced_function(efn: ExternFn) -> bool {
    &&& balanced(efn.ident@)
    &&& balanced_args(efn.args@)
    &&& efn.ret matches Some(ret) ==> balanced_type(ret)
}

/// Whether the segments of a namespace close each bracket that they open.
pub open spec fn balanced_namespace(namespace: Seq<Seq<char>>) -> bool {
    forall|i: int| 0 <= i < namespace.len() ==> balanced(#[trigger] namespace[i])
}

proof fn lemma_surplus_upto_add(a: Seq<char>, b: Seq<char>, bracket: Bracket, n: int)
    requires
        0 <= n <= a.len() + b.len(),
    ensures
        surplus_upto(a + b, bracket, n) == if n <= a.len() {
            surplus_upto(a, bracket, n)
        } else {
            surplus(a, bracket) + surplus_upto(b, bracket, n - a.len())
        },
    decreases n,
{
    if n > 0 {
        lemma_surplus_upto_add(a, b, bracket, n - 1);
    }
}

broadcast proof fn lemma_surplus_add(a: Seq<char>, b: Seq<char>, bracket: Bracket)
    ensures
        #[trigger] surplus(a + b, bracket) == surplus(a, bracket) + surplus(b, bracket),
{
    lemma_surplus_upto_add(a, b, bracket, (a + b).len() as int);
}

/// The lowest surplus of a stretch of `s` that starts at `i`.
spec fn lowest_from(s: Seq<char>, bracket: Bracket, i: int) -> int
    decreases s.len() - i,
{
    if i >= s.len() {
        0
    } else {
        let low = weight(s[i], bracket) + lowest_from(s, bracket, i + 1);
        if low < 0 {
            low
        } else {
            0
        }
    }
}

/// The lowest surplus of a beginning of `s`.
spec fn lowest(s: Seq<char>, bracket: Bracket) -> int {
    lowest_from(s, bracket, 0)
}

proof fn lemma_lowest_skips(a: Seq<char>, b: Seq<char>, bracket: Bracket, i: int)
    requires
        0 <= i <= b.len(),
    ensures
        lowest_from(a + b, bracket, a.len() + i) == lowest_from(b, bracket, i),
    decreases b.len() - i,
{
    if i < b.len() {
        lemma_lowest_skips(a, b, bracket, i + 1);
    }
}

proof fn lemma_lowest_from_add(a: Seq<char>, b: Seq<char>, bracket: Bracket, i: int)
    requires
        0 <= i <= a.len(),
    ensures
        ({
            let within = lowest_from(a, bracket, i);
            let behind = surplus(a, bracket) - surplus_upto(a, bracket, i) + lowest(b, bracket);
            lowest_from(a + b, bracket, i) == if within < behind {
                within
            } else {
                behind
            }
        }),
    decreases a.len() - i,
{
    if i < a.len() {
        lemma_lowest_from_add(a, b, bracket, i + 1);
    } else {
        lemma_lowest_skips(a, b, bracket, 0);
    }
}

broadcast proof fn lemma_lowest_add(a: Seq<char>, b: Seq<char>, bracket: Bracket)
    ensures
        #[trigger] lowest(a + b, bracket) == if lowest(a, bracket) < surplus(a, bracket) + lowest(
            b,
            bracket,
        ) {
            lowest(a, bracket)
        } else {
            surplus(a, bracket) + lowest(b, bracket)
        },
{
    lemma_lowest_from_add(a, b, bracket, 0);
}

proof fn lemma_lowest_bounds(s: Seq<char>, bracket: Bracket, i: int, n: int)
    requires
        0 <= i <= n <= s.len(),
    ensures
        lowest_from(s, bracket, i) <= surplus_upto(s, bracket, n) - surplus_upto(s, bracket, i),
    decreases n - i,
{
    if i < n {
        lemma_lowest_bounds(s, bracket, i + 1, n);
    }
}

proof fn lemma_lowest_attained(s: Seq<char>, bracket: Bracket, i: int) -> (n: int)
    requires
        0 <= i <= s.len(),
    ensures
        i <= n <= s.len(),
        lowest_from(s, bracket, i) == surplus_upto(s, bracket, n) - surplus_upto(s, bracket, i),
    decreases s.len() - i,
{
    if i < s.len() && weight(s[i], bracket) + lowest_from(s, bracket, i + 1) < 0 {
        lemma_lowest_attained(s, bracket, i + 1)
    } else {
        i
    }
}

proof fn lemma_matched(s: Seq<char>, bracket: Bracket)
    ensures
        matched(s, bracket) <==> surplus(s, bracket) == 0 && lowest(s, bracket) == 0,
{
    let n = lemma_lowest_attained(s, bracket, 0);
    assert(lowest(s, bracket) == surplus_upto(s, bracket, n));
    assert forall|n: int| 0 <= n <= s.len() implies lowest(s, bracket)
        <= #[trigger] surplus_upto(s, bracket, n) by {
        lemma_lowest_bounds(s, bracket, 0, n);
    }
}

broadcast proof fn lemma_balanced(s: Seq<char>)
    ensures
        #[trigger] balanced(s) <==> {
            &&& surplus(s, Bracket::Round) == 0
            &&& lowest(s, Bracket::Round) == 0
            &&& surplus(s, Bracket::Curly) == 0
            &&& lowest(s, Bracket::Curly) == 0
        },
{
    reveal(balanced);
    lemma_matched(s, Bracket::Round);
    lemma_matched(s, Bracket::Curly);
}

/// How the brackets in a text add up.
broadcast group group_brackets {
    lemma_surplus_add,
    lemma_lowest_add,
    lemma_balanced,
}

proof fn lemma_empty()
    ensures
        balanced(Seq::empty()),
{
    broadcast use group_brackets;

}

proof fn lemma_concat(parts: Seq<Seq<char>>)
    requires
        forall|i: int| 0 <= i < parts.len() ==> balanced(#[trigger] parts[i]),
    ensures
        balanced(concat(parts)),
    decreases parts.len(),
{
    broadcast use group_brackets;

    lemma_empty();
    if parts.len() > 0 {
        assert forall|i: int| 0 <= i < parts.drop_last().len() implies balanced(
            #[trigger] parts.drop_last()[i],
        ) by {
            assert(parts.drop_last()[i] == parts[i]);
        }
        lemma_concat(parts.drop_last());
    }
}

proof fn lemma_comma_separated(parts: Seq<Seq<char>>)
    requires
        forall|i: int| 0 <= i < parts.len() ==> balanced(#[trigger] parts[i]),
    ensures
        balanced(comma_separated(parts)),
    decreases parts.len(),
{
    broadcast use group_brackets;

    lemma_boundary_literals();
    lemma_empty();
    if parts.len() > 0 {
        assert forall|i: int| 0 <= i < parts.drop_last().len() implies balanced(
            #[trigger] parts.drop_last()[i],
        ) by {
            assert(parts.drop_last()[i] == parts[i]);
        }
        lemma_comma_separated(parts.drop_last());
    }
}

/// The brackets in the names of atoms.
proof fn lemma_atom_literals()
    ensures
        balanced("bool"@),
        balanced("uint8_t"@),
        balanced("uint16_t"@),
        balanced("uint32_t"@),
        balanced("uint64_t"@),
        balanced("size_t"@),
        balanced("int8_t"@),
        balanced("int16_t"@),
        balanced("int32_t"@),
        balanced("int64_t"@),
        balanced("ssize_t"@),
        balanced("float"@),
        balanced("double"@),
        balanced("::std::string"@),
        balanced("::rust::String"@),
{
    broadcast use lemma_balanced;

    reveal_with_fuel(surplus_upto, 16);
    reveal_with_fuel(lowest_from, 16);
    reveal_strlit("bool");
    reveal_strlit("uint8_t");
    reveal_strlit("uint16_t");
    reveal_strlit("uint32_t");
    reveal_strlit("uint64_t");
    reveal_strlit("size_t");
    reveal_strlit("int8_t");
    reveal_strlit("int16_t");
    reveal_strlit("int32_t");
    reveal_strlit("int64_t");
    reveal_strlit("ssize_t");
    reveal_strlit("float");
    reveal_strlit("double");
    reveal_strlit("::std::string");
    reveal_strlit("::rust::String");
}

/// The brackets in the spelling of other types.
proof fn lemma_type_literals()
    ensures
        balanced("::rust::Box<"@),
        balanced(">"@),
        balanced("::std::unique_ptr<"@),
        balanced("const "@),
        balanced(" &"@),
        balanced("::rust::Str"@),
        balanced(" "@),
        balanced("void "@),
        balanced("*"@),
        balanced(" *"@),
        balanced("::rust::Str::Repr "@),
{
    broadcast use lemma_balanced;

    reveal_with_fuel(surplus_upto, 20);
    reveal_with_fuel(lowest_from, 20);
    reveal_strlit("::rust::Box<");
    reveal_strlit(">");
    reveal_strlit("::std::unique_ptr<");
    reveal_strlit("const ");
    reveal_strlit(" &");
    reveal_strlit("::rust::Str");
    reveal_strlit(" ");
    reveal_strlit("void ");
    reveal_strlit("*");
    reveal_strlit(" *");
    reveal_strlit("::rust::Str::Repr ");
}

/// The brackets in signatures at the boundary.
proof fn lemma_boundary_literals()
    ensures
        balanced("$"@),
        balanced("cxxbridge02$"@),
        balanced(", "@),
        balanced("*return$"@),
        surplus("("@, Bracket::Round) == 1,
        lowest("("@, Bracket::Round) == 0,
        surplus("("@, Bracket::Curly) == 0,
        lowest("("@, Bracket::Curly) == 0,
        surplus(")"@, Bracket::Round) == -1,
        lowest(")"@, Bracket::Round) == -1,
        surplus(")"@, Bracket::Curly) == 0,
        lowest(")"@, Bracket::Curly) == 0,
        surplus(") noexcept;\n"@, Bracket::Round) == -1,
        lowest(") noexcept;\n"@, Bracket::Round) == -1,
        surplus(") noexcept;\n"@, Bracket::Curly) == 0,
        lowest(") noexcept;\n"@, Bracket::Curly) == 0,
        surplus(") noexcept {\n"@, Bracket::Round) == -1,
        lowest(") noexcept {\n"@, Bracket::Round) == -1,
        surplus(") noexcept {\n"@, Bracket::Curly) == 1,
        lowest(") noexcept {\n"@, Bracket::Curly) == 0,
{
    broadcast use lemma_balanced;

    reveal_with_fuel(surplus_upto, 15);
    reveal_with_fuel(lowest_from, 15);
    reveal_strlit("$");
    reveal_strlit("cxxbridge02$");
    reveal_strlit(", ");
    reveal_strlit("*return$");
    reveal_strlit("(");
    reveal_strlit(")");
    reveal_strlit(") noexcept;\n");
    reveal_strlit(") noexcept {\n");
}

/// The brackets in the shim around a C++ function.
proof fn lemma_call_literals()
    ensures
        balanced("  "@),
        surplus("(*"@, Bracket::Round) == 1,
        lowest("(*"@, Bracket::Round) == 0,
        surplus("(*"@, Bracket::Curly) == 0,
        lowest("(*"@, Bracket::Curly) == 0,
        surplus("$)("@, Bracket::Round) == 0,
        lowest("$)("@, Bracket::Round) == -1,
        surplus("$)("@, Bracket::Curly) == 0,
        lowest("$)("@, Bracket::Curly) == 0,
        surplus(") = "@, Bracket::Round) == -1,
        lowest(") = "@, Bracket::Round) == -1,
        surplus(") = "@, Bracket::Curly) == 0,
        lowest(") = "@, Bracket::Curly) == 0,
        balanced(";\n"@),
        surplus("$("@, Bracket::Round) == 1,
        lowest("$("@, Bracket::Round) == 0,
        surplus("$("@, Bracket::Curly) == 0,
        lowest("$("@, Bracket::Curly) == 0,
        surplus("::from_raw("@, Bracket::Round) == 1,
        lowest("::from_raw("@, Bracket::Round) == 0,
        surplus("::from_raw("@, Bracket::Curly) == 0,
        lowest("::from_raw("@, Bracket::Curly) == 0,
        surplus("::rust::String(::rust::unsafe_bitcopy, *"@, Bracket::Round) == 1,
        lowest("::rust::String(::rust::unsafe_bitcopy, *"@, Bracket::Round) == 0,
        surplus("::rust::String(::rust::unsafe_bitcopy, *"@, Bracket::Curly) == 0,
        lowest("::rust::String(::rust::unsafe_bitcopy, *"@, Bracket::Curly) == 0,
        surplus("::std::move(*"@, Bracket::Round) == 1,
        lowest("::std::move(*"@, Bracket::Round) == 0,
        surplus("::std::move(*"@, Bracket::Curly) == 0,
        lowest("::std::move(*"@, Bracket::Curly) == 0,
        balanced("new (return$) "@),
        balanced("return "@),
        balanced("&"@),
        surplus("::rust::Str::Repr("@, Bracket::Round) == 1,
        lowest("::rust::Str::Repr("@, Bracket::Round) == 0,
        surplus("::rust::Str::Repr("@, Bracket::Curly) == 0,
        lowest("::rust::Str::Repr("@, Bracket::Curly) == 0,
        balanced(".into_raw()"@),
        balanced(".release()"@),
        surplus("}\n"@, Bracket::Round) == 0,
        lowest("}\n"@, Bracket::Round) == 0,
        surplus("}\n"@, Bracket::Curly) == -1,
        lowest("}\n"@, Bracket::Curly) == -1,
{
    broadcast use lemma_balanced;

    reveal_with_fuel(surplus_upto, 42);
    reveal_with_fuel(lowest_from, 42);
    reveal_strlit("  ");
    reveal_strlit("(*");
    reveal_strlit("$)(");
    reveal_strlit(") = ");
    reveal_strlit(";\n");
    reveal_strlit("$(");
    reveal_strlit("::from_raw(");
    reveal_strlit("::rust::String(::rust::unsafe_bitcopy, *");
    reveal_strlit("::std::move(*");
    reveal_strlit("new (return$) ");
    reveal_strlit("return ");
    reveal_strlit("&");
    reveal_strlit("::rust::Str::Repr(");
    reveal_strlit(".into_raw()");
    reveal_strlit(".release()");
    reveal_strlit("}\n");
}

/// The brackets around a call that may throw.
proof fn lemma_try_literals()
    ensures
        balanced("::rust::Str::Repr throw$;\n"@),
        surplus("  try {\n"@, Bracket::Round) == 0,
        lowest("  try {\n"@, Bracket::Round) == 0,
        surplus("  try {\n"@, Bracket::Curly) == 1,
        lowest("  try {\n"@, Bracket::Curly) == 0,
        balanced("    "@),
        balanced("    throw$.ptr = nullptr;\n"@),
        surplus("  } catch (const ::std::exception &catch$) {\n"@, Bracket::Round) == 0,
        lowest("  } catch (const ::std::exception &catch$) {\n"@, Bracket::Round) == 0,
        surplus("  } catch (const ::std::exception &catch$) {\n"@, Bracket::Curly) == 0,
        lowest("  } catch (const ::std::exception &catch$) {\n"@, Bracket::Curly) == -1,
        balanced("    const char *return$ = catch$.what();\n"@),
        balanced("    throw$.len = ::std::strlen(return$);\n"@),
{
    broadcast use lemma_balanced;

    reveal_with_fuel(surplus_upto, 30);
    reveal_with_fuel(lowest_from, 30);
    reveal_strlit("::rust::Str::Repr throw$;\n");
    reveal_strlit("  try {\n");
    reveal_strlit("    ");
    reveal_strlit("    throw$.ptr = nullptr;\n");
    reveal_strlit("  } catch (const ::std::exception &catch$) {\n");
    let catch = "  } catch (const ::std::exception &catch$) {\n"@;
    assert(surplus_upto(catch, Bracket::Round, 20) == 1);
    assert(surplus_upto(catch, Bracket::Round, 40) == 1);
    assert(lowest_from(catch, Bracket::Round, 40) == -1);
    assert(lowest_from(catch, Bracket::Round, 20) == -1);
    assert(surplus_upto(catch, Bracket::Curly, 20) == -1);
    assert(surplus_upto(catch, Bracket::Curly, 40) == -1);
    assert(lowest_from(catch, Bracket::Curly, 40) == 0);
    assert(lowest_from(catch, Bracket::Curly, 20) == 0);
    reveal_strlit("    const char *return$ = catch$.what();\n");
    let what = "    const char *return$ = catch$.what();\n"@;
    assert(surplus_upto(what, Bracket::Round, 20) == 0);
    assert(surplus_upto(what, Bracket::Round, 40) == 0);
    assert(lowest_from(what, Bracket::Round, 40) == 0);
    assert(lowest_from(what, Bracket::Round, 20) == 0);
    assert(surplus_upto(what, Bracket::Curly, 20) == 0);
    assert(surplus_upto(what, Bracket::Curly, 40) == 0);
    assert(lowest_from(what, Bracket::Curly, 40) == 0);
    assert(lowest_from(what, Bracket::Curly, 20) == 0);
    reveal_strlit("    throw$.len = ::std::strlen(return$);\n");
    let len = "    throw$.len = ::std::strlen(return$);\n"@;
    assert(surplus_upto(len, Bracket::Round, 20) == 0);
    assert(surplus_upto(len, Bracket::Round, 40) == 0);
    assert(lowest_from(len, Bracket::Round, 40) == 0);
    assert(lowest_from(len, Bracket::Round, 20) == 0);
    assert(surplus_upto(len, Bracket::Curly, 20) == 0);
    assert(surplus_upto(len, Bracket::Curly, 40) == 0);
    assert(lowest_from(len, Bracket::Curly, 40) == 0);
    assert(lowest_from(len, Bracket::Curly, 20) == 0);
}

/// The brackets where an exception is handed on.
proof fn lemma_catch_literals()
    ensures
        balanced("    throw$.ptr = cxxbridge02$exception(return$, throw$.len);\n"@),
        surplus("  }\n"@, Bracket::Round) == 0,
        lowest("  }\n"@, Bracket::Round) == 0,
        surplus("  }\n"@, Bracket::Curly) == -1,
        lowest("  }\n"@, Bracket::Curly) == -1,
        balanced("  return throw$;\n"@),
{
    broadcast use lemma_balanced;

    reveal_with_fuel(surplus_upto, 30);
    reveal_with_fuel(lowest_from, 30);
    reveal_strlit("    throw$.ptr = cxxbridge02$exception(return$, throw$.len);\n");
    let ptr = "    throw$.ptr = cxxbridge02$exception(return$, throw$.len);\n"@;
    assert(surplus_upto(ptr, Bracket::Round, 20) == 0);
    assert(surplus_upto(ptr, Bracket::Round, 40) == 1);
    assert(surplus_upto(ptr, Bracket::Round, 60) == 0);
    assert(lowest_from(ptr, Bracket::Round, 60) == 0);
    assert(lowest_from(ptr, Bracket::Round, 40) == -1);
    assert(lowest_from(ptr, Bracket::Round, 20) == 0);
    assert(surplus_upto(ptr, Bracket::Curly, 20) == 0);
    assert(surplus_upto(ptr, Bracket::Curly, 40) == 0);
    assert(surplus_upto(ptr, Bracket::Curly, 60) == 0);
    assert(lowest_from(ptr, Bracket::Curly, 60) == 0);
    assert(lowest_from(ptr, Bracket::Curly, 40) == 0);
    assert(lowest_from(ptr, Bracket::Curly, 20) == 0);
    reveal_strlit("  }\n");
    reveal_strlit("  return throw$;\n");
}

/// The brackets in the shim around a Rust function.
proof fn lemma_rust_literals()
    ensures
        balanced("  ::rust::ManuallyDrop<"@),
        balanced("> "@),
        surplus("$(::std::move("@, Bracket::Round) == 2,
        lowest("$(::std::move("@, Bracket::Round) == 0,
        surplus("$(::std::move("@, Bracket::Curly) == 0,
        lowest("$(::std::move("@, Bracket::Curly) == 0,
        surplus("));\n"@, Bracket::Round) == -2,
        lowest("));\n"@, Bracket::Round) == -2,
        surplus("));\n"@, Bracket::Curly) == 0,
        lowest("));\n"@, Bracket::Curly) == 0,
        balanced("$.value"@),
        balanced("::rust::MaybeUninit<"@),
        balanced("> return$;\n"@),
        balanced("&return$.value"@),
        balanced(" noexcept"@),
        surplus(" {\n"@, Bracket::Round) == 0,
        lowest(" {\n"@, Bracket::Round) == 0,
        surplus(" {\n"@, Bracket::Curly) == 1,
        lowest(" {\n"@, Bracket::Curly) == 0,
        surplus("  if (error$.ptr) {\n"@, Bracket::Round) == 0,
        lowest("  if (error$.ptr) {\n"@, Bracket::Round) == 0,
        surplus("  if (error$.ptr) {\n"@, Bracket::Curly) == 1,
        lowest("  if (error$.ptr) {\n"@, Bracket::Curly) == 0,
        balanced("    throw ::rust::Error(error$);\n"@),
        balanced("::rust::Str::Repr error$ = "@),
        balanced("  return ::std::move(return$.value);\n"@),
{
    broadcast use lemma_balanced;

    reveal_with_fuel(surplus_upto, 39);
    reveal_with_fuel(lowest_from, 39);
    reveal_strlit("  ::rust::ManuallyDrop<");
    reveal_strlit("> ");
    reveal_strlit("$(::std::move(");
    reveal_strlit("));\n");
    reveal_strlit("$.value");
    reveal_strlit("::rust::MaybeUninit<");
    reveal_strlit("> return$;\n");
    reveal_strlit("&return$.value");
    reveal_strlit(" noexcept");
    reveal_strlit(" {\n");
    reveal_strlit("  if (error$.ptr) {\n");
    reveal_strlit("    throw ::rust::Error(error$);\n");
    reveal_strlit("::rust::Str::Repr error$ = ");
    reveal_strlit("  return ::std::move(return$.value);\n");
}

proof fn lemma_type_text(ty: Type)
    requires
        balanced_type(ty),
    ensures
        balanced(type_text(ty)),
        balanced(type_space_text(ty)),
    decreases ty,
{
    broadcast use group_brackets;

    lemma_atom_literals();
    lemma_type_literals();
    lemma_empty();
    match ty {
        Type::RustBox(ty) => lemma_type_text(ty.inner),
        Type::UniquePtr(ptr) => lemma_type_text(ptr.inner),
        Type::Ref(r) => lemma_type_text(r.inner),
        _ => {},
    }
}

proof fn lemma_return_type_text(ret: Option<Type>)
    requires
        ret matches Some(ret) ==> balanced_type(ret),
    ensures
        balanced(return_type_text(ret)),
{
    lemma_type_literals();
    if let Some(ty) = ret {
        lemma_type_text(ty);
    }
}

proof fn lemma_extern_arg_text(arg: Var, types: Types)
    requires
        balanced(arg.ident@),
        balanced_type(arg.ty),
    ensures
        balanced(extern_arg_text(arg, types)),
        balanced(cxx_shim_param_text(arg, types)),
{
    broadcast use group_brackets;

    lemma_type_literals();
    lemma_empty();
    lemma_type_text(arg.ty);
    match arg.ty {
        Type::RustBox(ty) => lemma_type_text(ty.inner),
        Type::UniquePtr(ptr) => lemma_type_text(ptr.inner),
        _ => {},
    }
}

proof fn lemma_link_name(namespace: Seq<Seq<char>>, ident: Seq<char>)
    requires
        balanced_namespace(namespace),
        balanced(ident),
    ensures
        balanced(link_name(namespace, ident)),
{
    broadcast use group_brackets;

    lemma_boundary_literals();
    let parts = namespace.map_values(|name: Seq<char>| name + "$"@);
    assert forall|i: int| 0 <= i < parts.len() implies balanced(#[trigger] parts[i]) by {
        assert(balanced(namespace[i]));
    }
    lemma_concat(parts);
}

proof fn lemma_boundary_return_text(efn: ExternFn, types: Types)
    requires
        balanced_function(efn),
    ensures
        balanced(boundary_return_text(efn, types)),
{
    broadcast use group_brackets;

    lemma_type_literals();
    lemma_empty();
    if let Some(ret) = efn.ret {
        lemma_type_text(ret);
        match ret {
            Type::RustBox(ty) => lemma_type_text(ty.inner),
            Type::UniquePtr(ptr) => lemma_type_text(ptr.inner),
            Type::Ref(r) => lemma_type_text(r.inner),
            _ => {},
        }
    }
}

proof fn lemma_return_param_text(efn: ExternFn, types: Types)
    requires
        balanced_function(efn),
    ensures
        balanced(return_param_text(efn, types)),
{
    broadcast use group_brackets;

    lemma_boundary_literals();
    lemma_empty();
    lemma_return_type_text(efn.ret);
}

/// The declaration of a Rust function at the boundary closes each bracket that it opens.
pub proof fn law_rust_decl_brackets(namespace: Seq<Seq<char>>, efn: ExternFn, types: Types)
    requires
        balanced_namespace(namespace),
        balanced_function(efn),
    ensures
        balanced(rust_function_decl_text(namespace, efn, types)),
{
    broadcast use group_brackets;

    lemma_boundary_literals();
    lemma_boundary_return_text(efn, types);
    lemma_link_name(namespace, efn.ident@);
    lemma_return_param_text(efn, types);
    let params = efn.args@.map_values(|arg: Var| extern_arg_text(arg, types));
    assert forall|i: int| 0 <= i < params.len() implies balanced(#[trigger] params[i]) by {
        lemma_extern_arg_text(efn.args@[i], types);
    }
    lemma_comma_separated(params);
}

proof fn lemma_cxx_shim_signature(namespace: Seq<Seq<char>>, efn: ExternFn, types: Types)
    requires
        balanced_namespace(namespace),
        balanced_function(efn),
    ensures
        surplus(cxx_shim_signature(namespace, efn, types), Bracket::Round) == 0,
        lowest(cxx_shim_signature(namespace, efn, types), Bracket::Round) == 0,
        surplus(cxx_shim_signature(namespace, efn, types), Bracket::Curly) == 1,
        lowest(cxx_shim_signature(namespace, efn, types), Bracket::Curly) == 0,
{
    broadcast use group_brackets;

    lemma_boundary_literals();
    lemma_boundary_return_text(efn, types);
    lemma_link_name(namespace, efn.ident@);
    lemma_return_param_text(efn, types);
    let params = efn.args@.map_values(|arg: Var| cxx_shim_param_text(arg, types));
    assert forall|i: int| 0 <= i < params.len() implies balanced(#[trigger] params[i]) by {
        lemma_extern_arg_text(efn.args@[i], types);
    }
    lemma_comma_separated(params);
}

proof fn lemma_cxx_shim_pointer(efn: ExternFn)
    requires
        balanced_function(efn),
    ensures
        balanced(cxx_shim_pointer(efn)),
{
    broadcast use group_brackets;

    lemma_call_literals();
    lemma_return_type_text(efn.ret);
    let arg_types = efn.args@.map_values(|arg: Var| type_text(arg.ty));
    assert forall|i: int| 0 <= i < arg_types.len() implies balanced(#[trigger] arg_types[i]) by {
        lemma_type_text(efn.args@[i].ty);
    }
    lemma_comma_separated(arg_types);
}

proof fn lemma_cxx_shim_arg_text(arg: Var, types: Types)
    requires
        balanced(arg.ident@),
        balanced_type(arg.ty),
    ensures
        balanced(cxx_shim_arg_text(arg, types)),
{
    broadcast use group_brackets;

    lemma_boundary_literals();
    lemma_call_literals();
    lemma_type_text(arg.ty);
}

/// The call in the shim around a C++ function leaves open the block that may throw. It closes a
/// bracket too many where the function may fail and returns a string slice.
proof fn lemma_cxx_shim_call(efn: ExternFn, types: Types)
    requires
        balanced_function(efn),
        !(efn.throws && (efn.ret matches Some(ret) && ret is Str)),
    ensures
        surplus(cxx_shim_call(efn, types), Bracket::Round) == 0,
        lowest(cxx_shim_call(efn, types), Bracket::Round) == 0,
        lowest(cxx_shim_call(efn, types), Bracket::Curly) == 0,
        surplus(cxx_shim_call(efn, types), Bracket::Curly) == if efn.throws {
            1int
        } else {
            0
        },
{
    broadcast use group_brackets;

    lemma_boundary_literals();
    lemma_call_literals();
    lemma_try_literals();
    lemma_empty();
    if let Some(ret) = efn.ret {
        lemma_type_text(ret);
    }
    let call_args = efn.args@.map_values(|arg: Var| cxx_shim_arg_text(arg, types));
    assert forall|i: int| 0 <= i < call_args.len() implies balanced(#[trigger] call_args[i]) by {
        lemma_cxx_shim_arg_text(efn.args@[i], types);
    }
    lemma_comma_separated(call_args);
}

proof fn lemma_cxx_shim_catch()
    ensures
        surplus(cxx_shim_catch(), Bracket::Round) == 0,
        lowest(cxx_shim_catch(), Bracket::Round) == 0,
        surplus(cxx_shim_catch(), Bracket::Curly) == -1,
        lowest(cxx_shim_catch(), Bracket::Curly) == -1,
{
    broadcast use group_brackets;

    lemma_try_literals();
    lemma_catch_literals();
}

/// A text that leaves a block open, texts that close what they open, and the end of the block.
proof fn lemma_shim(
    signature: Seq<char>,
    pointer: Seq<char>,
    call: Seq<char>,
    catch: Seq<char>,
    throws: bool,
)
    requires
        surplus(signature, Bracket::Round) == 0,
        lowest(signature, Bracket::Round) == 0,
        surplus(signature, Bracket::Curly) == 1,
        lowest(signature, Bracket::Curly) == 0,
        balanced(pointer),
        surplus(call, Bracket::Round) == 0,
        lowest(call, Bracket::Round) == 0,
        surplus(call, Bracket::Curly) == if throws {
            1int
        } else {
            0
        },
        lowest(call, Bracket::Curly) == 0,
        surplus(catch, Bracket::Round) == 0,
        lowest(catch, Bracket::Round) == 0,
        surplus(catch, Bracket::Curly) == -1,
        lowest(catch, Bracket::Curly) == -1,
    ensures
        balanced(signature + pointer + call + text_if(throws, catch) + "}\n"@),
{
    broadcast use group_brackets;

    lemma_call_literals();
    lemma_empty();
}

/// The shim around a C++ function closes each bracket that it opens, unless the function may fail
/// and returns a string slice.
pub proof fn law_cxx_shim_brackets(namespace: Seq<Seq<char>>, efn: ExternFn, types: Types)
    requires
        balanced_namespace(namespace),
        balanced_function(efn),
        !(efn.throws && (efn.ret matches Some(ret) && ret is Str)),
    ensures
        balanced(cxx_function_shim_text(namespace, efn, types)),
{
    lemma_cxx_shim_signature(namespace, efn, types);
    lemma_cxx_shim_pointer(efn);
    lemma_cxx_shim_call(efn, types);
    lemma_cxx_shim_catch();
    lemma_shim(
        cxx_shim_signature(namespace, efn, types),
        cxx_shim_pointer(efn),
        cxx_shim_call(efn, types),
        cxx_shim_catch(),
        efn.throws,
    );
}

proof fn lemma_manually_drop_text(arg: Var, types: Types)
    requires
        balanced(arg.ident@),
        balanced_type(arg.ty),
    ensures
        balanced(manually_drop_text(arg, types)),
{
    broadcast use group_brackets;

    lemma_rust_literals();
    lemma_empty();
    lemma_type_text(arg.ty);
}

proof fn lemma_rust_shim_arg_text(arg: Var, types: Types)
    requires
        balanced(arg.ident@),
    ensures
        balanced(rust_shim_arg_text(arg, types)),
{
    broadcast use group_brackets;

    lemma_boundary_literals();
    lemma_call_literals();
    lemma_rust_literals();
    lemma_empty();
}

proof fn lemma_rust_shim_call(namespace: Seq<Seq<char>>, efn: ExternFn, types: Types)
    requires
        balanced_namespace(namespace),
        balanced_function(efn),
        !(efn.throws && (efn.ret matches Some(ret) && (ret is RustBox || ret is UniquePtr))),
    ensures
        balanced(rust_shim_call(namespace, efn, types)),
{
    broadcast use group_brackets;

    lemma_type_literals();
    lemma_boundary_literals();
    lemma_call_literals();
    lemma_rust_literals();
    lemma_empty();
    lemma_link_name(namespace, efn.ident@);
    if let Some(ret) = efn.ret {
        lemma_type_text(ret);
    }
    let call_args = efn.args@.map_values(|arg: Var| rust_shim_arg_text(arg, types));
    assert forall|i: int| 0 <= i < call_args.len() implies balanced(#[trigger] call_args[i]) by {
        lemma_rust_shim_arg_text(efn.args@[i], types);
    }
    lemma_comma_separated(call_args);
}

proof fn lemma_rust_shim_body(namespace: Seq<Seq<char>>, efn: ExternFn, types: Types)
    requires
        balanced_namespace(namespace),
        balanced_function(efn),
        !(efn.throws && (efn.ret matches Some(ret) && (ret is RustBox || ret is UniquePtr))),
    ensures
        balanced(rust_shim_body(namespace, efn, types)),
{
    broadcast use group_brackets;

    lemma_call_literals();
    lemma_rust_literals();
    lemma_catch_literals();
    lemma_empty();
    lemma_rust_shim_call(namespace, efn, types);
    let drops = efn.args@.map_values(|arg: Var| manually_drop_text(arg, types));
    assert forall|i: int| 0 <= i < drops.len() implies balanced(#[trigger] drops[i]) by {
        lemma_manually_drop_text(efn.args@[i], types);
    }
    lemma_concat(drops);
}

/// What follows the comment above the shim around a Rust function, with the given end.
proof fn lemma_rust_shim_rest(efn: ExternFn, end: Seq<char>)
    requires
        balanced_function(efn),
        balanced(end),
    ensures
        balanced(
            return_type_text(efn.ret) + efn.ident@ + "("@ + comma_separated(
                efn.args@.map_values(|arg: Var| param_text(arg)),
            ) + ")"@ + text_if(!efn.throws, " noexcept"@) + end,
        ),
{
    broadcast use group_brackets;

    lemma_boundary_literals();
    lemma_rust_literals();
    lemma_empty();
    lemma_return_type_text(efn.ret);
    let params = efn.args@.map_values(|arg: Var| param_text(arg));
    assert forall|i: int| 0 <= i < params.len() implies balanced(#[trigger] params[i]) by {
        lemma_type_text(efn.args@[i].ty);
    }
    lemma_comma_separated(params);
}

/// The shim around a Rust function, but for the comment above it, closes each bracket that it
/// opens, unless the function may fail and returns a box or a unique pointer; in a header it does
/// so in any case.
pub proof fn law_rust_shim_brackets(
    namespace: Seq<Seq<char>>,
    header: bool,
    efn: ExternFn,
    types: Types,
)
    requires
        balanced_namespace(namespace),
        balanced_function(efn),
        header || !(efn.throws && (efn.ret matches Some(ret) && (ret is RustBox
            || ret is UniquePtr))),
    ensures
        ({
            let comment = concat(doc_lines(efn.doc@));
            let shim = rust_function_shim_text(namespace, header, efn, types);
            &&& comment.is_prefix_of(shim)
            &&& balanced(shim.skip(comment.len() as int))
        }),
{
    let end = if header {
        lemma_call_literals();
        ";\n"@
    } else {
        lemma_rust_shim_body(namespace, efn, types);
        rust_shim_body(namespace, efn, types)
    };
    lemma_rust_shim_rest(efn, end);
    let params = efn.args@.map_values(|arg: Var| param_text(arg));
    let comment = concat(doc_lines(efn.doc@));
    let shim = rust_function_shim_text(namespace, header, efn, types);
    let rest = return_type_text(efn.ret) + efn.ident@ + "("@ + comma_separated(params) + ")"@
        + text_if(!efn.throws, " noexcept"@) + end;
    assert(shim =~= comment + rest);
    assert(shim.skip(comment.len() as int) =~= rest);
}

}
