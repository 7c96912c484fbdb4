use cxxgen::cxx_header::CxxHeader;
use cxxgen::name::Name;
use cxxgen::out::OutFile;
use cxxgen::syntax::{Api, Doc, ExternFn, ExternType, Ref, Struct, Ty1, Type, Types, Var};
use cxxgen::write::bridge::{
    runtime_needs, write_exception_glue, write_generic_instantiations, write_header_section,
    write_include_cxxbridge, write_includes, Needs,
};
use cxxgen::write::gen;

const RUNTIME: &str = "#ifndef CXXBRIDGE02_RUST_STRING
// A string.
#define CXXBRIDGE02_RUST_STRING
class String final {
  // Inside.
};
#endif // CXXBRIDGE02_RUST_STRING

#ifndef CXXBRIDGE02_RUST_STR
class Str final {};
#endif // CXXBRIDGE02_RUST_STR

#ifndef CXXBRIDGE02_RUST_BOX
class Box final {};
#endif // CXXBRIDGE02_RUST_BOX

#ifndef CXXBRIDGE02_RUST_ERROR
class Error final {};
#endif // CXXBRIDGE02_RUST_ERROR

#ifndef CXXBRIDGE02_RUST_BITCOPY
struct unsafe_bitcopy_t {};
#endif // CXXBRIDGE02_RUST_BITCOPY
";

fn runtime() -> CxxHeader {
    CxxHeader::new(RUNTIME.to_string()).unwrap()
}

fn name(text: &str) -> Name {
    Name::new(text.to_string())
}

fn no_doc() -> Doc {
    Doc { fragments: vec![] }
}

fn ident(text: &str) -> Type {
    Type::Ident(name(text))
}

fn rust_box(inner: Type) -> Type {
    Type::RustBox(Box::new(Ty1 { name: name("Box"), inner }))
}

fn unique_ptr(inner: Type) -> Type {
    Type::UniquePtr(Box::new(Ty1 { name: name("UniquePtr"), inner }))
}

fn str_slice() -> Type {
    Type::Str(Box::new(Ref { mutable: false, inner: ident("str") }))
}

fn var(text: &str, ty: Type) -> Var {
    Var { ident: name(text), ty }
}

fn function(text: &str, args: Vec<Var>, ret: Option<Type>, throws: bool) -> ExternFn {
    ExternFn { doc: no_doc(), ident: name(text), args, ret, throws }
}

fn shared() -> Struct {
    Struct {
        doc: no_doc(),
        derives: vec![],
        ident: name("Shared"),
        fields: vec![var("n", ident("u32"))],
    }
}

fn opaque(text: &str) -> ExternType {
    ExternType { doc: no_doc(), ident: name(text) }
}

fn types(all: Vec<Type>) -> Types {
    Types { all, structs: vec![shared()] }
}

fn out(header: bool) -> OutFile {
    OutFile::new(vec!["ns".to_string()], header)
}

#[test]
fn an_empty_bridge_gives_an_empty_file() {
    let types = Types { all: vec![], structs: vec![] };
    assert_eq!(gen(vec![], &[], &types, false, &runtime()).content(), "");
    assert_eq!(gen(vec![], &[], &types, true, &runtime()).content(), "#pragma once\n");
}

#[test]
fn types_ask_for_headers() {
    let mut file = out(false);
    write_includes(&mut file, &types(vec![ident("bool"), ident("f64"), ident("String")]));
    assert_eq!(file.includes.to_string(), "");
    let cases = [
        (ident("u8"), "#include <cstdint>\n"),
        (ident("isize"), "#include <cstdint>\n"),
        (ident("CxxString"), "#include <string>\n"),
        (rust_box(ident("T")), "#include <type_traits>\n"),
        (unique_ptr(ident("T")), "#include <memory>\n"),
    ];
    for (ty, lines) in cases {
        let mut file = out(false);
        write_includes(&mut file, &types(vec![ident("bool"), ty, ident("T")]));
        assert_eq!(file.includes.to_string(), lines);
        assert_eq!(file.content(), "");
    }
}

#[test]
fn needs_come_from_types_and_functions() {
    let none = Needs {
        rust_string: false,
        rust_str: false,
        rust_box: false,
        rust_error: false,
        unsafe_bitcopy: false,
        manually_drop: false,
        maybe_uninit: false,
    };
    let all = types(vec![ident("String"), str_slice(), rust_box(ident("T"))]);
    assert_eq!(
        runtime_needs(&[], &all, true),
        Needs { rust_string: true, rust_str: true, rust_box: true, ..none },
    );
    let types = types(vec![]);
    let cases = [
        (
            Api::CxxFunction(function("f", vec![var("a", ident("String"))], None, true)),
            Needs { unsafe_bitcopy: true, ..none },
        ),
        (
            Api::RustFunction(function("f", vec![var("a", ident("String"))], None, true)),
            Needs { rust_error: true, ..none },
        ),
        (
            Api::RustFunction(function("f", vec![var("a", ident("Shared"))], None, false)),
            Needs { manually_drop: true, ..none },
        ),
        (
            Api::RustFunction(function("f", vec![], Some(ident("Shared")), false)),
            Needs { maybe_uninit: true, ..none },
        ),
        (Api::RustFunction(function("f", vec![], Some(ident("u8")), false)), none),
        (Api::CxxType(opaque("T")), none),
    ];
    for (api, needs) in cases {
        let apis = [api];
        assert_eq!(runtime_needs(&apis, &types, false), needs);
        assert_eq!(runtime_needs(&apis, &types, true), none);
    }
}

#[test]
fn header_sections_lose_their_comments() {
    let mut file = out(false);
    write_header_section(&mut file, false, "CXXBRIDGE02_RUST_STRING", &runtime());
    assert_eq!(file.content(), "");
    write_header_section(&mut file, true, "CXXBRIDGE02_RUST_STRING", &runtime());
    write_header_section(&mut file, true, "CXXBRIDGE02_RUST_STR", &runtime());
    assert_eq!(
        file.content(),
        "#ifndef CXXBRIDGE02_RUST_STRING\n#define CXXBRIDGE02_RUST_STRING\n\
         class String final {\n};\n#endif // CXXBRIDGE02_RUST_STRING\n\n\
         #ifndef CXXBRIDGE02_RUST_STR\nclass Str final {};\n#endif // CXXBRIDGE02_RUST_STR\n",
    );
}

#[test]
fn the_runtime_is_repeated_where_it_is_needed() {
    let mut file = out(false);
    let apis = [
        Api::RustFunction(function(
            "f",
            vec![var("a", ident("Shared"))],
            Some(ident("Shared")),
            true,
        )),
        Api::CxxFunction(function("g", vec![var("a", ident("String"))], None, false)),
    ];
    let all = types(vec![ident("String"), str_slice(), rust_box(ident("T"))]);
    write_include_cxxbridge(&mut file, &apis, &all, &runtime());
    assert_eq!(
        file.content(),
        "namespace rust {\ninline namespace cxxbridge02 {\n// #include \"rust/cxx.h\"\n\n\
         #ifndef CXXBRIDGE02_RUST_STRING\n#define CXXBRIDGE02_RUST_STRING\n\
         class String final {\n};\n#endif // CXXBRIDGE02_RUST_STRING\n\n\
         #ifndef CXXBRIDGE02_RUST_STR\nclass Str final {};\n#endif // CXXBRIDGE02_RUST_STR\n\n\
         #ifndef CXXBRIDGE02_RUST_BOX\nclass Box final {};\n#endif // CXXBRIDGE02_RUST_BOX\n\n\
         #ifndef CXXBRIDGE02_RUST_ERROR\nclass Error final {};\n\
         #endif // CXXBRIDGE02_RUST_ERROR\n\n\
         #ifndef CXXBRIDGE02_RUST_BITCOPY\nstruct unsafe_bitcopy_t {};\n\
         #endif // CXXBRIDGE02_RUST_BITCOPY\n\n\
         template <typename T>\nunion ManuallyDrop {\n  T value;\n  \
         ManuallyDrop(T &&value) : value(::std::move(value)) {}\n  ~ManuallyDrop() {}\n};\n\n\
         template <typename T>\nunion MaybeUninit {\n  T value;\n  MaybeUninit() {}\n  \
         ~MaybeUninit() {}\n};\n\
         } // namespace cxxbridge02\n} // namespace rust\n",
    );
    assert_eq!(
        file.includes.to_string(),
        "#include <array>\n#include <cstdint>\n#include <exception>\n#include <string>\n\
         #include <type_traits>\n",
    );
}

#[test]
fn no_runtime_is_repeated_where_none_is_needed() {
    let mut file = out(false);
    write_include_cxxbridge(&mut file, &[], &types(vec![ident("u8")]), &runtime());
    assert_eq!(file.content(), "");
    assert_eq!(file.includes.to_string(), "");
}

#[test]
fn only_the_sections_that_are_needed_are_read() {
    let empty = CxxHeader { text: String::new() };
    let plain = types(vec![ident("u8")]);
    assert_eq!(
        gen(namespace(), &[], &plain, false, &empty).content(),
        gen(namespace(), &[], &plain, false, &runtime()).content(),
    );
    let boxes = CxxHeader {
        text: "#ifndef CXXBRIDGE02_RUST_BOX\nclass Box final {};\n#endif // CXXBRIDGE02_RUST_BOX\n"
            .to_string(),
    };
    let boxed = types(vec![rust_box(ident("T"))]);
    assert_eq!(
        gen(namespace(), &[], &boxed, false, &boxes).content(),
        gen(namespace(), &[], &boxed, false, &runtime()).content(),
    );
}

#[test]
fn exception_glue_needs_a_fallible_cxx_function() {
    let mut file = out(false);
    let rust = Api::RustFunction(function("f", vec![], None, true));
    let sure = Api::CxxFunction(function("g", vec![], None, false));
    let apis = [rust, sure];
    write_exception_glue(&mut file, &apis);
    assert_eq!(file.content(), "");
    let [rust, sure] = apis;
    let fallible = Api::CxxFunction(function("h", vec![], None, true));
    write_exception_glue(&mut file, &[rust, sure, fallible]);
    assert_eq!(file.content(), "const char *cxxbridge02$exception(const char *, size_t);");
}

#[test]
fn instances_are_made_for_named_types_only() {
    let mut file = out(false);
    let all = types(vec![
        rust_box(unique_ptr(ident("T"))),
        unique_ptr(ident("CxxString")),
        unique_ptr(rust_box(ident("T"))),
        ident("T"),
    ]);
    write_generic_instantiations(&mut file, &all);
    assert_eq!(file.content(), "");
    write_generic_instantiations(&mut file, &types(vec![rust_box(ident("T"))]));
    assert_eq!(
        file.content(),
        "extern \"C\" {\n\
         #ifndef CXXBRIDGE02_RUST_BOX_ns$T\n#define CXXBRIDGE02_RUST_BOX_ns$T\n\
         void cxxbridge02$box$ns$T$uninit(::rust::Box<ns::T> *ptr) noexcept;\n\
         void cxxbridge02$box$ns$T$drop(::rust::Box<ns::T> *ptr) noexcept;\n\
         #endif // CXXBRIDGE02_RUST_BOX_ns$T\n\
         } // extern \"C\"\n\n\
         namespace rust {\ninline namespace cxxbridge02 {\n\
         template <>\nvoid Box<ns::T>::uninit() noexcept {\n  \
         return cxxbridge02$box$ns$T$uninit(this);\n}\n\
         template <>\nvoid Box<ns::T>::drop() noexcept {\n  \
         return cxxbridge02$box$ns$T$drop(this);\n}\n\
         } // namespace cxxbridge02\n} // namespace rust\n",
    );
}

fn bridge() -> Vec<Api> {
    vec![
        Api::Include("ns/lib.h".to_string()),
        Api::Struct(shared()),
        Api::CxxType(opaque("Client")),
        Api::RustType(opaque("Thing")),
        Api::CxxFunction(function("send", vec![var("s", ident("Shared"))], None, true)),
        Api::RustFunction(function("count", vec![], Some(ident("u32")), false)),
    ]
}

fn namespace() -> Vec<String> {
    vec!["org".to_string(), "ns".to_string()]
}

#[test]
fn a_source_file_has_every_part() {
    let file = gen(namespace(), &bridge(), &types(vec![ident("u32")]), false, &runtime());
    assert_eq!(
        file.content(),
        "#include \"ns/lib.h\"\n#include <cstdint>\n#include <cstring>\n\
         namespace org {\nnamespace ns {\n\n\
         struct Shared;\nusing Client = Client;\nstruct Thing;\n\n\
         struct Shared final {\n  uint32_t n;\n};\n\n\
         extern \"C\" {\nconst char *cxxbridge02$exception(const char *, size_t);\n\
         ::rust::Str::Repr org$ns$cxxbridge02$send(Shared *s) noexcept {\n  \
         void (*send$)(Shared) = send;\n  ::rust::Str::Repr throw$;\n  try {\n    \
         send$(::std::move(*s));\n    throw$.ptr = nullptr;\n  \
         } catch (const ::std::exception &catch$) {\n    \
         const char *return$ = catch$.what();\n    throw$.len = ::std::strlen(return$);\n    \
         throw$.ptr = cxxbridge02$exception(return$, throw$.len);\n  }\n  return throw$;\n}\n\n\
         uint32_t org$ns$cxxbridge02$count() noexcept;\n} // extern \"C\"\n\n\
         uint32_t count() noexcept {\n  return org$ns$cxxbridge02$count();\n}\n\n\
         } // namespace ns\n} // namespace org\n",
    );
}

#[test]
fn a_header_has_declarations_only() {
    let file = gen(namespace(), &bridge(), &types(vec![ident("u32")]), true, &runtime());
    assert_eq!(
        file.content(),
        "#include \"ns/lib.h\"\n#include <cstdint>\n#pragma once\n\n\
         namespace org {\nnamespace ns {\n\n\
         struct Shared;\nusing Client = Client;\nstruct Thing;\n\n\
         struct Shared final {\n  uint32_t n;\n};\n\n\
         uint32_t count() noexcept;\n\n\
         } // namespace ns\n} // namespace org\n",
    );
}

#[test]
fn a_header_ignores_cxx_functions() {
    let types = types(vec![ident("u32")]);
    let mut others = bridge();
    others.remove(4);
    assert_eq!(
        gen(namespace(), &others, &types, true, &runtime()).content(),
        gen(namespace(), &bridge(), &types, true, &runtime()).content(),
    );
}

#[test]
fn a_header_does_not_spell_the_types_of_cxx_functions() {
    let types = types(vec![]);
    let apis = [Api::CxxFunction(function("f", vec![var("a", Type::Void)], None, false))];
    assert_eq!(gen(vec![], &apis, &types, true, &runtime()).content(), "#pragma once\n");
}

#[test]
fn every_block_is_closed() {
    let all = types(vec![rust_box(ident("Thing")), unique_ptr(ident("Client"))]);
    let file = gen(namespace(), &bridge(), &all, false, &runtime());
    let starts = file.content().lines().filter(|line| line.ends_with(" {") && {
        line.starts_with("namespace ") || line.starts_with("inline ") || line.starts_with("extern ")
    });
    let ends = file.content().lines().filter(|line| line.starts_with("} // "));
    assert_eq!(starts.count(), 8);
    assert_eq!(ends.count(), 8);
}

#[test]
fn names_of_instances_and_functions_are_distinct() {
    let a = types(vec![rust_box(ident("T"))]);
    let one = gen(vec!["a".to_string(), "b".to_string()], &[], &a, false, &runtime());
    let other = gen(vec!["a".to_string()], &[], &a, false, &runtime());
    assert!(one.content().contains("cxxbridge02$box$a$b$T$drop("));
    assert!(other.content().contains("cxxbridge02$box$a$T$drop("));
    assert!(!other.content().contains("cxxbridge02$box$a$b$T$drop("));
}
