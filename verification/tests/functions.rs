use cxxgen::name::Name;
use cxxgen::out::OutFile;
use cxxgen::syntax::{Derive, Doc, ExternFn, Ref, Struct, Ty1, Type, Types, Var};
use cxxgen::write::functions::{
    write_cxx_function_shim, write_rust_function_decl, write_rust_function_shim,
};
use cxxgen::write::structs::{write_struct, write_struct_decl, write_struct_using};
use cxxgen::write::templates::{write_rust_box_extern, write_rust_box_impl, write_unique_ptr};
use proc_macro2::{Ident, Span};

fn name(text: &str) -> Name {
    Name::new(text.to_string())
}

fn doc(lines: &[&str]) -> Doc {
    Doc { fragments: lines.iter().map(|line| line.to_string()).collect() }
}

fn ident(text: &str) -> Type {
    Type::Ident(name(text))
}

fn rust_box(inner: &str) -> Type {
    Type::RustBox(Box::new(Ty1 { name: name("Box"), inner: ident(inner) }))
}

fn unique_ptr(inner: &str) -> Type {
    Type::UniquePtr(Box::new(Ty1 { name: name("UniquePtr"), inner: ident(inner) }))
}

fn reference(mutable: bool, inner: &str) -> Type {
    Type::Ref(Box::new(Ref { mutable, inner: ident(inner) }))
}

fn str_slice() -> Type {
    Type::Str(Box::new(Ref { mutable: false, inner: ident("str") }))
}

fn var(text: &str, ty: Type) -> Var {
    Var { ident: name(text), ty }
}

fn types() -> Types {
    let shared = Struct { doc: doc(&[]), derives: vec![], ident: name("Shared"), fields: vec![] };
    let plain = Struct {
        doc: doc(&[]),
        derives: vec![Derive::Copy],
        ident: name("Plain"),
        fields: vec![],
    };
    Types { all: vec![], structs: vec![shared, plain] }
}

fn function(text: &str, args: Vec<Var>, ret: Option<Type>, throws: bool) -> ExternFn {
    ExternFn { doc: doc(&[]), ident: name(text), args, ret, throws }
}

fn every_arg() -> Vec<Var> {
    vec![
        var("a", ident("u8")),
        var("b", rust_box("T")),
        var("c", unique_ptr("U")),
        var("d", str_slice()),
        var("e", ident("String")),
        var("f", ident("Shared")),
        var("g", reference(false, "T")),
        var("h", ident("Plain")),
    ]
}

fn out(header: bool) -> OutFile {
    OutFile::new(vec!["org".to_string(), "ex".to_string()], header)
}

fn cxx_shim(efn: &ExternFn) -> (String, bool) {
    let mut out = out(false);
    write_cxx_function_shim(&mut out, efn, &types());
    (out.content().to_string(), out.includes.cstring)
}

fn rust_decl(efn: &ExternFn) -> String {
    let mut out = out(false);
    write_rust_function_decl(&mut out, efn, &types());
    out.content().to_string()
}

fn rust_shim(efn: &ExternFn, header: bool) -> String {
    let mut out = out(header);
    write_rust_function_shim(&mut out, efn, &types());
    out.content().to_string()
}

#[test]
fn cxx_shim_without_arguments() {
    let (text, cstring) = cxx_shim(&function("go", vec![], None, false));
    assert_eq!(
        text,
        "void org$ex$cxxbridge02$go() noexcept {\n  void (*go$)() = go;\n  go$();\n}\n",
    );
    assert!(!cstring);
}

#[test]
fn cxx_shim_hands_on_every_kind_of_argument() {
    let (text, _) = cxx_shim(&function("go", every_arg(), Some(ident("u32")), false));
    assert_eq!(
        text,
        "uint32_t org$ex$cxxbridge02$go(uint8_t a, T *b, U *c, ::rust::Str::Repr d, \
         const ::rust::String *e, Shared *f, const T &g, Plain h) noexcept {\n  \
         uint32_t (*go$)(uint8_t, ::rust::Box<T>, ::std::unique_ptr<U>, ::rust::Str, \
         ::rust::String, Shared, const T &, Plain) = go;\n  \
         return go$(a, ::rust::Box<T>::from_raw(b), ::std::unique_ptr<U>(c), d, \
         ::rust::String(::rust::unsafe_bitcopy, *e), ::std::move(*f), g, h);\n}\n",
    );
}

#[test]
fn cxx_shim_returns_every_kind_of_value() {
    let cases = [
        (rust_box("T"), "T *", "::rust::Box<T> ", "return go$().into_raw()"),
        (unique_ptr("T"), "T *", "::std::unique_ptr<T> ", "return go$().release()"),
        (reference(true, "T"), "T *", "T &", "return &go$()"),
        (str_slice(), "::rust::Str::Repr ", "::rust::Str ", "return ::rust::Str::Repr(go$())"),
        (ident("Plain"), "Plain ", "Plain ", "return go$()"),
    ];
    for (ret, boundary, cxx, call) in cases {
        let (text, _) = cxx_shim(&function("go", vec![], Some(ret), false));
        assert_eq!(
            text,
            format!(
                "{}org$ex$cxxbridge02$go() noexcept {{\n  {}(*go$)() = go;\n  {};\n}}\n",
                boundary, cxx, call,
            ),
        );
    }
}

#[test]
fn cxx_shim_returns_a_struct_through_a_pointer() {
    let efn = function("go", vec![var("a", ident("bool"))], Some(ident("Shared")), false);
    assert_eq!(
        cxx_shim(&efn).0,
        "void org$ex$cxxbridge02$go(bool a, Shared *return$) noexcept {\n  \
         Shared (*go$)(bool) = go;\n  new (return$) Shared(go$(a));\n}\n",
    );
}

#[test]
fn cxx_shim_catches_exceptions() {
    let (text, cstring) = cxx_shim(&function("go", vec![], Some(ident("u8")), true));
    assert_eq!(
        text,
        "::rust::Str::Repr org$ex$cxxbridge02$go(uint8_t *return$) noexcept {\n  \
         uint8_t (*go$)() = go;\n  ::rust::Str::Repr throw$;\n  try {\n    \
         new (return$) uint8_t(go$());\n    throw$.ptr = nullptr;\n  \
         } catch (const ::std::exception &catch$) {\n    \
         const char *return$ = catch$.what();\n    \
         throw$.len = ::std::strlen(return$);\n    \
         throw$.ptr = cxxbridge02$exception(return$, throw$.len);\n  }\n  return throw$;\n}\n",
    );
    assert!(cstring);
}

#[test]
fn cxx_shim_of_a_fallible_function_unwraps_the_value_inside() {
    let (text, _) = cxx_shim(&function("go", vec![], Some(str_slice()), true));
    assert!(text.contains("    new (return$) ::rust::Str(go$()));\n"));
    let (text, _) = cxx_shim(&function("go", vec![], Some(rust_box("T")), true));
    assert!(text.contains("    new (return$) ::rust::Box<T>(go$().into_raw());\n"));
}

#[test]
fn rust_decl_has_the_signature_of_the_boundary() {
    assert_eq!(
        rust_decl(&function("go", every_arg(), Some(ident("Shared")), false)),
        "void org$ex$cxxbridge02$go(uint8_t a, T *b, U *c, ::rust::Str::Repr d, \
         ::rust::String *e, Shared *f, const T &g, Plain h, Shared *return$) noexcept;\n",
    );
    assert_eq!(
        rust_decl(&function("go", vec![], Some(ident("String")), true)),
        "::rust::Str::Repr org$ex$cxxbridge02$go(::rust::String *return$) noexcept;\n",
    );
    assert_eq!(
        rust_decl(&function("go", vec![], None, true)),
        "::rust::Str::Repr org$ex$cxxbridge02$go() noexcept;\n",
    );
}

#[test]
fn boundary_signatures_agree() {
    let args = vec![var("a", ident("u8")), var("b", ident("Shared"))];
    let efn = function("go", args, Some(ident("u8")), true);
    let decl = rust_decl(&efn);
    let signature = decl.strip_suffix(";\n").unwrap();
    assert!(cxx_shim(&efn).0.starts_with(&format!("{} {{\n", signature)));
}

#[test]
fn a_declaration_is_the_first_line_of_the_shim_but_for_const_strings() {
    for throws in [false, true] {
        for ret in every_value() {
            let efn = function("go", every_arg(), ret, throws);
            let decl = rust_decl(&efn);
            assert_eq!(decl.find('\n'), Some(decl.len() - 1));
            let (shim, _) = cxx_shim(&efn);
            let first = shim.lines().next().unwrap();
            assert!(first.contains("const ::rust::String *e"));
            let plain = first.replace("const ::rust::String *e", "::rust::String *e");
            assert_eq!(decl, format!("{};\n", plain.strip_suffix(" {").unwrap()));
        }
    }
}

#[test]
fn rust_shim_hands_on_every_kind_of_argument() {
    let mut efn = function("go", every_arg(), Some(ident("u32")), false);
    efn.doc = doc(&[" Goes.", "", " Far."]);
    let signature = "// Goes.\n//\n// Far.\nuint32_t go(uint8_t a, ::rust::Box<T> b, \
         ::std::unique_ptr<U> c, ::rust::Str d, ::rust::String e, Shared f, const T &g, \
         Plain h) noexcept";
    assert_eq!(rust_shim(&efn, true), format!("{};\n", signature));
    assert_eq!(
        rust_shim(&efn, false),
        format!(
            "{} {{\n  ::rust::ManuallyDrop<Shared> f$(::std::move(f));\n  \
             return org$ex$cxxbridge02$go(a, b.into_raw(), c.release(), \
             ::rust::Str::Repr(d), &e, &f$.value, g, h);\n}}\n",
            signature,
        ),
    );
}

#[test]
fn rust_shim_returns_every_kind_of_value() {
    let cases = [
        (rust_box("T"), "::rust::Box<T> ", "return ::rust::Box<T>::from_raw(", ")"),
        (unique_ptr("T"), "::std::unique_ptr<T> ", "return ::std::unique_ptr<T>(", ")"),
        (reference(false, "T"), "const T &", "return *", ""),
        (str_slice(), "::rust::Str ", "return ", ""),
    ];
    for (ret, cxx, before, after) in cases {
        assert_eq!(
            rust_shim(&function("go", vec![], Some(ret), false), false),
            format!(
                "{}go() noexcept {{\n  {}org$ex$cxxbridge02$go(){};\n}}\n",
                cxx, before, after,
            ),
        );
    }
    assert_eq!(
        rust_shim(&function("go", vec![], None, false), false),
        "void go() noexcept {\n  org$ex$cxxbridge02$go();\n}\n",
    );
}

#[test]
fn rust_shim_returns_a_struct_through_a_pointer() {
    let efn = function("go", vec![var("a", ident("bool"))], Some(ident("Shared")), false);
    assert_eq!(
        rust_shim(&efn, false),
        "Shared go(bool a) noexcept {\n  ::rust::MaybeUninit<Shared> return$;\n  \
         org$ex$cxxbridge02$go(a, &return$.value);\n  return ::std::move(return$.value);\n}\n",
    );
}

#[test]
fn rust_shim_throws() {
    assert_eq!(
        rust_shim(&function("go", vec![], Some(ident("u8")), true), false),
        "uint8_t go() {\n  ::rust::MaybeUninit<uint8_t> return$;\n  \
         ::rust::Str::Repr error$ = org$ex$cxxbridge02$go(&return$.value);\n  \
         if (error$.ptr) {\n    throw ::rust::Error(error$);\n  }\n  \
         return ::std::move(return$.value);\n}\n",
    );
    assert_eq!(
        rust_shim(&function("go", vec![], None, true), false),
        "void go() {\n  ::rust::Str::Repr error$ = org$ex$cxxbridge02$go();\n  \
         if (error$.ptr) {\n    throw ::rust::Error(error$);\n  }\n}\n",
    );
    assert_eq!(rust_shim(&function("go", vec![], None, true), true), "void go();\n");
}

#[test]
fn structs_have_their_comments_and_fields() {
    let strct = Struct {
        doc: doc(&[" One.", " Two.\n Three."]),
        derives: vec![],
        ident: name("Shared"),
        fields: vec![var("z", ident("usize")), var("r", reference(false, "T"))],
    };
    let mut file = out(false);
    write_struct(&mut file, &strct);
    assert_eq!(
        file.content(),
        "// One.\n// Two.\n// Three.\nstruct Shared final {\n  size_t z;\n  const T &r;\n};\n",
    );
}

#[test]
fn tokens_give_their_text() {
    let mut file = out(false);
    let token = Ident::new("Thing", Span::call_site());
    write_struct_decl(&mut file, &Name::from_token(&token));
    write_struct_using(&mut file, &Name::from_token(&token));
    assert_eq!(file.content(), "struct Thing;\nusing Thing = Thing;\n");
    assert_eq!(Name::from_token(&Ident::new_raw("type", Span::call_site())).text, "r#type");
}

#[test]
fn boxes_are_instantiated() {
    let mut file = out(false);
    write_rust_box_extern(&mut file, &name("T"));
    assert_eq!(
        file.content(),
        "#ifndef CXXBRIDGE02_RUST_BOX_org$ex$T\n#define CXXBRIDGE02_RUST_BOX_org$ex$T\n\
         void cxxbridge02$box$org$ex$T$uninit(::rust::Box<org::ex::T> *ptr) noexcept;\n\
         void cxxbridge02$box$org$ex$T$drop(::rust::Box<org::ex::T> *ptr) noexcept;\n\
         #endif // CXXBRIDGE02_RUST_BOX_org$ex$T\n",
    );
    let mut file = out(false);
    write_rust_box_impl(&mut file, &name("T"));
    assert_eq!(
        file.content(),
        "template <>\nvoid Box<org::ex::T>::uninit() noexcept {\n  \
         return cxxbridge02$box$org$ex$T$uninit(this);\n}\n\
         template <>\nvoid Box<org::ex::T>::drop() noexcept {\n  \
         return cxxbridge02$box$org$ex$T$drop(this);\n}\n",
    );
}

#[test]
fn unique_pointers_are_instantiated() {
    let mut file = OutFile::new(vec!["org".to_string()], false);
    write_unique_ptr(&mut file, &name("T"));
    assert_eq!(
        file.content(),
        "#ifndef CXXBRIDGE02_UNIQUE_PTR_org$T\n\
         #define CXXBRIDGE02_UNIQUE_PTR_org$T\n\
         static_assert(sizeof(::std::unique_ptr<org::T>) == sizeof(void *), \"\");\n\
         static_assert(alignof(::std::unique_ptr<org::T>) == alignof(void *), \"\");\n\
         void cxxbridge02$unique_ptr$org$T$null(::std::unique_ptr<org::T> *ptr) noexcept {\n  \
         new (ptr) ::std::unique_ptr<org::T>();\n}\n\
         void cxxbridge02$unique_ptr$org$T$new(::std::unique_ptr<org::T> *ptr, org::T *value) \
         noexcept {\n  \
         new (ptr) ::std::unique_ptr<org::T>(new org::T(::std::move(*value)));\n}\n\
         void cxxbridge02$unique_ptr$org$T$raw(::std::unique_ptr<org::T> *ptr, org::T *raw) \
         noexcept {\n  new (ptr) ::std::unique_ptr<org::T>(raw);\n}\n\
         const org::T *cxxbridge02$unique_ptr$org$T$get(const ::std::unique_ptr<org::T>& ptr) \
         noexcept {\n  return ptr.get();\n}\n\
         org::T *cxxbridge02$unique_ptr$org$T$release(::std::unique_ptr<org::T>& ptr) \
         noexcept {\n  return ptr.release();\n}\n\
         void cxxbridge02$unique_ptr$org$T$drop(::std::unique_ptr<org::T> *ptr) noexcept {\n  \
         ptr->~unique_ptr();\n}\n\
         #endif // CXXBRIDGE02_UNIQUE_PTR_org$T\n",
    );
}

fn surplus(text: &str, open: char, close: char) -> i64 {
    let opened = text.chars().filter(|c| *c == open).count() as i64;
    let closed = text.chars().filter(|c| *c == close).count() as i64;
    opened - closed
}

fn lowest(text: &str, open: char, close: char) -> i64 {
    let mut depth: i64 = 0;
    let mut low: i64 = 0;
    for c in text.chars() {
        if c == open {
            depth += 1;
        } else if c == close {
            depth -= 1;
        }
        low = low.min(depth);
    }
    low
}

fn assert_brackets(text: &str, round: i64) {
    if round == 0 {
        assert_eq!(lowest(text, '(', ')'), 0, "{}", text);
    }
    assert_eq!(lowest(text, '{', '}'), 0, "{}", text);
    assert_eq!(surplus(text, '(', ')'), round, "{}", text);
    assert_eq!(surplus(text, '{', '}'), 0, "{}", text);
}

fn every_value() -> Vec<Option<Type>> {
    vec![
        None,
        Some(ident("u8")),
        Some(ident("String")),
        Some(ident("Shared")),
        Some(reference(true, "T")),
        Some(str_slice()),
        Some(rust_box("T")),
        Some(unique_ptr("U")),
    ]
}

#[test]
fn shims_close_the_brackets_that_they_open() {
    for throws in [false, true] {
        for ret in every_value() {
            let slice = matches!(ret, Some(Type::Str(_)));
            let pointer = matches!(ret, Some(Type::RustBox(_)) | Some(Type::UniquePtr(_)));
            let efn = function("go", every_arg(), ret, throws);
            assert_brackets(&cxx_shim(&efn).0, if throws && slice { -1 } else { 0 });
            assert_brackets(&rust_decl(&efn), 0);
            assert_brackets(&rust_shim(&efn, true), 0);
            assert_brackets(&rust_shim(&efn, false), if throws && pointer { -1 } else { 0 });
        }
    }
}

#[test]
fn brackets_in_a_comment_stay() {
    let mut efn = function("go", vec![], None, false);
    efn.doc = doc(&[" Goes (a { b"]);
    let text = rust_shim(&efn, false);
    assert_eq!(surplus(&text, '(', ')'), 1);
    assert_eq!(surplus(&text, '{', '}'), 1);
}
