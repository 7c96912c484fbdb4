use cxxgen::name::Name;
use cxxgen::out::OutFile;
use cxxgen::syntax::{
    is_pod, Atom, Derive, Doc, ExternFn, Ref, Struct, Ty1, Type, Types, Var,
};
use cxxgen::write::types::{
    indirect_return, write_extern_arg, write_extern_return_type, write_return_type, write_type,
    write_type_space,
};

fn name(text: &str) -> Name {
    Name::new(text.to_string())
}

fn ident(text: &str) -> Type {
    Type::Ident(name(text))
}

fn rust_box(inner: Type) -> Type {
    Type::RustBox(Box::new(Ty1 { name: name("Box"), inner }))
}

fn unique_ptr(inner: Type) -> Type {
    Type::UniquePtr(Box::new(Ty1 { name: name("UniquePtr"), inner }))
}

fn reference(mutable: bool, inner: Type) -> Type {
    Type::Ref(Box::new(Ref { mutable, inner }))
}

fn str_slice() -> Type {
    Type::Str(Box::new(Ref { mutable: false, inner: ident("str") }))
}

fn strct(text: &str, derives: Vec<Derive>) -> Struct {
    Struct { doc: Doc { fragments: vec![] }, derives, ident: name(text), fields: vec![] }
}

fn types() -> Types {
    Types {
        all: vec![],
        structs: vec![
            strct("Shared", vec![]),
            strct("Plain", vec![Derive::Clone, Derive::Copy]),
        ],
    }
}

fn out() -> OutFile {
    OutFile::new(vec![], false)
}

fn spelled(ty: Type) -> String {
    let mut out = out();
    write_type(&mut out, &ty);
    out.content().to_string()
}

fn spaced(ty: Type) -> String {
    let mut out = out();
    write_type_space(&mut out, &ty);
    out.content().to_string()
}

fn returned(ty: Option<Type>) -> String {
    let mut out = out();
    write_extern_return_type(&mut out, &ty, &types());
    out.content().to_string()
}

fn argument(text: &str, ty: Type) -> String {
    let mut out = out();
    write_extern_arg(&mut out, &Var { ident: name(text), ty }, &types());
    out.content().to_string()
}

fn function(ret: Option<Type>, throws: bool) -> ExternFn {
    ExternFn { doc: Doc { fragments: vec![] }, ident: name("f"), args: vec![], ret, throws }
}

#[test]
fn atoms_have_names_in_both_languages() {
    let pairs = [
        ("bool", Atom::Bool, "bool"),
        ("u8", Atom::U8, "uint8_t"),
        ("u16", Atom::U16, "uint16_t"),
        ("u32", Atom::U32, "uint32_t"),
        ("u64", Atom::U64, "uint64_t"),
        ("usize", Atom::Usize, "size_t"),
        ("i8", Atom::I8, "int8_t"),
        ("i16", Atom::I16, "int16_t"),
        ("i32", Atom::I32, "int32_t"),
        ("i64", Atom::I64, "int64_t"),
        ("isize", Atom::Isize, "ssize_t"),
        ("f32", Atom::F32, "float"),
        ("f64", Atom::F64, "double"),
        ("CxxString", Atom::CxxString, "::std::string"),
        ("String", Atom::RustString, "::rust::String"),
    ];
    for (rust, atom, cxx) in pairs {
        assert_eq!(Atom::from(&name(rust)), Some(atom));
        assert!(ident(rust).is(atom));
        assert_eq!(spelled(ident(rust)), cxx);
    }
    assert_eq!(Atom::from(&name("str")), None);
    assert_eq!(Atom::from(&name("string")), None);
    assert!(!ident("Thing").is(Atom::RustString));
    assert!(!rust_box(ident("String")).is(Atom::RustString));
}

#[test]
fn other_types_are_spelled_by_their_parts() {
    assert_eq!(spelled(ident("Thing")), "Thing");
    assert_eq!(spelled(rust_box(ident("Thing"))), "::rust::Box<Thing>");
    assert_eq!(spelled(unique_ptr(ident("CxxString"))), "::std::unique_ptr<::std::string>");
    assert_eq!(spelled(reference(false, ident("u8"))), "const uint8_t &");
    assert_eq!(spelled(reference(true, rust_box(ident("T")))), "::rust::Box<T> &");
    assert_eq!(spelled(str_slice()), "::rust::Str");
}

#[test]
fn a_space_comes_before_a_name_except_after_a_reference() {
    assert_eq!(spaced(ident("u8")), "uint8_t ");
    assert_eq!(spaced(rust_box(ident("T"))), "::rust::Box<T> ");
    assert_eq!(spaced(unique_ptr(ident("T"))), "::std::unique_ptr<T> ");
    assert_eq!(spaced(str_slice()), "::rust::Str ");
    assert_eq!(spaced(reference(true, ident("T"))), "T &");
}

#[test]
fn return_type_of_nothing_is_void() {
    let mut file = out();
    write_return_type(&mut file, &None);
    write_return_type(&mut file, &Some(ident("u8")));
    assert_eq!(file.content(), "void uint8_t ");
}

#[test]
fn only_structs_that_are_not_copy_and_strings_are_indirect() {
    let types = types();
    assert!(types.needs_indirect_abi(&ident("Shared")));
    assert!(!types.needs_indirect_abi(&ident("Plain")));
    assert!(types.needs_indirect_abi(&ident("String")));
    assert!(!types.needs_indirect_abi(&ident("CxxString")));
    assert!(!types.needs_indirect_abi(&ident("u8")));
    assert!(!types.needs_indirect_abi(&rust_box(ident("Shared"))));
    assert!(!types.needs_indirect_abi(&Type::Void));
    assert!(is_pod(&types.structs[1]));
    assert!(!is_pod(&types.structs[0]));
}

#[test]
fn indirect_return_needs_a_value_and_a_reason() {
    let types = types();
    assert!(!indirect_return(&function(None, true), &types));
    assert!(!indirect_return(&function(Some(ident("u8")), false), &types));
    assert!(indirect_return(&function(Some(ident("u8")), true), &types));
    assert!(indirect_return(&function(Some(ident("Shared")), false), &types));
}

#[test]
fn extern_return_types() {
    assert_eq!(returned(None), "void ");
    assert_eq!(returned(Some(ident("u8"))), "uint8_t ");
    assert_eq!(returned(Some(ident("Plain"))), "Plain ");
    assert_eq!(returned(Some(ident("Shared"))), "void ");
    assert_eq!(returned(Some(rust_box(ident("T")))), "T *");
    assert_eq!(returned(Some(unique_ptr(ident("CxxString")))), "::std::string *");
    assert_eq!(returned(Some(reference(false, ident("T")))), "const T *");
    assert_eq!(returned(Some(reference(true, ident("T")))), "T *");
    assert_eq!(returned(Some(str_slice())), "::rust::Str::Repr ");
}

#[test]
fn extern_args() {
    assert_eq!(argument("a", ident("u8")), "uint8_t a");
    assert_eq!(argument("a", ident("Shared")), "Shared *a");
    assert_eq!(argument("a", ident("String")), "::rust::String *a");
    assert_eq!(argument("a", rust_box(ident("T"))), "T *a");
    assert_eq!(argument("a", unique_ptr(ident("T"))), "T *a");
    assert_eq!(argument("a", reference(false, ident("T"))), "const T &a");
    assert_eq!(argument("a", str_slice()), "::rust::Str::Repr a");
}
