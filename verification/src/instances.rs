//! Instances of templates: what a source file has for the boxes and unique pointers of a bridge.

use vstd::prelude::*;

use crate::layout::{lemma_sections, lemma_texts, sections, texts};
use crate::out::{close, open};
use crate::syntax::{atom_of, Type};
use crate::text::group_joined;
use crate::write::bridge::{
    extern_instance_pieces, impl_instance_pieces, instantiation_pieces,
};
use crate::write::namespace::{instance_name, qualified_name};
use crate::write::templates::{rust_box_extern_text, rust_box_impl_text, unique_ptr_text};

verus! {

/// The name in a box of a named type.
pub open spec fn boxed_name(ty: Type) -> Option<Seq<char>> {
    match ty {
        Type::RustBox(t) => match t.inner {
            Type::Ident(name) => Some(name@),
            _ => None,
        },
        _ => None,
    }
}

/// The name in a unique pointer to a named type.
pub open spec fn pointed_name(ty: Type) -> Option<Seq<char>> {
    match ty {
        Type::UniquePtr(t) => match t.inner {
            Type::Ident(name) => Some(name@),
            _ => None,
        },
        _ => None,
    }
}

/// There is one section for each box of a named type and for each unique pointer to a named type
/// that is no atom, in the order of the types, all of them in a block that the linker sees. In the
/// namespace of the runtime there are the methods of each of these boxes.
pub proof fn law_instances(namespace: Seq<Seq<char>>, types: Seq<Type>)
    ensures
        instantiation_pieces(namespace, types) == open("extern \"C\""@) + sections(
            types.filter(
                |ty: Type|
                    boxed_name(ty) is Some || (pointed_name(ty) matches Some(name) && atom_of(name)
                        is None),
            ).map_values(
                |ty: Type|
                    match boxed_name(ty) {
                        Some(name) => rust_box_extern_text(namespace, name),
                        None => unique_ptr_text(namespace, pointed_name(ty).unwrap()),
                    },
            ),
        ) + close("extern \"C\""@) + open("namespace rust"@) + open(
            "inline namespace cxxbridge02"@,
        ) + texts(
            types.filter(|ty: Type| boxed_name(ty) is Some).map_values(
                |ty: Type| rust_box_impl_text(namespace, boxed_name(ty).unwrap()),
            ),
        ) + close("namespace cxxbridge02"@) + close("namespace rust"@),
{
    lemma_sections(
        types,
        |ty: Type| extern_instance_pieces(namespace, ty),
        |ty: Type|
            boxed_name(ty) is Some || (pointed_name(ty) matches Some(name) && atom_of(name)
                is None),
        |ty: Type|
            match boxed_name(ty) {
                Some(name) => rust_box_extern_text(namespace, name),
                None => unique_ptr_text(namespace, pointed_name(ty).unwrap()),
            },
    );
    lemma_texts(
        types,
        |ty: Type| impl_instance_pieces(namespace, ty),
        |ty: Type| boxed_name(ty) is Some,
        |ty: Type| rust_box_impl_text(namespace, boxed_name(ty).unwrap()),
    );
}

/// For each of the two methods of a box of a type there is one function of Rust: the linker sees
/// its declaration, and the method of the same name calls it on the box.
pub proof fn law_box_methods(namespace: Seq<Seq<char>>, ident: Seq<char>)
    ensures
        ({
            let inner = qualified_name(namespace, ident);
            let instance = instance_name(namespace, ident);
            let symbol = |method: Seq<char>| "cxxbridge02$box$"@ + instance + "$"@ + method;
            let declared = |method: Seq<char>|
                "void "@ + symbol(method) + "(::rust::Box<"@ + inner + "> *ptr) noexcept;\n"@;
            let called = |method: Seq<char>|
                "template <>\n"@ + "void Box<"@ + inner + ">::"@ + method + "() noexcept {\n"@
                    + "  return "@ + symbol(method) + "(this);\n"@ + "}\n"@;
            &&& rust_box_extern_text(namespace, ident) == "#ifndef CXXBRIDGE02_RUST_BOX_"@
                + instance + "\n"@ + "#define CXXBRIDGE02_RUST_BOX_"@ + instance + "\n"@ + declared(
                "uninit"@,
            ) + declared("drop"@) + "#endif // CXXBRIDGE02_RUST_BOX_"@ + instance + "\n"@
            &&& rust_box_impl_text(namespace, ident) == called("uninit"@) + called("drop"@)
        }),
{
    broadcast use group_joined;

    lemma_box_literals();
}

proof fn lemma_box_literals()
    ensures
        "void cxxbridge02$box$"@ == "void "@ + "cxxbridge02$box$"@,
        "  return cxxbridge02$box$"@ == "  return "@ + "cxxbridge02$box$"@,
        "$uninit(::rust::Box<"@ == "$"@ + "uninit"@ + "(::rust::Box<"@,
        "$drop(::rust::Box<"@ == "$"@ + "drop"@ + "(::rust::Box<"@,
        "$uninit(this);\n"@ == "$"@ + "uninit"@ + "(this);\n"@,
        "$drop(this);\n"@ == "$"@ + "drop"@ + "(this);\n"@,
        ">::uninit() noexcept {\n"@ == ">::"@ + "uninit"@ + "() noexcept {\n"@,
        ">::drop() noexcept {\n"@ == ">::"@ + "drop"@ + "() noexcept {\n"@,
{
    reveal_strlit("void ");
    reveal_strlit("  return ");
    reveal_strlit("cxxbridge02$box$");
    reveal_strlit("void cxxbridge02$box$");
    reveal_strlit("  return cxxbridge02$box$");
    reveal_strlit("$");
    reveal_strlit("uninit");
    reveal_strlit("drop");
    reveal_strlit("(::rust::Box<");
    reveal_strlit("(this);\n");
    reveal_strlit(">::");
    reveal_strlit("() noexcept {\n");
    reveal_strlit("$uninit(::rust::Box<");
    reveal_strlit("$drop(::rust::Box<");
    reveal_strlit("$uninit(this);\n");
    reveal_strlit("$drop(this);\n");
    reveal_strlit(">::uninit() noexcept {\n");
    reveal_strlit(">::drop() noexcept {\n");
    assert("$uninit(::rust::Box<"@ =~= "$"@ + "uninit"@ + "(::rust::Box<"@);
    assert("$drop(::rust::Box<"@ =~= "$"@ + "drop"@ + "(::rust::Box<"@);
    assert("$uninit(this);\n"@ =~= "$"@ + "uninit"@ + "(this);\n"@);
    assert("$drop(this);\n"@ =~= "$"@ + "drop"@ + "(this);\n"@);
    assert(">::uninit() noexcept {\n"@ =~= ">::"@ + "uninit"@ + "() noexcept {\n"@);
    assert(">::drop() noexcept {\n"@ =~= ">::"@ + "drop"@ + "() noexcept {\n"@);
}

/// For a unique pointer that Rust holds, C++ defines six functions between a guard of their own:
/// three make the pointer, of nothing, of a value and of a raw pointer; one reads it, one empties
/// it, one drops it. The pointer must have the size and the alignment of a raw one.
pub proof fn law_unique_ptr_functions(namespace: Seq<Seq<char>>, ident: Seq<char>)
    ensures
        ({
            let inner = qualified_name(namespace, ident);
            let instance = instance_name(namespace, ident);
            let symbol = |method: Seq<char>| "cxxbridge02$unique_ptr$"@ + instance + "$"@ + method;
            let pointer = "::std::unique_ptr<"@ + inner + ">"@;
            unique_ptr_text(namespace, ident) == "#ifndef CXXBRIDGE02_UNIQUE_PTR_"@ + instance
                + "\n"@ + "#define CXXBRIDGE02_UNIQUE_PTR_"@ + instance + "\n"@
                + "static_assert(sizeof("@ + pointer + ") == sizeof(void *), \"\");\n"@
                + "static_assert(alignof("@ + pointer + ") == alignof(void *), \"\");\n"@
                + "void "@ + symbol("null"@) + "("@ + pointer + " *ptr) noexcept {\n"@
                + "  new (ptr) "@ + pointer + "();\n"@ + "}\n"@
                + "void "@ + symbol("new"@) + "("@ + pointer + " *ptr, "@ + inner
                + " *value) noexcept {\n"@
                + "  new (ptr) "@ + pointer + "(new "@ + inner + "(::std::move(*value)));\n"@
                + "}\n"@
                + "void "@ + symbol("raw"@) + "("@ + pointer + " *ptr, "@ + inner
                + " *raw) noexcept {\n"@
                + "  new (ptr) "@ + pointer + "(raw);\n"@ + "}\n"@
                + "const "@ + inner + " *"@ + symbol("get"@) + "(const "@ + pointer
                + "& ptr) noexcept {\n"@ + "  return ptr.get();\n"@ + "}\n"@
                + inner + " *"@ + symbol("release"@) + "("@ + pointer + "& ptr) noexcept {\n"@
                + "  return ptr.release();\n"@ + "}\n"@
                + "void "@ + symbol("drop"@) + "("@ + pointer + " *ptr) noexcept {\n"@
                + "  ptr->~unique_ptr();\n"@ + "}\n"@
                + "#endif // CXXBRIDGE02_UNIQUE_PTR_"@ + instance + "\n"@
        }),
{
    broadcast use group_joined;

    lemma_pointer_literals();
    lemma_symbol_literals();
}

proof fn lemma_pointer_literals()
    ensures
        "static_assert(sizeof(::std::unique_ptr<"@ == "static_assert(sizeof("@
            + "::std::unique_ptr<"@,
        ">) == sizeof(void *), \"\");\n"@ == ">"@ + ") == sizeof(void *), \"\");\n"@,
        "static_assert(alignof(::std::unique_ptr<"@ == "static_assert(alignof("@
            + "::std::unique_ptr<"@,
        ">) == alignof(void *), \"\");\n"@ == ">"@ + ") == alignof(void *), \"\");\n"@,
        "> *ptr) noexcept {\n"@ == ">"@ + " *ptr) noexcept {\n"@,
        "  new (ptr) ::std::unique_ptr<"@ == "  new (ptr) "@ + "::std::unique_ptr<"@,
        ">();\n"@ == ">"@ + "();\n"@,
        "> *ptr, "@ == ">"@ + " *ptr, "@,
        ">(new "@ == ">"@ + "(new "@,
        ">(raw);\n"@ == ">"@ + "(raw);\n"@,
        ">& ptr) noexcept {\n"@ == ">"@ + "& ptr) noexcept {\n"@,
{
    reveal_strlit("::std::unique_ptr<");
    reveal_strlit(">");
    reveal_strlit("static_assert(sizeof(::std::unique_ptr<");
    reveal_strlit("static_assert(sizeof(");
    reveal_strlit(">) == sizeof(void *), \"\");\n");
    reveal_strlit(") == sizeof(void *), \"\");\n");
    reveal_strlit("static_assert(alignof(::std::unique_ptr<");
    reveal_strlit("static_assert(alignof(");
    reveal_strlit(">) == alignof(void *), \"\");\n");
    reveal_strlit(") == alignof(void *), \"\");\n");
    reveal_strlit("> *ptr) noexcept {\n");
    reveal_strlit(" *ptr) noexcept {\n");
    reveal_strlit("  new (ptr) ::std::unique_ptr<");
    reveal_strlit("  new (ptr) ");
    reveal_strlit(">();\n");
    reveal_strlit("();\n");
    reveal_strlit("> *ptr, ");
    reveal_strlit(" *ptr, ");
    reveal_strlit(">(new ");
    reveal_strlit("(new ");
    reveal_strlit(">(raw);\n");
    reveal_strlit("(raw);\n");
    reveal_strlit(">& ptr) noexcept {\n");
    reveal_strlit("& ptr) noexcept {\n");
}

proof fn lemma_symbol_literals()
    ensures
        "void cxxbridge02$unique_ptr$"@ == "void "@ + "cxxbridge02$unique_ptr$"@,
        " *cxxbridge02$unique_ptr$"@ == " *"@ + "cxxbridge02$unique_ptr$"@,
        "$null(::std::unique_ptr<"@ == "$"@ + "null"@ + "("@ + "::std::unique_ptr<"@,
        "$new(::std::unique_ptr<"@ == "$"@ + "new"@ + "("@ + "::std::unique_ptr<"@,
        "$raw(::std::unique_ptr<"@ == "$"@ + "raw"@ + "("@ + "::std::unique_ptr<"@,
        "$get(const ::std::unique_ptr<"@ == "$"@ + "get"@ + "(const "@ + "::std::unique_ptr<"@,
        "$release(::std::unique_ptr<"@ == "$"@ + "release"@ + "("@ + "::std::unique_ptr<"@,
        "$drop(::std::unique_ptr<"@ == "$"@ + "drop"@ + "("@ + "::std::unique_ptr<"@,
{
    reveal_strlit("void ");
    reveal_strlit(" *");
    reveal_strlit("$");
    reveal_strlit("(");
    reveal_strlit("(const ");
    reveal_strlit("null");
    reveal_strlit("new");
    reveal_strlit("raw");
    reveal_strlit("get");
    reveal_strlit("release");
    reveal_strlit("drop");
    reveal_strlit("::std::unique_ptr<");
    reveal_strlit("cxxbridge02$unique_ptr$");
    reveal_strlit("void cxxbridge02$unique_ptr$");
    reveal_strlit(" *cxxbridge02$unique_ptr$");
    reveal_strlit("$null(::std::unique_ptr<");
    reveal_strlit("$new(::std::unique_ptr<");
    reveal_strlit("$raw(::std::unique_ptr<");
    reveal_strlit("$get(const ::std::unique_ptr<");
    reveal_strlit("$release(::std::unique_ptr<");
    reveal_strlit("$drop(::std::unique_ptr<");
}

}
