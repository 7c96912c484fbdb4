//! Spelling: how the types of Rust read in C++ and at the boundary.

use vstd::prelude::*;

use crate::name::Name;
use crate::syntax::{
    atom_of, doc_string, struct_named, Atom, Derive, Doc, ExternFn, Struct, Type, Types, Var,
};
use crate::text::{concat, lemma_empty_left, lemma_empty_right};
use crate::write::functions::{boundary_return_text, param_text, return_param_text};
use crate::write::types::{extern_arg_text, return_type_text, type_space_text, type_text};

verus! {

/// The names that stand for types which both languages know.
proof fn lemma_names()
    ensures
        "bool"@.len() == 4,
        "u8"@ =~= seq!['u', '8'],
        "u16"@ =~= seq!['u', '1', '6'],
        "u32"@ =~= seq!['u', '3', '2'],
        "u64"@ =~= seq!['u', '6', '4'],
        "usize"@ =~= seq!['u', 's', 'i', 'z', 'e'],
        "i8"@ =~= seq!['i', '8'],
        "i16"@ =~= seq!['i', '1', '6'],
        "i32"@ =~= seq!['i', '3', '2'],
        "i64"@ =~= seq!['i', '6', '4'],
        "isize"@ =~= seq!['i', 's', 'i', 'z', 'e'],
        "f32"@ =~= seq!['f', '3', '2'],
        "f64"@ =~= seq!['f', '6', '4'],
        "CxxString"@.len() == 9,
        "String"@.len() == 6,
{
    reveal_strlit("bool");
    reveal_strlit("u8");
    reveal_strlit("u16");
    reveal_strlit("u32");
    reveal_strlit("u64");
    reveal_strlit("usize");
    reveal_strlit("i8");
    reveal_strlit("i16");
    reveal_strlit("i32");
    reveal_strlit("i64");
    reveal_strlit("isize");
    reveal_strlit("f32");
    reveal_strlit("f64");
    reveal_strlit("CxxString");
    reveal_strlit("String");
}

proof fn lemma_names_differ()
    ensures
        atom_of("bool"@) == Some(Atom::Bool),
        atom_of("u8"@) == Some(Atom::U8),
        atom_of("u16"@) == Some(Atom::U16),
        atom_of("u32"@) == Some(Atom::U32),
        atom_of("u64"@) == Some(Atom::U64),
        atom_of("usize"@) == Some(Atom::Usize),
        atom_of("i8"@) == Some(Atom::I8),
        atom_of("i16"@) == Some(Atom::I16),
        atom_of("i32"@) == Some(Atom::I32),
        atom_of("i64"@) == Some(Atom::I64),
        atom_of("isize"@) == Some(Atom::Isize),
        atom_of("f32"@) == Some(Atom::F32),
        atom_of("f64"@) == Some(Atom::F64),
        atom_of("CxxString"@) == Some(Atom::CxxString),
        atom_of("String"@) == Some(Atom::RustString),
{
    lemma_names();
    assert("u8"@[0] == 'u' && "i8"@[0] == 'i');
    assert("u16"@[0] == 'u' && "u16"@[1] == '1');
    assert("u32"@[0] == 'u' && "u32"@[1] == '3');
    assert("u64"@[0] == 'u' && "u64"@[1] == '6');
    assert("i16"@[0] == 'i' && "i16"@[1] == '1');
    assert("i32"@[0] == 'i' && "i32"@[1] == '3');
    assert("i64"@[0] == 'i' && "i64"@[1] == '6');
    assert("f32"@[0] == 'f' && "f32"@[1] == '3');
    assert("f64"@[0] == 'f' && "f64"@[1] == '6');
    assert("usize"@[0] == 'u' && "isize"@[0] == 'i');
}

/// Each atom has one name in Rust, and each name that is no atom's stands for no atom.
pub proof fn law_atoms_are_named(text: Seq<char>)
    ensures
        atom_of(text) == Some(Atom::Bool) <==> text == "bool"@,
        atom_of(text) == Some(Atom::U8) <==> text == "u8"@,
        atom_of(text) == Some(Atom::U16) <==> text == "u16"@,
        atom_of(text) == Some(Atom::U32) <==> text == "u32"@,
        atom_of(text) == Some(Atom::U64) <==> text == "u64"@,
        atom_of(text) == Some(Atom::Usize) <==> text == "usize"@,
        atom_of(text) == Some(Atom::I8) <==> text == "i8"@,
        atom_of(text) == Some(Atom::I16) <==> text == "i16"@,
        atom_of(text) == Some(Atom::I32) <==> text == "i32"@,
        atom_of(text) == Some(Atom::I64) <==> text == "i64"@,
        atom_of(text) == Some(Atom::Isize) <==> text == "isize"@,
        atom_of(text) == Some(Atom::F32) <==> text == "f32"@,
        atom_of(text) == Some(Atom::F64) <==> text == "f64"@,
        atom_of(text) == Some(Atom::CxxString) <==> text == "CxxString"@,
        atom_of(text) == Some(Atom::RustString) <==> text == "String"@,
{
    lemma_names_differ();
}

/// A type is an atom if and only if it is the name of one.
pub proof fn law_atoms_are_names(ty: Type)
    ensures
        ty matches Type::Ident(ident) ==> ty.atom() == atom_of(ident@),
        !(ty is Ident) ==> ty.atom() is None,
{
}

/// A name reads in C++ as the type of C++ with the same values, or as itself where it is the name
/// of a struct or an opaque type.
pub proof fn law_names_are_spelled(ident: Name)
    ensures
        ({
            let cxx = type_text(Type::Ident(ident));
            &&& ident@ == "bool"@ ==> cxx == "bool"@
            &&& ident@ == "u8"@ ==> cxx == "uint8_t"@
            &&& ident@ == "u16"@ ==> cxx == "uint16_t"@
            &&& ident@ == "u32"@ ==> cxx == "uint32_t"@
            &&& ident@ == "u64"@ ==> cxx == "uint64_t"@
            &&& ident@ == "usize"@ ==> cxx == "size_t"@
            &&& ident@ == "i8"@ ==> cxx == "int8_t"@
            &&& ident@ == "i16"@ ==> cxx == "int16_t"@
            &&& ident@ == "i32"@ ==> cxx == "int32_t"@
            &&& ident@ == "i64"@ ==> cxx == "int64_t"@
            &&& ident@ == "isize"@ ==> cxx == "ssize_t"@
            &&& ident@ == "f32"@ ==> cxx == "float"@
            &&& ident@ == "f64"@ ==> cxx == "double"@
            &&& ident@ == "CxxString"@ ==> cxx == "::std::string"@
            &&& ident@ == "String"@ ==> cxx == "::rust::String"@
            &&& {
                ||| cxx == ident@
                ||| ident@ == "u8"@ || ident@ == "u16"@ || ident@ == "u32"@ || ident@ == "u64"@
                ||| ident@ == "i8"@ || ident@ == "i16"@ || ident@ == "i32"@ || ident@ == "i64"@
                ||| ident@ == "usize"@ || ident@ == "isize"@ || ident@ == "f32"@
                ||| ident@ == "f64"@ || ident@ == "CxxString"@ || ident@ == "String"@
            }
        }),
{
    lemma_names_differ();
}

/// A box and a unique pointer read as the name of their template around their argument. A mutable
/// reference reads as its referent and ` &`, a shared one as the same behind `const `. A string
/// slice has a type of its own, whatever it is said to refer to.
pub proof fn law_types_are_spelled_by_their_parts(ty: Type)
    ensures
        ty matches Type::RustBox(t) ==> type_text(ty) == "::rust::Box<"@ + type_text(t.inner)
            + ">"@,
        ty matches Type::UniquePtr(t) ==> type_text(ty) == "::std::unique_ptr<"@ + type_text(
            t.inner,
        ) + ">"@,
        ty matches Type::Ref(r) ==> r.mutable ==> type_text(ty) == type_text(r.inner) + " &"@,
        ty matches Type::Ref(r) ==> !r.mutable ==> type_text(ty) == "const "@ + type_text(r.inner)
            + " &"@,
        ty is Str ==> type_text(ty) == "::rust::Str"@,
{
    broadcast use lemma_empty_left;

}

/// Between a type and a name stands a space, unless the type is a reference: then the name
/// follows the `&`. A function without a value returns `void`.
pub proof fn law_space_before_names(ty: Type, arg: Var)
    ensures
        ty is Ref ==> type_space_text(ty) == type_text(ty),
        !(ty is Ref) ==> type_space_text(ty) == type_text(ty) + " "@,
        return_type_text(None) == "void "@,
        return_type_text(Some(ty)) == type_space_text(ty),
        param_text(arg) == type_space_text(arg.ty) + arg.ident@,
{
    broadcast use lemma_empty_right;

}

proof fn lemma_struct_named(structs: Seq<Struct>, name: Seq<char>, i: int)
    requires
        0 <= i < structs.len(),
        structs[i].ident@ == name,
        forall|j: int| 0 <= j < i ==> (#[trigger] structs[j]).ident@ != name,
    ensures
        struct_named(structs, name) == Some(structs[i]),
    decreases structs.len(),
{
    if i > 0 {
        assert(structs[0].ident@ != name);
        assert forall|j: int| 0 <= j < i - 1 implies (#[trigger] structs.skip(1)[j]).ident@
            != name by {
            assert(structs.skip(1)[j] == structs[j + 1]);
        }
        lemma_struct_named(structs.skip(1), name, i - 1);
    }
}

proof fn lemma_struct_not_named(structs: Seq<Struct>, name: Seq<char>)
    requires
        forall|j: int| 0 <= j < structs.len() ==> (#[trigger] structs[j]).ident@ != name,
    ensures
        struct_named(structs, name) is None,
    decreases structs.len(),
{
    if structs.len() > 0 {
        assert(structs[0].ident@ != name);
        assert forall|j: int| 0 <= j < structs.skip(1).len() implies (#[trigger] structs.skip(
            1,
        )[j]).ident@ != name by {
            assert(structs.skip(1)[j] == structs[j + 1]);
        }
        lemma_struct_not_named(structs.skip(1), name);
    }
}

/// The value of a struct that the bridge defines crosses the boundary behind a pointer unless the
/// struct derives `Copy`.
pub proof fn law_struct_is_indirect_unless_copy(types: Types, ident: Name, i: int)
    requires
        0 <= i < types.structs@.len(),
        types.structs@[i].ident@ == ident@,
        forall|j: int| 0 <= j < i ==> (#[trigger] types.structs@[j]).ident@ != ident@,
    ensures
        types.indirect(Type::Ident(ident)) <==> forall|k: int|
            0 <= k < types.structs@[i].derives@.len() ==> #[trigger] types.structs@[i].derives@[k]
                != Derive::Copy,
{
    lemma_struct_named(types.structs@, ident@, i);
    let derives = types.structs@[i].derives@;
    if !derives.contains(Derive::Copy) {
        assert forall|k: int| 0 <= k < derives.len() implies #[trigger] derives[k]
            != Derive::Copy by {
            assert(derives.contains(derives[k]));
        }
    }
}

/// Of the values of other types only a Rust string crosses the boundary behind a pointer.
pub proof fn law_only_strings_are_indirect_besides(types: Types, ty: Type)
    requires
        ty matches Type::Ident(ident) ==> forall|j: int|
            0 <= j < types.structs@.len() ==> (#[trigger] types.structs@[j]).ident@ != ident@,
    ensures
        types.indirect(ty) <==> (ty matches Type::Ident(ident) && ident@ == "String"@),
{
    if let Type::Ident(ident) = ty {
        lemma_struct_not_named(types.structs@, ident@);
        law_atoms_are_named(ident@);
    }
}

/// A function that may fail returns its error at the boundary. Any other returns its value: a box,
/// a unique pointer and a reference as a pointer, a string slice by its representation, a value
/// that goes through a pointer argument not at all.
pub proof fn law_boundary_returns(efn: ExternFn, types: Types)
    ensures
        efn.throws ==> boundary_return_text(efn, types) == "::rust::Str::Repr "@,
        !efn.throws ==> (efn.ret is None ==> boundary_return_text(efn, types) == "void "@),
        !efn.throws ==> (efn.ret matches Some(Type::RustBox(t)) ==> boundary_return_text(efn, types)
            == type_space_text(t.inner) + "*"@),
        !efn.throws ==> (efn.ret matches Some(Type::UniquePtr(t)) ==> boundary_return_text(
            efn,
            types,
        ) == type_space_text(t.inner) + "*"@),
        !efn.throws ==> (efn.ret matches Some(Type::Ref(r)) ==> r.mutable ==> boundary_return_text(
            efn,
            types,
        ) == type_text(r.inner) + " *"@),
        !efn.throws ==> (efn.ret matches Some(Type::Ref(r)) ==> !r.mutable ==> boundary_return_text(
            efn,
            types,
        ) == "const "@ + type_text(r.inner) + " *"@),
        !efn.throws ==> (efn.ret matches Some(Type::Str(_)) ==> boundary_return_text(efn, types)
            == "::rust::Str::Repr "@),
        !efn.throws ==> (efn.ret matches Some(ret) ==> ret is Ident ==> boundary_return_text(
            efn,
            types,
        ) == if types.indirect(ret) {
            "void "@
        } else {
            type_text(ret) + " "@
        }),
{
    broadcast use lemma_empty_left;

}

/// A reference comes back as a pointer to the same type: the two differ in their last sign only.
pub proof fn law_references_come_back_as_pointers(efn: ExternFn, types: Types)
    requires
        !efn.throws,
        efn.ret matches Some(ret) && ret is Ref,
    ensures
        boundary_return_text(efn, types).drop_last() == type_text(efn.ret->0).drop_last(),
        boundary_return_text(efn, types).last() == '*',
        type_text(efn.ret->0).last() == '&',
{
    reveal_strlit(" &");
    reveal_strlit(" *");
    assert(boundary_return_text(efn, types).drop_last() =~= type_text(efn.ret->0).drop_last());
}

/// At the boundary an argument is a pointer where it is a box, a unique pointer or a value that
/// goes behind a pointer; a string slice is there by its representation; any other argument is
/// what it is in C++.
pub proof fn law_boundary_params(arg: Var, types: Types)
    ensures
        arg.ty matches Type::RustBox(t) ==> extern_arg_text(arg, types) == type_space_text(t.inner)
            + "*"@ + arg.ident@,
        arg.ty matches Type::UniquePtr(t) ==> extern_arg_text(arg, types) == type_space_text(
            t.inner,
        ) + "*"@ + arg.ident@,
        arg.ty is Str ==> extern_arg_text(arg, types) == "::rust::Str::Repr "@ + arg.ident@,
        arg.ty is Ref ==> extern_arg_text(arg, types) == type_text(arg.ty) + arg.ident@,
        arg.ty is Ident && types.indirect(arg.ty) ==> extern_arg_text(arg, types) == type_text(
            arg.ty,
        ) + " "@ + "*"@ + arg.ident@,
        arg.ty is Ident && !types.indirect(arg.ty) ==> extern_arg_text(arg, types) == type_text(
            arg.ty,
        ) + " "@ + arg.ident@,
{
    broadcast use lemma_empty_right;

}

/// A function has a pointer argument for its value, behind all others, if and only if it has a
/// value and may fail or return it behind a pointer.
pub proof fn law_return_pointers(efn: ExternFn, types: Types)
    ensures
        efn.ret matches Some(ret) ==> (efn.throws || types.indirect(ret)) ==> {
            &&& efn.args@.len() > 0 ==> return_param_text(efn, types) == ", "@ + type_space_text(
                ret,
            ) + "*return$"@
            &&& efn.args@.len() == 0 ==> return_param_text(efn, types) == type_space_text(ret)
                + "*return$"@
        },
        efn.ret matches Some(ret) ==> !efn.throws && !types.indirect(ret) ==> return_param_text(
            efn,
            types,
        ) == Seq::<char>::empty(),
        efn.ret is None ==> return_param_text(efn, types) == Seq::<char>::empty(),
{
    broadcast use lemma_empty_left;

}

proof fn lemma_doc_lines(fragments: Seq<String>)
    ensures
        doc_string(fragments) == concat(fragments.map_values(|f: String| f@ + "\n"@)),
    decreases fragments.len(),
{
    let parts = fragments.map_values(|f: String| f@ + "\n"@);
    if fragments.len() > 0 {
        lemma_doc_lines(fragments.drop_last());
        assert(parts.drop_last() =~= fragments.drop_last().map_values(|f: String| f@ + "\n"@));
        assert(doc_string(fragments) =~= concat(parts.drop_last()) + parts.last());
    }
}

/// A comment has all its fragments in their order, each with a line feed behind it.
pub proof fn law_comments_are_whole(doc: Doc)
    ensures
        doc@ == concat(doc.fragments@.map_values(|f: String| f@ + "\n"@)),
{
    lemma_doc_lines(doc.fragments@);
}

}
