//! Types as C++ spells them.

use vstd::prelude::*;

use crate::out::{base, group_write, OutFile};
use crate::syntax::{atom_of, Atom, ExternFn, Type, Types, Var};
use crate::text::text_if;

verus! {

broadcast use group_write;

/// An atom in C++.
pub open spec fn atom_text(atom: Atom) -> Seq<char> {
    match atom {
        Atom::Bool => "bool"@,
        Atom::U8 => "uint8_t"@,
        Atom::U16 => "uint16_t"@,
        Atom::U32 => "uint32_t"@,
        Atom::U64 => "uint64_t"@,
        Atom::Usize => "size_t"@,
        Atom::I8 => "int8_t"@,
        Atom::I16 => "int16_t"@,
        Atom::I32 => "int32_t"@,
        Atom::I64 => "int64_t"@,
        Atom::Isize => "ssize_t"@,
        Atom::F32 => "float"@,
        Atom::F64 => "double"@,
        Atom::CxxString => "::std::string"@,
        Atom::RustString => "::rust::String"@,
    }
}

/// A type in C++.
pub open spec fn type_text(ty: Type) -> Seq<char>
    recommends
        ty.printable(),
    decreases ty,
{
    match ty {
        Type::Ident(ident) => match atom_of(ident@) {
            Some(atom) => atom_text(atom),
            None => ident@,
        },
        Type::RustBox(ty) => "::rust::Box<"@ + type_text(ty.inner) + ">"@,
        Type::UniquePtr(ptr) => "::std::unique_ptr<"@ + type_text(ptr.inner) + ">"@,
        Type::Ref(r) => text_if(!r.mutable, "const "@) + type_text(r.inner) + " &"@,
        Type::Str(_) => "::rust::Str"@,
        Type::Void => Seq::empty(),
    }
}

/// A type in C++, ready for a name: after a reference no space is needed.
pub open spec fn type_space_text(ty: Type) -> Seq<char> {
    type_text(ty) + text_if(!(ty is Ref), " "@)
}

/// The type that a function returns in C++, ready for its name.
pub open spec fn return_type_text(ret: Option<Type>) -> Seq<char> {
    match ret {
        None => "void "@,
        Some(ty) => type_space_text(ty),
    }
}

/// Whether a function returns its value through a pointer argument: it may fail, or the value
/// crosses the boundary behind a pointer.
pub open spec fn returns_indirectly(efn: ExternFn, types: Types) -> bool {
    match efn.ret {
        Some(ret) => efn.throws || types.indirect(ret),
        None => false,
    }
}

/// The type that a function returns at the boundary if it cannot fail, ready for its name.
pub open spec fn extern_return_type_text(ret: Option<Type>, types: Types) -> Seq<char> {
    match ret {
        Some(Type::RustBox(ty)) => type_space_text(ty.inner) + "*"@,
        Some(Type::UniquePtr(ptr)) => type_space_text(ptr.inner) + "*"@,
        Some(Type::Ref(r)) => text_if(!r.mutable, "const "@) + type_text(r.inner) + " *"@,
        Some(Type::Str(_)) => "::rust::Str::Repr "@,
        Some(ty) => if types.indirect(ty) {
            "void "@
        } else {
            type_space_text(ty)
        },
        None => "void "@,
    }
}

/// An argument at the boundary.
pub open spec fn extern_arg_text(arg: Var, types: Types) -> Seq<char> {
    (match arg.ty {
        Type::RustBox(ty) => type_space_text(ty.inner) + "*"@,
        Type::UniquePtr(ptr) => type_space_text(ptr.inner) + "*"@,
        Type::Str(_) => "::rust::Str::Repr "@,
        _ => type_space_text(arg.ty),
    }) + text_if(types.indirect(arg.ty), "*"@) + arg.ident@
}

/// Writes a type.
pub fn write_type(out: &mut OutFile, ty: &Type)
    requires
        ty.printable(),
    ensures
        final(out)@ == old(out)@.write(type_text(*ty)),
        final(out).includes == old(out).includes,
    decreases ty,
{
    assert(base(out@));
    match ty {
        Type::Ident(ident) => match Atom::from(ident) {
            Some(Atom::Bool) => out.write_str("bool"),
            Some(Atom::U8) => out.write_str("uint8_t"),
            Some(Atom::U16) => out.write_str("uint16_t"),
            Some(Atom::U32) => out.write_str("uint32_t"),
            Some(Atom::U64) => out.write_str("uint64_t"),
            Some(Atom::Usize) => out.write_str("size_t"),
            Some(Atom::I8) => out.write_str("int8_t"),
            Some(Atom::I16) => out.write_str("int16_t"),
            Some(Atom::I32) => out.write_str("int32_t"),
            Some(Atom::I64) => out.write_str("int64_t"),
            Some(Atom::Isize) => out.write_str("ssize_t"),
            Some(Atom::F32) => out.write_str("float"),
            Some(Atom::F64) => out.write_str("double"),
            Some(Atom::CxxString) => out.write_str("::std::string"),
            Some(Atom::RustString) => out.write_str("::rust::String"),
            None => out.write_str(ident.text.as_str()),
        },
        Type::RustBox(ty) => {
            out.write_str("::rust::Box<");
            write_type(out, &ty.inner);
            out.write_str(">");
        },
        Type::UniquePtr(ptr) => {
            out.write_str("::std::unique_ptr<");
            write_type(out, &ptr.inner);
            out.write_str(">");
        },
        Type::Ref(r) => {
            if !r.mutable {
                out.write_str("const ");
            }
            write_type(out, &r.inner);
            out.write_str(" &");
        },
        Type::Str(_) => out.write_str("::rust::Str"),
        Type::Void => {},
    }
}

/// Writes a type, ready for a name.
pub fn write_type_space(out: &mut OutFile, ty: &Type)
    requires
        ty.printable(),
    ensures
        final(out)@ == old(out)@.write(type_space_text(*ty)),
        final(out).includes == old(out).includes,
{
    assert(base(out@));
    write_type(out, ty);
    match ty {
        Type::Ident(_) | Type::RustBox(_) | Type::UniquePtr(_) | Type::Str(_) => out.write_str(" "),
        Type::Ref(_) => {},
        Type::Void => {},
    }
}

/// Writes the type that a function returns in C++, ready for its name.
pub fn write_return_type(out: &mut OutFile, ty: &Option<Type>)
    requires
        ty matches Some(ty) ==> ty.printable(),
    ensures
        final(out)@ == old(out)@.write(return_type_text(*ty)),
        final(out).includes == old(out).includes,
{
    assert(base(out@));
    match ty {
        None => out.write_str("void "),
        Some(ty) => write_type_space(out, ty),
    }
}

/// Whether a function returns its value through a pointer argument.
pub fn indirect_return(efn: &ExternFn, types: &Types) -> (res: bool)
    ensures
        res == returns_indirectly(*efn, *types),
{
    match &efn.ret {
        Some(ret) => efn.throws || types.needs_indirect_abi(ret),
        None => false,
    }
}

/// Writes the type that a function returns at the boundary if it cannot fail.
pub fn write_extern_return_type(out: &mut OutFile, ty: &Option<Type>, types: &Types)
    requires
        ty matches Some(ty) ==> ty.printable(),
    ensures
        final(out)@ == old(out)@.write(extern_return_type_text(*ty, *types)),
        final(out).includes == old(out).includes,
{
    assert(base(out@));
    match ty {
        Some(Type::RustBox(ty)) | Some(Type::UniquePtr(ty)) => {
            write_type_space(out, &ty.inner);
            out.write_str("*");
        },
        Some(Type::Ref(ty)) => {
            if !ty.mutable {
                out.write_str("const ");
            }
            write_type(out, &ty.inner);
            out.write_str(" *");
        },
        Some(Type::Str(_)) => out.write_str("::rust::Str::Repr "),
        Some(some) => if types.needs_indirect_abi(some) {
            out.write_str("void ");
        } else {
            write_return_type(out, ty);
        },
        None => write_return_type(out, ty),
    }
}

/// Writes an argument at the boundary.
pub fn write_extern_arg(out: &mut OutFile, arg: &Var, types: &Types)
    requires
        arg.ty.printable(),
    ensures
        final(out)@ == old(out)@.write(extern_arg_text(*arg, *types)),
        final(out).includes == old(out).includes,
{
    assert(base(out@));
    match &arg.ty {
        Type::RustBox(ty) | Type::UniquePtr(ty) => {
            write_type_space(out, &ty.inner);
            out.write_str("*");
        },
        Type::Str(_) => out.write_str("::rust::Str::Repr "),
        _ => write_type_space(out, &arg.ty),
    }
    if types.needs_indirect_abi(&arg.ty) {
        out.write_str("*");
    }
    out.write_str(arg.ident.text.as_str());
}

}
