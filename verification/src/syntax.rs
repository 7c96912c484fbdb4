//! The items of a bridge between Rust and C++, as the generator reads them.

use vstd::prelude::*;

use crate::name::Name;
use crate::text::same;

verus! {

/// A type that both languages know by itself.
#[derive(Clone, Copy, Debug, PartialEq, Eq, Structural)]
pub enum Atom {
    Bool,
    U8,
    U16,
    U32,
    U64,
    Usize,
    I8,
    I16,
    I32,
    I64,
    Isize,
    F32,
    F64,
    CxxString,
    RustString,
}

/// The atom that an identifier stands for.
pub open spec fn atom_of(text: Seq<char>) -> Option<Atom> {
    if text == "bool"@ {
        Some(Atom::Bool)
    } else if text == "u8"@ {
        Some(Atom::U8)
    } else if text == "u16"@ {
        Some(Atom::U16)
    } else if text == "u32"@ {
        Some(Atom::U32)
    } else if text == "u64"@ {
        Some(Atom::U64)
    } else if text == "usize"@ {
        Some(Atom::Usize)
    } else if text == "i8"@ {
        Some(Atom::I8)
    } else if text == "i16"@ {
        Some(Atom::I16)
    } else if text == "i32"@ {
        Some(Atom::I32)
    } else if text == "i64"@ {
        Some(Atom::I64)
    } else if text == "isize"@ {
        Some(Atom::Isize)
    } else if text == "f32"@ {
        Some(Atom::F32)
    } else if text == "f64"@ {
        Some(Atom::F64)
    } else if text == "CxxString"@ {
        Some(Atom::CxxString)
    } else if text == "String"@ {
        Some(Atom::RustString)
    } else {
        None
    }
}

impl Atom {
    /// The atom that an identifier stands for, if it stands for one.
    pub fn from(ident: &Name) -> (atom: Option<Atom>)
        ensures
            atom == atom_of(ident@),
    {
        let text = ident.text.as_str();
        if same(text, "bool") {
            Some(Atom::Bool)
        } else if same(text, "u8") {
            Some(Atom::U8)
        } else if same(text, "u16") {
            Some(Atom::U16)
        } else if same(text, "u32") {
            Some(Atom::U32)
        } else if same(text, "u64") {
            Some(Atom::U64)
        } else if same(text, "usize") {
            Some(Atom::Usize)
        } else if same(text, "i8") {
            Some(Atom::I8)
        } else if same(text, "i16") {
            Some(Atom::I16)
        } else if same(text, "i32") {
            Some(Atom::I32)
        } else if same(text, "i64") {
            Some(Atom::I64)
        } else if same(text, "isize") {
            Some(Atom::Isize)
        } else if same(text, "f32") {
            Some(Atom::F32)
        } else if same(text, "f64") {
            Some(Atom::F64)
        } else if same(text, "CxxString") {
            Some(Atom::CxxString)
        } else if same(text, "String") {
            Some(Atom::RustString)
        } else {
            None
        }
    }
}

/// A type in a signature or a field.
#[derive(Debug)]
pub enum Type {
    /// An atom, a struct of the bridge or an opaque type.
    Ident(Name),
    /// `Box<T>`.
    RustBox(Box<Ty1>),
    /// `UniquePtr<T>`.
    UniquePtr(Box<Ty1>),
    /// `&T` or `&mut T`.
    Ref(Box<Ref>),
    /// `&str`.
    Str(Box<Ref>),
    /// `()`, which has no spelling of its own in a C++ signature.
    Void,
}

/// A generic type with one argument.
#[derive(Debug)]
pub struct Ty1 {
    pub name: Name,
    pub inner: Type,
}

/// A reference.
#[derive(Debug)]
pub struct Ref {
    pub mutable: bool,
    pub inner: Type,
}

impl Type {
    /// The atom that the type is, if it is one.
    pub open spec fn atom(self) -> Option<Atom> {
        match self {
            Type::Ident(ident) => atom_of(ident@),
            _ => None,
        }
    }

    /// Whether the type can be written in C++: it has no `Void` where a type has to be spelled.
    pub open spec fn printable(self) -> bool
        decreases self,
    {
        match self {
            Type::Ident(_) => true,
            Type::RustBox(ty) => ty.inner.printable(),
            Type::UniquePtr(ptr) => ptr.inner.printable(),
            Type::Ref(r) => r.inner.printable(),
            Type::Str(_) => true,
            Type::Void => false,
        }
    }

    /// Whether the type is the given atom.
    pub fn is(&self, atom: Atom) -> (res: bool)
        ensures
            res == (self.atom() == Some(atom)),
    {
        match self {
            Type::Ident(ident) => match Atom::from(ident) {
                Some(own) => own == atom,
                None => false,
            },
            _ => false,
        }
    }
}

/// A documentation comment, one fragment per `///` line.
#[derive(Debug)]
pub struct Doc {
    pub fragments: Vec<String>,
}

/// The text of a documentation comment: its fragments, a line feed after each.
pub open spec fn doc_string(fragments: Seq<String>) -> Seq<char>
    decreases fragments.len(),
{
    if fragments.len() == 0 {
        Seq::empty()
    } else {
        doc_string(fragments.drop_last()) + fragments.last()@ + "\n"@
    }
}

impl View for Doc {
    type V = Seq<char>;

    open spec fn view(&self) -> Seq<char> {
        doc_string(self.fragments@)
    }
}

impl Doc {
    /// The text of the comment.
    pub fn to_string(&self) -> (res: String)
        ensures
            res@ == self@,
    {
        let mut res = String::new();
        let mut i: usize = 0;
        while i < self.fragments.len()
            invariant
                i <= self.fragments.len(),
                res@ == doc_string(self.fragments@.take(i as int)),
            decreases self.fragments.len() - i,
        {
            res.append(self.fragments[i].as_str());
            res.append("\n");
            i += 1;
            proof {
                assert(self.fragments@.take(i as int).drop_last() =~= self.fragments@.take(i - 1));
            }
        }
        proof {
            assert(self.fragments@.take(i as int) =~= self.fragments@);
        }
        res
    }
}

/// An argument or a field.
#[derive(Debug)]
pub struct Var {
    pub ident: Name,
    pub ty: Type,
}

/// A trait that a struct of the bridge derives.
#[derive(Clone, Copy, Debug, PartialEq, Eq, Structural)]
pub enum Derive {
    Clone,
    Copy,
}

/// A struct whose fields both languages see.
#[derive(Debug)]
pub struct Struct {
    pub doc: Doc,
    pub derives: Vec<Derive>,
    pub ident: Name,
    pub fields: Vec<Var>,
}

/// A type that one language owns and the other sees behind a pointer only.
#[derive(Debug)]
pub struct ExternType {
    pub doc: Doc,
    pub ident: Name,
}

/// A function that one language defines and the other calls.
#[derive(Debug)]
pub struct ExternFn {
    pub doc: Doc,
    pub ident: Name,
    pub args: Vec<Var>,
    pub ret: Option<Type>,
    pub throws: bool,
}

/// Whether every type in a list of arguments or fields can be written in C++.
pub open spec fn all_printable(vars: Seq<Var>) -> bool {
    forall|i: int| 0 <= i < vars.len() ==> (#[trigger] vars[i]).ty.printable()
}

impl Struct {
    /// Whether the types of all fields can be written in C++.
    pub open spec fn printable(self) -> bool {
        all_printable(self.fields@)
    }
}

impl ExternFn {
    /// Whether the types of all arguments and of the value can be written in C++.
    pub open spec fn printable(self) -> bool {
        &&& all_printable(self.args@)
        &&& self.ret matches Some(ret) ==> ret.printable()
    }
}

/// One item of a bridge.
#[derive(Debug)]
pub enum Api {
    /// A C++ header that the generated code needs.
    Include(String),
    Struct(Struct),
    CxxType(ExternType),
    CxxFunction(ExternFn),
    RustType(ExternType),
    RustFunction(ExternFn),
}

/// The types of a bridge.
#[derive(Debug)]
pub struct Types {
    /// Every type that occurs, in the order of its first occurrence.
    pub all: Vec<Type>,
    /// The structs that both languages see.
    pub structs: Vec<Struct>,
}

/// The first of `structs` with the given name.
pub open spec fn struct_named(structs: Seq<Struct>, name: Seq<char>) -> Option<Struct>
    decreases structs.len(),
{
    if structs.len() == 0 {
        None
    } else if structs[0].ident@ == name {
        Some(structs[0])
    } else {
        struct_named(structs.skip(1), name)
    }
}

impl Types {
    /// Whether a value of the type crosses the boundary behind a pointer to it: the value of a
    /// struct that is not `Copy`, or a `String`.
    pub open spec fn indirect(self, ty: Type) -> bool {
        match ty {
            Type::Ident(ident) => match struct_named(self.structs@, ident@) {
                Some(strct) => !strct.derives@.contains(Derive::Copy),
                None => atom_of(ident@) == Some(Atom::RustString),
            },
            _ => false,
        }
    }

    /// Whether a value of the type crosses the boundary behind a pointer to it.
    pub fn needs_indirect_abi(&self, ty: &Type) -> (res: bool)
        ensures
            res == self.indirect(*ty),
    {
        match ty {
            Type::Ident(ident) => {
                let mut i: usize = 0;
                proof {
                    assert(self.structs@.skip(0) =~= self.structs@);
                }
                while i < self.structs.len()
                    invariant
                        *ty == Type::Ident(*ident),
                        i <= self.structs.len(),
                        struct_named(self.structs@, ident@) == struct_named(
                            self.structs@.skip(i as int),
                            ident@,
                        ),
                    decreases self.structs.len() - i,
                {
                    let strct = &self.structs[i];
                    proof {
                        assert(self.structs@.skip(i as int).skip(1) =~= self.structs@.skip(i + 1));
                    }
                    if same(strct.ident.text.as_str(), ident.text.as_str()) {
                        return !is_pod(strct);
                    }
                    i += 1;
                }
                ty.is(Atom::RustString)
            },
            _ => false,
        }
    }
}

/// Whether the values of a struct may be copied as plain data.
pub fn is_pod(strct: &Struct) -> (res: bool)
    ensures
        res == strct.derives@.contains(Derive::Copy),
{
    let mut i: usize = 0;
    while i < strct.derives.len()
        invariant
            i <= strct.derives.len(),
            forall|j: int| 0 <= j < i ==> strct.derives@[j] != Derive::Copy,
        decreases strct.derives.len() - i,
    {
        if strct.derives[i] == Derive::Copy {
            return true;
        }
        i += 1;
    }
    false
}

}
