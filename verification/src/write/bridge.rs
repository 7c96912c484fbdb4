//! What a file needs around the items of a bridge: headers, the C++ runtime, instances.

use vstd::prelude::*;

use crate::cxx_header::CxxHeader;
use crate::includes::{Includes, IncludesView};
use crate::name::Name;
use crate::out::{
    base, close, group_emit, law_emit_in_groups, lemma_emit_nothing, open, pieces_if, section,
    text, OutFile, Piece,
};
use crate::syntax::{Api, Atom, ExternFn, Type, Types};
use crate::text::{concat, lemma_concat_take};
use crate::write::functions::gives_away;
use crate::write::templates::{
    code_lines, manually_drop_template, maybe_uninit_template, rust_box_extern_text,
    rust_box_impl_text, unique_ptr_text, write_code_lines, write_manually_drop_template,
    write_maybe_uninit_template, write_rust_box_extern, write_rust_box_impl, write_unique_ptr,
};

verus! {

broadcast use group_emit;

/// Whether an atom is an integer.
pub open spec fn is_integer(atom: Atom) -> bool {
    match atom {
        Atom::U8 | Atom::U16 | Atom::U32 | Atom::U64 | Atom::Usize => true,
        Atom::I8 | Atom::I16 | Atom::I32 | Atom::I64 | Atom::Isize => true,
        _ => false,
    }
}

/// Whether one of the types is an integer.
pub open spec fn has_integer(types: Seq<Type>) -> bool {
    exists|i: int|
        0 <= i < types.len() && ((#[trigger] types[i]).atom() matches Some(atom)
            && is_integer(atom))
}

/// Whether one of the types is the given atom.
pub open spec fn has_atom(types: Seq<Type>, atom: Atom) -> bool {
    exists|i: int| 0 <= i < types.len() && (#[trigger] types[i]).atom() == Some(atom)
}

/// Whether one of the types is a box.
pub open spec fn has_box(types: Seq<Type>) -> bool {
    exists|i: int| 0 <= i < types.len() && (#[trigger] types[i]) is RustBox
}

/// Whether one of the types is a unique pointer.
pub open spec fn has_unique_ptr(types: Seq<Type>) -> bool {
    exists|i: int| 0 <= i < types.len() && (#[trigger] types[i]) is UniquePtr
}

/// Whether one of the types is a string slice.
pub open spec fn has_str(types: Seq<Type>) -> bool {
    exists|i: int| 0 <= i < types.len() && (#[trigger] types[i]) is Str
}

/// The headers that the types of a bridge need by themselves, on top of others.
pub open spec fn includes_for_types(includes: IncludesView, types: Seq<Type>) -> IncludesView {
    IncludesView {
        cstdint: includes.cstdint || has_integer(types),
        memory: includes.memory || has_unique_ptr(types),
        string: includes.string || has_atom(types, Atom::CxxString),
        type_traits: includes.type_traits || has_box(types),
        ..includes
    }
}

/// Asks for the headers that the types of a bridge need by themselves.
pub fn write_includes(out: &mut OutFile, types: &Types)
    ensures
        final(out)@ == old(out)@,
        final(out).includes@ == includes_for_types(old(out).includes@, types.all@),
{
    let mut i: usize = 0;
    while i < types.all.len()
        invariant
            i <= types.all.len(),
            out@ == old(out)@,
            out.includes.custom == old(out).includes.custom,
            out.includes.array == old(out).includes.array,
            out.includes.cstring == old(out).includes.cstring,
            out.includes.exception == old(out).includes.exception,
            out.includes.cstdint == (old(out).includes.cstdint || exists|j: int|
                0 <= j < i && ((#[trigger] types.all@[j]).atom() matches Some(atom) && is_integer(
                    atom,
                ))),
            out.includes.memory == (old(out).includes.memory || exists|j: int|
                0 <= j < i && (#[trigger] types.all@[j]) is UniquePtr),
            out.includes.string == (old(out).includes.string || exists|j: int|
                0 <= j < i && (#[trigger] types.all@[j]).atom() == Some(Atom::CxxString)),
            out.includes.type_traits == (old(out).includes.type_traits || exists|j: int|
                0 <= j < i && (#[trigger] types.all@[j]) is RustBox),
        decreases types.all.len() - i,
    {
        match &types.all[i] {
            Type::Ident(ident) => match Atom::from(ident) {
                Some(Atom::U8) | Some(Atom::U16) | Some(Atom::U32) | Some(Atom::U64)
                | Some(Atom::Usize) | Some(Atom::I8) | Some(Atom::I16) | Some(Atom::I32)
                | Some(Atom::I64) | Some(Atom::Isize) => {
                    out.includes.cstdint = true;
                },
                Some(Atom::CxxString) => {
                    out.includes.string = true;
                },
                Some(Atom::Bool) | Some(Atom::F32) | Some(Atom::F64) | Some(Atom::RustString)
                | None => {},
            },
            Type::RustBox(_) => {
                out.includes.type_traits = true;
            },
            Type::UniquePtr(_) => {
                out.includes.memory = true;
            },
            _ => {},
        }
        i += 1;
    }
}

/// What a file needs of the C++ runtime.
#[derive(Clone, Copy, Debug, PartialEq, Eq, Structural)]
pub struct Needs {
    pub rust_string: bool,
    pub rust_str: bool,
    pub rust_box: bool,
    pub rust_error: bool,
    pub unsafe_bitcopy: bool,
    pub manually_drop: bool,
    pub maybe_uninit: bool,
}

impl Needs {
    /// Whether anything of the runtime is needed.
    pub open spec fn any(self) -> bool {
        self.rust_string || self.rust_str || self.rust_box || self.rust_error
            || self.unsafe_bitcopy || self.manually_drop || self.maybe_uninit
    }

    /// Whether a header has the sections that are needed.
    pub open spec fn met_by(self, cxx: Seq<char>) -> bool {
        &&& self.rust_string ==> crate::cxx_header::section(cxx, "CXXBRIDGE02_RUST_STRING"@) is Some
        &&& self.rust_str ==> crate::cxx_header::section(cxx, "CXXBRIDGE02_RUST_STR"@) is Some
        &&& self.rust_box ==> crate::cxx_header::section(cxx, "CXXBRIDGE02_RUST_BOX"@) is Some
        &&& self.rust_error ==> crate::cxx_header::section(cxx, "CXXBRIDGE02_RUST_ERROR"@) is Some
        &&& self.unsafe_bitcopy ==> crate::cxx_header::section(cxx, "CXXBRIDGE02_RUST_BITCOPY"@)
            is Some
    }
}

/// Whether a function takes a Rust string by value.
pub open spec fn takes_string(efn: ExternFn) -> bool {
    exists|j: int|
        0 <= j < efn.args@.len() && (#[trigger] efn.args@[j]).ty.atom() == Some(Atom::RustString)
}

/// Whether the shim around a function gives one of its arguments away.
pub open spec fn gives_something_away(efn: ExternFn, types: Types) -> bool {
    exists|j: int| 0 <= j < efn.args@.len() && gives_away(#[trigger] efn.args@[j], types)
}

/// Whether a function returns a value that crosses the boundary behind a pointer.
pub open spec fn returns_behind_pointer(efn: ExternFn, types: Types) -> bool {
    efn.ret matches Some(ret) && types.indirect(ret)
}

/// Whether a Rust function may fail.
pub open spec fn has_throwing_rust(apis: Seq<Api>) -> bool {
    exists|i: int|
        0 <= i < apis.len() && ((#[trigger] apis[i]) matches Api::RustFunction(efn) && efn.throws)
}

/// Whether a C++ function may fail.
pub open spec fn has_throwing_cxx(apis: Seq<Api>) -> bool {
    exists|i: int|
        0 <= i < apis.len() && ((#[trigger] apis[i]) matches Api::CxxFunction(efn) && efn.throws)
}

/// Whether a C++ function takes a Rust string by value.
pub open spec fn has_string_to_cxx(apis: Seq<Api>) -> bool {
    exists|i: int|
        0 <= i < apis.len() && ((#[trigger] apis[i]) matches Api::CxxFunction(efn) && takes_string(
            efn,
        ))
}

/// Whether the shim around a Rust function gives one of its arguments away.
pub open spec fn has_given_away(apis: Seq<Api>, types: Types) -> bool {
    exists|i: int|
        0 <= i < apis.len() && ((#[trigger] apis[i]) matches Api::RustFunction(efn)
            && gives_something_away(efn, types))
}

/// Whether a Rust function returns a value that crosses the boundary behind a pointer.
pub open spec fn has_indirect_return(apis: Seq<Api>, types: Types) -> bool {
    exists|i: int|
        0 <= i < apis.len() && ((#[trigger] apis[i]) matches Api::RustFunction(efn)
            && returns_behind_pointer(efn, types))
}

/// What a file needs of the C++ runtime. A header declares functions only, so that no function
/// adds to its needs.
pub open spec fn needs_of(apis: Seq<Api>, types: Types, header: bool) -> Needs {
    Needs {
        rust_string: has_atom(types.all@, Atom::RustString),
        rust_str: has_str(types.all@),
        rust_box: has_box(types.all@),
        rust_error: !header && has_throwing_rust(apis),
        unsafe_bitcopy: !header && has_string_to_cxx(apis),
        manually_drop: !header && has_given_away(apis, types),
        maybe_uninit: !header && has_indirect_return(apis, types),
    }
}

/// Whether a function takes a Rust string by value.
fn any_string_arg(efn: &ExternFn) -> (res: bool)
    ensures
        res == takes_string(*efn),
{
    let mut j: usize = 0;
    while j < efn.args.len()
        invariant
            j <= efn.args.len(),
            forall|k: int|
                0 <= k < j ==> (#[trigger] efn.args@[k]).ty.atom() != Some(Atom::RustString),
        decreases efn.args.len() - j,
    {
        if efn.args[j].ty.is(Atom::RustString) {
            return true;
        }
        j += 1;
    }
    false
}

/// Whether the shim around a function gives one of its arguments away.
fn any_given_away(efn: &ExternFn, types: &Types) -> (res: bool)
    ensures
        res == gives_something_away(*efn, *types),
{
    let mut j: usize = 0;
    while j < efn.args.len()
        invariant
            j <= efn.args.len(),
            forall|k: int| 0 <= k < j ==> !gives_away(#[trigger] efn.args@[k], *types),
        decreases efn.args.len() - j,
    {
        let arg = &efn.args[j];
        if !arg.ty.is(Atom::RustString) && types.needs_indirect_abi(&arg.ty) {
            return true;
        }
        j += 1;
    }
    false
}

/// What a file needs of the C++ runtime.
pub fn runtime_needs(apis: &[Api], types: &Types, header: bool) -> (needs: Needs)
    ensures
        needs == needs_of(apis@, *types, header),
{
    let mut needs = Needs {
        rust_string: false,
        rust_str: false,
        rust_box: false,
        rust_error: false,
        unsafe_bitcopy: false,
        manually_drop: false,
        maybe_uninit: false,
    };
    let mut i: usize = 0;
    while i < types.all.len()
        invariant
            i <= types.all.len(),
            needs == (Needs {
                rust_string: exists|j: int|
                    0 <= j < i && (#[trigger] types.all@[j]).atom() == Some(Atom::RustString),
                rust_str: exists|j: int| 0 <= j < i && (#[trigger] types.all@[j]) is Str,
                rust_box: exists|j: int| 0 <= j < i && (#[trigger] types.all@[j]) is RustBox,
                rust_error: false,
                unsafe_bitcopy: false,
                manually_drop: false,
                maybe_uninit: false,
            }),
        decreases types.all.len() - i,
    {
        let ty = &types.all[i];
        match ty {
            Type::RustBox(_) => {
                needs.rust_box = true;
            },
            Type::Str(_) => {
                needs.rust_str = true;
            },
            ty => if ty.is(Atom::RustString) {
                needs.rust_string = true;
            },
        }
        i += 1;
    }
    if header {
        return needs;
    }
    i = 0;
    while i < apis.len()
        invariant
            i <= apis.len(),
            needs == (Needs {
                rust_string: has_atom(types.all@, Atom::RustString),
                rust_str: has_str(types.all@),
                rust_box: has_box(types.all@),
                rust_error: exists|j: int|
                    0 <= j < i && ((#[trigger] apis@[j]) matches Api::RustFunction(efn)
                        && efn.throws),
                unsafe_bitcopy: exists|j: int|
                    0 <= j < i && ((#[trigger] apis@[j]) matches Api::CxxFunction(efn)
                        && takes_string(efn)),
                manually_drop: exists|j: int|
                    0 <= j < i && ((#[trigger] apis@[j]) matches Api::RustFunction(efn)
                        && gives_something_away(efn, *types)),
                maybe_uninit: exists|j: int|
                    0 <= j < i && ((#[trigger] apis@[j]) matches Api::RustFunction(efn)
                        && returns_behind_pointer(efn, *types)),
            }),
        decreases apis.len() - i,
    {
        match &apis[i] {
            Api::CxxFunction(efn) => {
                if any_string_arg(efn) {
                    needs.unsafe_bitcopy = true;
                }
            },
            Api::RustFunction(efn) => {
                if efn.throws {
                    needs.rust_error = true;
                }
                if any_given_away(efn, types) {
                    needs.manually_drop = true;
                }
                if let Some(ret) = &efn.ret {
                    if types.needs_indirect_abi(ret) {
                        needs.maybe_uninit = true;
                    }
                }
            },
            _ => {},
        }
        i += 1;
    }
    needs
}

/// A section of the runtime header, if it is needed.
pub open spec fn header_section_pieces(
    cxx: Seq<char>,
    needed: bool,
    guard: Seq<char>,
) -> Seq<Piece> {
    pieces_if(
        needed,
        section() + text(concat(code_lines(crate::cxx_header::section(cxx, guard).unwrap()))),
    )
}

/// The part of the C++ runtime that a file needs.
pub open spec fn runtime_pieces(cxx: Seq<char>, needs: Needs) -> Seq<Piece> {
    open("namespace rust"@) + open("inline namespace cxxbridge02"@)
        + pieces_if(needs.any(), text("// #include \"rust/cxx.h\"\n"@))
        + header_section_pieces(cxx, needs.rust_string, "CXXBRIDGE02_RUST_STRING"@)
        + header_section_pieces(cxx, needs.rust_str, "CXXBRIDGE02_RUST_STR"@)
        + header_section_pieces(cxx, needs.rust_box, "CXXBRIDGE02_RUST_BOX"@)
        + header_section_pieces(cxx, needs.rust_error, "CXXBRIDGE02_RUST_ERROR"@)
        + header_section_pieces(cxx, needs.unsafe_bitcopy, "CXXBRIDGE02_RUST_BITCOPY"@)
        + pieces_if(needs.manually_drop, section() + text(manually_drop_template()))
        + pieces_if(needs.maybe_uninit, section() + text(maybe_uninit_template()))
        + close("namespace cxxbridge02"@) + close("namespace rust"@)
}

/// The headers that the part of the C++ runtime in a file needs, on top of others.
pub open spec fn includes_for_runtime(includes: IncludesView, needs: Needs) -> IncludesView {
    IncludesView {
        array: includes.array || needs.rust_string,
        cstdint: includes.cstdint || needs.rust_str || needs.rust_string,
        exception: includes.exception || needs.rust_error,
        string: includes.string || needs.rust_str || needs.rust_string,
        type_traits: includes.type_traits || needs.rust_box,
        ..includes
    }
}

/// Writes a section of the runtime header, if it is needed.
pub fn write_header_section(out: &mut OutFile, needed: bool, section: &str, cxx: &CxxHeader)
    requires
        needed ==> crate::cxx_header::section(cxx@, section@) is Some,
    ensures
        final(out)@ == old(out)@.emit(header_section_pieces(cxx@, needed, section@)),
        final(out).includes == old(out).includes,
{
    if needed {
        assert(base(out@));
        out.next_section();
        write_code_lines(out, cxx.get(section).as_str());
    } else {
        proof {
            lemma_emit_nothing(out@);
        }
    }
}

/// Writes where the part of the C++ runtime that follows comes from.
fn write_runtime_origin(out: &mut OutFile, needed: bool)
    ensures
        final(out)@ == old(out)@.emit(
            pieces_if(needed, text("// #include \"rust/cxx.h\"\n"@)),
        ),
        final(out).includes == old(out).includes,
{
    if needed {
        out.write_str("// #include \"rust/cxx.h\"\n");
    } else {
        proof {
            lemma_emit_nothing(out@);
        }
    }
}

/// Writes the template of a value that is not dropped by itself, if it is needed.
fn write_manually_drop_section(out: &mut OutFile, needed: bool)
    ensures
        final(out)@ == old(out)@.emit(
            pieces_if(needed, section() + text(manually_drop_template())),
        ),
        final(out).includes == old(out).includes,
{
    if needed {
        assert(base(out@));
        out.next_section();
        write_manually_drop_template(out);
    } else {
        proof {
            lemma_emit_nothing(out@);
        }
    }
}

/// Writes the template of a value that is not there yet, if it is needed.
fn write_maybe_uninit_section(out: &mut OutFile, needed: bool)
    ensures
        final(out)@ == old(out)@.emit(
            pieces_if(needed, section() + text(maybe_uninit_template())),
        ),
        final(out).includes == old(out).includes,
{
    if needed {
        assert(base(out@));
        out.next_section();
        write_maybe_uninit_template(out);
    } else {
        proof {
            lemma_emit_nothing(out@);
        }
    }
}

/// Asks for the headers that the part of the C++ runtime in a file needs.
fn require_for_runtime(includes: &mut Includes, needs: Needs)
    ensures
        final(includes)@ == includes_for_runtime(old(includes)@, needs),
{
    if needs.rust_box {
        includes.type_traits = true;
    }
    if needs.rust_str {
        includes.cstdint = true;
        includes.string = true;
    }
    if needs.rust_string {
        includes.array = true;
        includes.cstdint = true;
        includes.string = true;
    }
    if needs.rust_error {
        includes.exception = true;
    }
}

/// Writes the part of the C++ runtime that a file needs.
fn write_runtime(out: &mut OutFile, cxx: &CxxHeader, needs: Needs)
    requires
        needs.met_by(cxx@),
    ensures
        final(out)@ == old(out)@.emit(runtime_pieces(cxx@, needs)),
        final(out).includes == old(out).includes,
{
    assert(base(out@));
    out.begin_block("namespace rust");
    out.begin_block("inline namespace cxxbridge02");
    write_runtime_origin(
        out,
        needs.rust_string || needs.rust_str || needs.rust_box || needs.rust_error
            || needs.unsafe_bitcopy || needs.manually_drop || needs.maybe_uninit,
    );
    write_header_section(out, needs.rust_string, "CXXBRIDGE02_RUST_STRING", cxx);
    write_header_section(out, needs.rust_str, "CXXBRIDGE02_RUST_STR", cxx);
    write_header_section(out, needs.rust_box, "CXXBRIDGE02_RUST_BOX", cxx);
    write_header_section(out, needs.rust_error, "CXXBRIDGE02_RUST_ERROR", cxx);
    write_header_section(out, needs.unsafe_bitcopy, "CXXBRIDGE02_RUST_BITCOPY", cxx);
    write_manually_drop_section(out, needs.manually_drop);
    write_maybe_uninit_section(out, needs.maybe_uninit);
    out.end_block("namespace cxxbridge02");
    out.end_block("namespace rust");
}

/// Writes the part of the C++ runtime that a file needs, and asks for the headers of that part.
pub fn write_include_cxxbridge(out: &mut OutFile, apis: &[Api], types: &Types, cxx: &CxxHeader)
    requires
        needs_of(apis@, *types, old(out)@.header).met_by(cxx@),
    ensures
        final(out)@ == old(out)@.emit(
            runtime_pieces(cxx@, needs_of(apis@, *types, old(out)@.header)),
        ),
        final(out).includes@ == includes_for_runtime(
            old(out).includes@,
            needs_of(apis@, *types, old(out)@.header),
        ),
{
    let needs = runtime_needs(apis, types, out.header);
    require_for_runtime(&mut out.includes, needs);
    write_runtime(out, cxx, needs);
}

/// The declaration of the function by which C++ hands an exception to Rust, if one may be thrown.
pub open spec fn exception_glue_pieces(apis: Seq<Api>) -> Seq<Piece> {
    pieces_if(
        has_throwing_cxx(apis),
        section() + text("const char *cxxbridge02$exception(const char *, size_t);"@),
    )
}

/// Writes the declaration of the function by which C++ hands an exception to Rust.
pub fn write_exception_glue(out: &mut OutFile, apis: &[Api])
    ensures
        final(out)@ == old(out)@.emit(exception_glue_pieces(apis@)),
        final(out).includes == old(out).includes,
{
    let mut has_cxx_throws = false;
    let mut i: usize = 0;
    while i < apis.len() && !has_cxx_throws
        invariant
            i <= apis.len(),
            has_cxx_throws == exists|j: int|
                0 <= j < i && ((#[trigger] apis@[j]) matches Api::CxxFunction(efn) && efn.throws),
        decreases apis.len() - i,
    {
        if let Api::CxxFunction(efn) = &apis[i] {
            if efn.throws {
                has_cxx_throws = true;
            }
        }
        i += 1;
    }
    if has_cxx_throws {
        assert(base(out@));
        out.next_section();
        out.write_str("const char *cxxbridge02$exception(const char *, size_t);");
    } else {
        proof {
            lemma_emit_nothing(out@);
        }
    }
}

/// What the linker has to know of one type.
pub open spec fn extern_instance_pieces(namespace: Seq<Seq<char>>, ty: Type) -> Seq<Piece> {
    match ty {
        Type::RustBox(ty) => match ty.inner {
            Type::Ident(inner) => section() + text(rust_box_extern_text(namespace, inner@)),
            _ => Seq::empty(),
        },
        Type::UniquePtr(ptr) => match ptr.inner {
            Type::Ident(inner) => pieces_if(
                crate::syntax::atom_of(inner@) is None,
                section() + text(unique_ptr_text(namespace, inner@)),
            ),
            _ => Seq::empty(),
        },
        _ => Seq::empty(),
    }
}

/// The methods of one type that leave their work to Rust.
pub open spec fn impl_instance_pieces(namespace: Seq<Seq<char>>, ty: Type) -> Seq<Piece> {
    match ty {
        Type::RustBox(ty) => match ty.inner {
            Type::Ident(inner) => text(rust_box_impl_text(namespace, inner@)),
            _ => Seq::empty(),
        },
        _ => Seq::empty(),
    }
}

/// The instances of the templates of the bridge that its types need.
pub open spec fn instantiation_pieces(namespace: Seq<Seq<char>>, types: Seq<Type>) -> Seq<Piece> {
    open("extern \"C\""@) + concat(
        types.map_values(|ty: Type| extern_instance_pieces(namespace, ty)),
    ) + close("extern \"C\""@) + open("namespace rust"@) + open("inline namespace cxxbridge02"@)
        + concat(types.map_values(|ty: Type| impl_instance_pieces(namespace, ty)))
        + close("namespace cxxbridge02"@) + close("namespace rust"@)
}

/// Whether a unique pointer to the named type has an instance of its own.
fn allow_unique_ptr(ident: &Name) -> (res: bool)
    ensures
        res == (crate::syntax::atom_of(ident@) is None),
{
    Atom::from(ident).is_none()
}

/// Writes what the linker has to know of one type.
fn write_extern_instance(out: &mut OutFile, ty: &Type)
    ensures
        final(out)@ == old(out)@.emit(extern_instance_pieces(old(out)@.namespace, *ty)),
        final(out).includes == old(out).includes,
{
    if let Type::RustBox(ty) = ty {
        if let Type::Ident(inner) = &ty.inner {
            assert(base(out@));
            out.next_section();
            write_rust_box_extern(out, inner);
            return;
        }
    } else if let Type::UniquePtr(ptr) = ty {
        if let Type::Ident(inner) = &ptr.inner {
            if allow_unique_ptr(inner) {
                assert(base(out@));
                out.next_section();
                write_unique_ptr(out, inner);
                return;
            }
        }
    }
    proof {
        lemma_emit_nothing(out@);
    }
}

/// Writes the methods of one type that leave their work to Rust.
fn write_impl_instance(out: &mut OutFile, ty: &Type)
    ensures
        final(out)@ == old(out)@.emit(impl_instance_pieces(old(out)@.namespace, *ty)),
        final(out).includes == old(out).includes,
{
    if let Type::RustBox(ty) = ty {
        if let Type::Ident(inner) = &ty.inner {
            write_rust_box_impl(out, inner);
            return;
        }
    }
    proof {
        lemma_emit_nothing(out@);
    }
}

/// Writes what the linker has to know of the types.
fn write_extern_instances(out: &mut OutFile, types: &Types)
    ensures
        final(out)@ == old(out)@.emit(
            concat(
                types.all@.map_values(
                    |ty: Type| extern_instance_pieces(old(out)@.namespace, ty),
                ),
            ),
        ),
        final(out).includes == old(out).includes,
{
    let ghost start = out@;
    let ghost parts = types.all@.map_values(
        |ty: Type| extern_instance_pieces(start.namespace, ty),
    );
    let mut i: usize = 0;
    proof {
        lemma_emit_nothing(start);
    }
    while i < types.all.len()
        invariant
            i <= types.all.len(),
            parts == types.all@.map_values(
                |ty: Type| extern_instance_pieces(start.namespace, ty),
            ),
            out@ == start.emit(concat(parts.take(i as int))),
            out.includes == old(out).includes,
        decreases types.all.len() - i,
    {
        write_extern_instance(out, &types.all[i]);
        proof {
            law_emit_in_groups(start, concat(parts.take(i as int)), parts[i as int]);
            lemma_concat_take(parts, i as int);
        }
        i += 1;
    }
    proof {
        assert(parts.take(i as int) =~= parts);
    }
}

/// Writes the methods of the types that leave their work to Rust.
fn write_impl_instances(out: &mut OutFile, types: &Types)
    ensures
        final(out)@ == old(out)@.emit(
            concat(
                types.all@.map_values(|ty: Type| impl_instance_pieces(old(out)@.namespace, ty)),
            ),
        ),
        final(out).includes == old(out).includes,
{
    let ghost start = out@;
    let ghost parts = types.all@.map_values(|ty: Type| impl_instance_pieces(start.namespace, ty));
    let mut i: usize = 0;
    proof {
        lemma_emit_nothing(start);
    }
    while i < types.all.len()
        invariant
            i <= types.all.len(),
            parts == types.all@.map_values(|ty: Type| impl_instance_pieces(start.namespace, ty)),
            out@ == start.emit(concat(parts.take(i as int))),
            out.includes == old(out).includes,
        decreases types.all.len() - i,
    {
        write_impl_instance(out, &types.all[i]);
        proof {
            law_emit_in_groups(start, concat(parts.take(i as int)), parts[i as int]);
            lemma_concat_take(parts, i as int);
        }
        i += 1;
    }
    proof {
        assert(parts.take(i as int) =~= parts);
    }
}

/// Writes the instances of the templates of the bridge that its types need.
pub fn write_generic_instantiations(out: &mut OutFile, types: &Types)
    ensures
        final(out)@ == old(out)@.emit(instantiation_pieces(old(out)@.namespace, types.all@)),
        final(out).includes == old(out).includes,
{
    assert(base(out@));
    out.begin_block("extern \"C\"");
    write_extern_instances(out, types);
    out.end_block("extern \"C\"");

    out.begin_block("namespace rust");
    out.begin_block("inline namespace cxxbridge02");
    write_impl_instances(out, types);
    out.end_block("namespace cxxbridge02");
    out.end_block("namespace rust");
}

}
