//! The runtime: what a file needs of it, and which headers.

use vstd::prelude::*;

use crate::includes::IncludesView;
use crate::layout::{lemma_sections_push, sections};
use crate::out::{close, open, pieces_if, section, text, Piece};
use crate::spelling::{
    law_atoms_are_named, law_only_strings_are_indirect_besides,
    law_struct_is_indirect_unless_copy,
};
use crate::syntax::{Api, Atom, Derive, Type, Types};
use crate::text::concat;
use crate::write::bridge::{
    gives_something_away, has_atom, has_integer, header_section_pieces, includes_for_runtime,
    includes_for_types, is_integer, needs_of, runtime_pieces, takes_string, Needs,
};
use crate::write::file_includes;
use crate::write::functions::gives_away;
use crate::write::templates::code_lines;

verus! {

/// Whether a type is a name, and which one.
pub open spec fn is_named(ty: Type, name: Seq<char>) -> bool {
    ty matches Type::Ident(ident) && ident@ == name
}

/// Whether a type is an integer of Rust.
pub open spec fn is_named_integer(ty: Type) -> bool {
    ||| is_named(ty, "u8"@) || is_named(ty, "u16"@) || is_named(ty, "u32"@) || is_named(ty, "u64"@)
    ||| is_named(ty, "i8"@) || is_named(ty, "i16"@) || is_named(ty, "i32"@) || is_named(ty, "i64"@)
    ||| is_named(ty, "usize"@) || is_named(ty, "isize"@)
}

proof fn lemma_named(ty: Type)
    ensures
        ty.atom() == Some(Atom::RustString) <==> is_named(ty, "String"@),
        ty.atom() == Some(Atom::CxxString) <==> is_named(ty, "CxxString"@),
        (ty.atom() matches Some(atom) && is_integer(atom)) <==> is_named_integer(ty),
{
    if let Type::Ident(ident) = ty {
        law_atoms_are_named(ident@);
    }
}

proof fn lemma_types_named(types: Seq<Type>)
    ensures
        has_atom(types, Atom::RustString) <==> exists|i: int|
            0 <= i < types.len() && is_named(#[trigger] types[i], "String"@),
        has_atom(types, Atom::CxxString) <==> exists|i: int|
            0 <= i < types.len() && is_named(#[trigger] types[i], "CxxString"@),
        has_integer(types) <==> exists|i: int|
            0 <= i < types.len() && is_named_integer(#[trigger] types[i]),
{
    assert forall|i: int| 0 <= i < types.len() implies {
        &&& (#[trigger] types[i]).atom() == Some(Atom::RustString) <==> is_named(
            types[i],
            "String"@,
        )
        &&& types[i].atom() == Some(Atom::CxxString) <==> is_named(types[i], "CxxString"@)
        &&& (types[i].atom() matches Some(atom) && is_integer(atom)) <==> is_named_integer(types[i])
    } by {
        lemma_named(types[i]);
    }
}

/// A file needs the part of the runtime for strings, string slices and boxes if and only if one is
/// among the types of the bridge.
pub proof fn law_needs_of_types(apis: Seq<Api>, types: Types, header: bool)
    ensures
        needs_of(apis, types, header).rust_string <==> exists|i: int|
            0 <= i < types.all@.len() && is_named(#[trigger] types.all@[i], "String"@),
        needs_of(apis, types, header).rust_str <==> exists|i: int|
            0 <= i < types.all@.len() && #[trigger] types.all@[i] is Str,
        needs_of(apis, types, header).rust_box <==> exists|i: int|
            0 <= i < types.all@.len() && #[trigger] types.all@[i] is RustBox,
{
    lemma_types_named(types.all@);
}

/// A header needs nothing of the runtime for its functions. A source file needs errors if and only
/// if a Rust function may fail, copies by bits if and only if a C++ function takes a Rust string by
/// value, the template for values that are given away if and only if a Rust function takes a
/// value, other than a Rust string, that goes behind a pointer, and the template for values that
/// are not there yet if and only if a Rust function returns a value that goes behind a pointer.
pub proof fn law_needs_of_functions(apis: Seq<Api>, types: Types)
    ensures
        !needs_of(apis, types, true).rust_error,
        !needs_of(apis, types, true).unsafe_bitcopy,
        !needs_of(apis, types, true).manually_drop,
        !needs_of(apis, types, true).maybe_uninit,
        needs_of(apis, types, false).rust_error <==> exists|i: int|
            0 <= i < apis.len() && (#[trigger] apis[i] matches Api::RustFunction(efn)
                && efn.throws),
        needs_of(apis, types, false).unsafe_bitcopy <==> exists|i: int, j: int|
            0 <= i < apis.len() && (#[trigger] apis[i] matches Api::CxxFunction(efn) && 0 <= j
                < efn.args@.len() && is_named(
                    (#[trigger] apis[i]->CxxFunction_0.args@[j]).ty,
                    "String"@,
                )),
        needs_of(apis, types, false).manually_drop <==> exists|i: int, j: int|
            0 <= i < apis.len() && (#[trigger] apis[i] matches Api::RustFunction(efn) && 0 <= j
                < efn.args@.len() && !is_named(
                    (#[trigger] apis[i]->RustFunction_0.args@[j]).ty,
                    "String"@,
                )
                && types.indirect(efn.args@[j].ty)),
        needs_of(apis, types, false).maybe_uninit <==> exists|i: int|
            0 <= i < apis.len() && (#[trigger] apis[i] matches Api::RustFunction(efn)
                && (efn.ret matches Some(ret) && types.indirect(ret))),
{
    assert forall|ty: Type| (#[trigger] ty.atom() == Some(Atom::RustString)) <==> is_named(
        ty,
        "String"@,
    ) by {
        lemma_named(ty);
    }
    if needs_of(apis, types, false).unsafe_bitcopy {
        let i = choose|i: int|
            0 <= i < apis.len() && ((#[trigger] apis[i]) matches Api::CxxFunction(efn)
                && takes_string(efn));
        let efn = apis[i]->CxxFunction_0;
        let j = choose|j: int|
            0 <= j < efn.args@.len() && (#[trigger] efn.args@[j]).ty.atom() == Some(
                Atom::RustString,
            );
        assert(is_named(apis[i]->CxxFunction_0.args@[j].ty, "String"@));
    }
    if needs_of(apis, types, false).manually_drop {
        let i = choose|i: int|
            0 <= i < apis.len() && ((#[trigger] apis[i]) matches Api::RustFunction(efn)
                && gives_something_away(efn, types));
        let efn = apis[i]->RustFunction_0;
        let j = choose|j: int|
            0 <= j < efn.args@.len() && gives_away(#[trigger] efn.args@[j], types);
        assert(!is_named(apis[i]->RustFunction_0.args@[j].ty, "String"@));
    }
    if exists|i: int, j: int|
        0 <= i < apis.len() && (#[trigger] apis[i] matches Api::CxxFunction(efn) && 0 <= j
            < efn.args@.len() && is_named(
                    (#[trigger] apis[i]->CxxFunction_0.args@[j]).ty,
                    "String"@,
                )) {
        let (i, j) = choose|i: int, j: int|
            0 <= i < apis.len() && (#[trigger] apis[i] matches Api::CxxFunction(efn) && 0 <= j
                < efn.args@.len() && is_named(
                    (#[trigger] apis[i]->CxxFunction_0.args@[j]).ty,
                    "String"@,
                ));
        assert(apis[i]->CxxFunction_0.args@[j].ty.atom() == Some(Atom::RustString));
        assert(takes_string(apis[i]->CxxFunction_0));
    }
    if exists|i: int, j: int|
        0 <= i < apis.len() && (#[trigger] apis[i] matches Api::RustFunction(efn) && 0 <= j
            < efn.args@.len() && !is_named(
                    (#[trigger] apis[i]->RustFunction_0.args@[j]).ty,
                    "String"@,
                )
            && types.indirect(efn.args@[j].ty)) {
        let (i, j) = choose|i: int, j: int|
            0 <= i < apis.len() && (#[trigger] apis[i] matches Api::RustFunction(efn) && 0 <= j
                < efn.args@.len() && !is_named(
                    (#[trigger] apis[i]->RustFunction_0.args@[j]).ty,
                    "String"@,
                )
                && types.indirect(efn.args@[j].ty));
        assert(gives_away(apis[i]->RustFunction_0.args@[j], types));
        assert(gives_something_away(apis[i]->RustFunction_0, types));
    }
}

/// A section of the runtime header, as a file repeats it.
pub open spec fn repeated(cxx: Seq<char>, guard: Seq<char>) -> Seq<char> {
    concat(code_lines(crate::cxx_header::section(cxx, guard).unwrap()))
}

/// `part` alone where it is needed, nothing otherwise.
pub open spec fn part_if(needed: bool, part: Seq<char>) -> Seq<Seq<char>> {
    if needed {
        seq![part]
    } else {
        Seq::empty()
    }
}

/// A section of the runtime header is repeated in a section of its own if it is needed, and leaves
/// no trace if it is not.
pub proof fn law_repeated_sections(cxx: Seq<char>, guard: Seq<char>)
    ensures
        header_section_pieces(cxx, true, guard) == section() + text(repeated(cxx, guard)),
        header_section_pieces(cxx, false, guard) == Seq::<Piece>::empty(),
{
}

/// What a file has of the runtime stands in the namespace of the runtime: a line that says where
/// it comes from, if anything is needed, and one section for each thing that is needed.
pub proof fn law_runtime_layout(cxx: Seq<char>, needs: Needs)
    ensures
        runtime_pieces(cxx, needs) == open("namespace rust"@) + open(
            "inline namespace cxxbridge02"@,
        ) + (if needs.rust_string || needs.rust_str || needs.rust_box || needs.rust_error
            || needs.unsafe_bitcopy || needs.manually_drop || needs.maybe_uninit {
            text("// #include \"rust/cxx.h\"\n"@)
        } else {
            Seq::empty()
        }) + sections(
            part_if(needs.rust_string, repeated(cxx, "CXXBRIDGE02_RUST_STRING"@)) + part_if(
                needs.rust_str,
                repeated(cxx, "CXXBRIDGE02_RUST_STR"@),
            ) + part_if(needs.rust_box, repeated(cxx, "CXXBRIDGE02_RUST_BOX"@)) + part_if(
                needs.rust_error,
                repeated(cxx, "CXXBRIDGE02_RUST_ERROR"@),
            ) + part_if(needs.unsafe_bitcopy, repeated(cxx, "CXXBRIDGE02_RUST_BITCOPY"@)) + part_if(
                needs.manually_drop,
                "template <typename T>\n"@ + "union ManuallyDrop {\n"@ + "  T value;\n"@
                    + "  ManuallyDrop(T &&value) : value(::std::move(value)) {}\n"@
                    + "  ~ManuallyDrop() {}\n"@ + "};\n"@,
            ) + part_if(
                needs.maybe_uninit,
                "template <typename T>\n"@ + "union MaybeUninit {\n"@ + "  T value;\n"@
                    + "  MaybeUninit() {}\n"@ + "  ~MaybeUninit() {}\n"@ + "};\n"@,
            ),
        ) + close("namespace cxxbridge02"@) + close("namespace rust"@),
{
    let manually_drop = "template <typename T>\n"@ + "union ManuallyDrop {\n"@ + "  T value;\n"@
        + "  ManuallyDrop(T &&value) : value(::std::move(value)) {}\n"@
        + "  ~ManuallyDrop() {}\n"@ + "};\n"@;
    let maybe_uninit = "template <typename T>\n"@ + "union MaybeUninit {\n"@ + "  T value;\n"@
        + "  MaybeUninit() {}\n"@ + "  ~MaybeUninit() {}\n"@ + "};\n"@;
    let start = open("namespace rust"@) + open("inline namespace cxxbridge02"@) + pieces_if(
        needs.any(),
        text("// #include \"rust/cxx.h\"\n"@),
    );
    let none = Seq::<Seq<char>>::empty();
    assert(sections(none) =~= Seq::<Piece>::empty());
    assert(start + sections(none) =~= start);
    let string = repeated(cxx, "CXXBRIDGE02_RUST_STRING"@);
    let str = repeated(cxx, "CXXBRIDGE02_RUST_STR"@);
    let boxes = repeated(cxx, "CXXBRIDGE02_RUST_BOX"@);
    let error = repeated(cxx, "CXXBRIDGE02_RUST_ERROR"@);
    let bitcopy = repeated(cxx, "CXXBRIDGE02_RUST_BITCOPY"@);
    let a = part_if(needs.rust_string, string);
    assert(none + a =~= a);
    lemma_one_more(start, none, needs.rust_string, string);
    let b = a + part_if(needs.rust_str, str);
    lemma_one_more(start, a, needs.rust_str, str);
    let c = b + part_if(needs.rust_box, boxes);
    lemma_one_more(start, b, needs.rust_box, boxes);
    let d = c + part_if(needs.rust_error, error);
    lemma_one_more(start, c, needs.rust_error, error);
    let e = d + part_if(needs.unsafe_bitcopy, bitcopy);
    lemma_one_more(start, d, needs.unsafe_bitcopy, bitcopy);
    let f = e + part_if(needs.manually_drop, manually_drop);
    lemma_one_more(start, e, needs.manually_drop, manually_drop);
    lemma_one_more(start, f, needs.maybe_uninit, maybe_uninit);
}

proof fn lemma_one_more(
    start: Seq<Piece>,
    parts: Seq<Seq<char>>,
    needed: bool,
    part: Seq<char>,
)
    ensures
        start + sections(parts) + pieces_if(needed, section() + text(part)) == start + sections(
            parts + part_if(needed, part),
        ),
{
    if needed {
        lemma_sections_push(parts, part);
        assert(parts + seq![part] =~= parts.push(part));
        assert(start + sections(parts) + (section() + text(part)) =~= start + (sections(parts) + (
        section() + text(part))));
    } else {
        assert(parts + Seq::<Seq<char>>::empty() =~= parts);
        assert(start + sections(parts) + Seq::<Piece>::empty() =~= start + sections(parts));
    }
}

/// A source file in which a Rust function returns a Rust string, or a struct of the bridge that
/// does not derive `Copy`, has the template of the local that the shim around the function
/// declares for that value.
pub proof fn law_template_for_returned_values(
    apis: Seq<Api>,
    types: Types,
    cxx: Seq<char>,
    i: int,
) -> (at: int)
    requires
        0 <= i < apis.len(),
        apis[i] matches Api::RustFunction(efn) && (efn.ret matches Some(Type::Ident(name)) && {
            ||| name@ == "String"@ && forall|j: int|
                0 <= j < types.structs@.len() ==> (#[trigger] types.structs@[j]).ident@ != name@
            ||| exists|j: int|
                {
                    &&& 0 <= j < types.structs@.len()
                    &&& (#[trigger] types.structs@[j]).ident@ == name@
                    &&& !types.structs@[j].derives@.contains(Derive::Copy)
                    &&& forall|k: int|
                        0 <= k < j ==> (#[trigger] types.structs@[k]).ident@ != name@
                }
        }),
    ensures
        0 <= at < runtime_pieces(cxx, needs_of(apis, types, false)).len() - 1,
        runtime_pieces(cxx, needs_of(apis, types, false))[at] == Piece::Section,
        runtime_pieces(cxx, needs_of(apis, types, false))[at + 1] == Piece::Text(
            "template <typename T>\n"@ + "union MaybeUninit {\n"@ + "  T value;\n"@
                + "  MaybeUninit() {}\n"@ + "  ~MaybeUninit() {}\n"@ + "};\n"@,
        ),
{
    let ret = apis[i]->RustFunction_0.ret->0;
    let name = ret->Ident_0;
    if name@ == "String"@ && forall|j: int|
        0 <= j < types.structs@.len() ==> (#[trigger] types.structs@[j]).ident@ != name@ {
        law_only_strings_are_indirect_besides(types, ret);
    } else {
        let j = choose|j: int|
            {
                &&& 0 <= j < types.structs@.len()
                &&& (#[trigger] types.structs@[j]).ident@ == name@
                &&& !types.structs@[j].derives@.contains(Derive::Copy)
                &&& forall|k: int| 0 <= k < j ==> (#[trigger] types.structs@[k]).ident@ != name@
            };
        law_struct_is_indirect_unless_copy(types, name, j);
        let derives = types.structs@[j].derives@;
        assert forall|k: int|
            0 <= k < derives.len() implies #[trigger] types.structs@[j].derives@[k]
            != Derive::Copy by {
            assert(derives.contains(derives[k]));
        }
    }
    assert(types.indirect(ret));
    law_needs_of_functions(apis, types);
    let needs = needs_of(apis, types, false);
    assert(apis[i] matches Api::RustFunction(efn) && (efn.ret matches Some(ret) && types.indirect(
        ret,
    )));
    assert(needs.maybe_uninit);
    let pieces = runtime_pieces(cxx, needs);
    let at = pieces.len() - 4;
    assert(pieces[at] == Piece::Section);
    at
}

/// Types ask for headers by themselves: integers for `cstdint`, a C++ string for `string`, a box
/// for `type_traits`, a unique pointer for `memory`, and nothing else for anything. What was asked
/// for before stays.
pub proof fn law_headers_for_types(includes: IncludesView, types: Seq<Type>)
    ensures
        ({
            let after = includes_for_types(includes, types);
            &&& after.cstdint <==> includes.cstdint || exists|i: int|
                0 <= i < types.len() && is_named_integer(#[trigger] types[i])
            &&& after.string <==> includes.string || exists|i: int|
                0 <= i < types.len() && is_named(#[trigger] types[i], "CxxString"@)
            &&& after.type_traits <==> includes.type_traits || exists|i: int|
                0 <= i < types.len() && #[trigger] types[i] is RustBox
            &&& after.memory <==> includes.memory || exists|i: int|
                0 <= i < types.len() && #[trigger] types[i] is UniquePtr
            &&& after.custom == includes.custom
            &&& after.array == includes.array
            &&& after.cstring == includes.cstring
            &&& after.exception == includes.exception
        }),
{
    lemma_types_named(types);
}

/// What a file has of the runtime asks for the headers that it uses: strings for `array`,
/// `cstdint` and `string`, string slices for the latter two, boxes for `type_traits`, errors for
/// `exception`. What was asked for before stays.
pub proof fn law_headers_for_runtime(includes: IncludesView, needs: Needs)
    ensures
        ({
            let after = includes_for_runtime(includes, needs);
            &&& after.array <==> includes.array || needs.rust_string
            &&& after.cstdint <==> includes.cstdint || needs.rust_string || needs.rust_str
            &&& after.string <==> includes.string || needs.rust_string || needs.rust_str
            &&& after.type_traits <==> includes.type_traits || needs.rust_box
            &&& after.exception <==> includes.exception || needs.rust_error
            &&& after.custom == includes.custom
            &&& after.cstring == includes.cstring
            &&& after.memory == includes.memory
        }),
{
}

/// A file asks for a header of the standard library if and only if a type of the bridge, an error
/// that a Rust function returns or an exception that a C++ function throws needs it; functions
/// count in a source file only.
pub proof fn law_headers_of_a_file(apis: Seq<Api>, types: Types, header: bool)
    ensures
        ({
            let asked = file_includes(apis, types, header);
            &&& asked.array <==> exists|i: int|
                0 <= i < types.all@.len() && is_named(#[trigger] types.all@[i], "String"@)
            &&& asked.cstdint <==> exists|i: int|
                0 <= i < types.all@.len() && {
                    ||| is_named_integer(#[trigger] types.all@[i])
                    ||| is_named(types.all@[i], "String"@)
                    ||| types.all@[i] is Str
                }
            &&& asked.string <==> exists|i: int|
                0 <= i < types.all@.len() && {
                    ||| is_named(#[trigger] types.all@[i], "CxxString"@)
                    ||| is_named(types.all@[i], "String"@)
                    ||| types.all@[i] is Str
                }
            &&& asked.memory <==> exists|i: int|
                0 <= i < types.all@.len() && #[trigger] types.all@[i] is UniquePtr
            &&& asked.type_traits <==> exists|i: int|
                0 <= i < types.all@.len() && #[trigger] types.all@[i] is RustBox
            &&& asked.cstring <==> !header && exists|i: int|
                0 <= i < apis.len() && (#[trigger] apis[i] matches Api::CxxFunction(efn)
                    && efn.throws)
            &&& asked.exception <==> !header && exists|i: int|
                0 <= i < apis.len() && (#[trigger] apis[i] matches Api::RustFunction(efn)
                    && efn.throws)
        }),
{
    lemma_types_named(types.all@);
}

}
