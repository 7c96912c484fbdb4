//! Structs, and the comments above them.

use vstd::prelude::*;

use crate::name::Name;
use crate::out::{base, group_write, law_write_in_parts, lemma_write_nothing, OutFile};
use crate::syntax::{all_printable, Doc, Struct, Var};
use crate::text::{concat, lemma_concat_take, lines, split_lines, views};
use crate::write::types::{type_space_text, write_type_space};

verus! {

broadcast use group_write;

/// A documentation comment, line by line.
pub open spec fn doc_lines(doc: Seq<char>) -> Seq<Seq<char>> {
    lines(doc).map_values(|line: Seq<char>| "//"@ + line + "\n"@)
}

/// A field of a struct.
pub open spec fn field_text(field: Var) -> Seq<char> {
    "  "@ + type_space_text(field.ty) + field.ident@ + ";\n"@
}

/// A struct in C++.
pub open spec fn struct_text(strct: Struct) -> Seq<char> {
    concat(doc_lines(strct.doc@)) + "struct "@ + strct.ident@ + " final {\n"@ + concat(
        strct.fields@.map_values(|field: Var| field_text(field)),
    ) + "};\n"@
}

/// The declaration of a struct.
pub open spec fn struct_decl_text(ident: Seq<char>) -> Seq<char> {
    "struct "@ + ident + ";\n"@
}

/// The alias by which a type of C++ is known to the bridge.
pub open spec fn struct_using_text(ident: Seq<char>) -> Seq<char> {
    "using "@ + ident + " = "@ + ident + ";\n"@
}

/// Writes a documentation comment.
pub(crate) fn write_doc(out: &mut OutFile, doc: &Doc)
    ensures
        final(out)@ == old(out)@.write(concat(doc_lines(doc@))),
        final(out).includes == old(out).includes,
{
    let lines: Vec<String> = split_lines(doc.to_string().as_str());
    let ghost start = out@;
    let ghost parts = doc_lines(doc@);
    let mut i: usize = 0;
    proof {
        lemma_write_nothing(start);
    }
    while i < lines.len()
        invariant
            i <= lines.len(),
            parts == doc_lines(doc@),
            views(lines@) == crate::text::lines(doc@),
            out@ == start.write(concat(parts.take(i as int))),
            out.includes == old(out).includes,
        decreases lines.len() - i,
    {
        let ghost before = out@;
        assert(base(before));
        out.write_str("//");
        out.write_str(lines[i].as_str());
        out.write_str("\n");
        proof {
            assert(views(lines@)[i as int] == lines@[i as int]@);
            assert(out@ == before.write(parts[i as int]));
            law_write_in_parts(start, concat(parts.take(i as int)), parts[i as int]);
            lemma_concat_take(parts, i as int);
        }
        i += 1;
    }
    proof {
        assert(parts.len() == lines@.len());
        assert(parts.take(i as int) =~= parts);
    }
}

/// Writes the fields of a struct.
fn write_fields(out: &mut OutFile, fields: &Vec<Var>)
    requires
        all_printable(fields@),
    ensures
        final(out)@ == old(out)@.write(
            concat(fields@.map_values(|field: Var| field_text(field))),
        ),
        final(out).includes == old(out).includes,
{
    let ghost start = out@;
    let ghost parts = fields@.map_values(|field: Var| field_text(field));
    let mut i: usize = 0;
    proof {
        lemma_write_nothing(start);
    }
    while i < fields.len()
        invariant
            i <= fields.len(),
            all_printable(fields@),
            parts == fields@.map_values(|field: Var| field_text(field)),
            out@ == start.write(concat(parts.take(i as int))),
            out.includes == old(out).includes,
        decreases fields.len() - i,
    {
        let field = &fields[i];
        let ghost before = out@;
        assert(base(before));
        out.write_str("  ");
        write_type_space(out, &field.ty);
        out.write_str(field.ident.text.as_str());
        out.write_str(";\n");
        proof {
            assert(out@ == before.write(parts[i as int]));
            law_write_in_parts(start, concat(parts.take(i as int)), parts[i as int]);
            lemma_concat_take(parts, i as int);
        }
        i += 1;
    }
    proof {
        assert(parts.take(i as int) =~= parts);
    }
}

/// Writes a struct.
pub fn write_struct(out: &mut OutFile, strct: &Struct)
    requires
        strct.printable(),
    ensures
        final(out)@ == old(out)@.write(struct_text(*strct)),
        final(out).includes == old(out).includes,
{
    assert(base(out@));
    write_doc(out, &strct.doc);
    out.write_str("struct ");
    out.write_str(strct.ident.text.as_str());
    out.write_str(" final {\n");
    write_fields(out, &strct.fields);
    out.write_str("};\n");
}

/// Writes the declaration of a struct.
pub fn write_struct_decl(out: &mut OutFile, ident: &Name)
    ensures
        final(out)@ == old(out)@.write(struct_decl_text(ident@)),
        final(out).includes == old(out).includes,
{
    assert(base(out@));
    out.write_str("struct ");
    out.write_str(ident.text.as_str());
    out.write_str(";\n");
}

/// Writes the alias by which a type of C++ is known to the bridge.
pub fn write_struct_using(out: &mut OutFile, ident: &Name)
    ensures
        final(out)@ == old(out)@.write(struct_using_text(ident@)),
        final(out).includes == old(out).includes,
{
    assert(base(out@));
    out.write_str("using ");
    out.write_str(ident.text.as_str());
    out.write_str(" = ");
    out.write_str(ident.text.as_str());
    out.write_str(";\n");
}

}
