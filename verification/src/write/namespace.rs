//! Namespaces, and the names that are made with them.

use vstd::prelude::*;

use crate::name::Name;
use crate::out::{base, group_write, law_write_in_parts, lemma_write_nothing, OutFile};
use crate::text::{concat, dollars_for_colons, lemma_concat_take, views};

verus! {

broadcast use group_write;

/// The segments of a namespace, a `$` after each.
pub open spec fn link_prefix(namespace: Seq<Seq<char>>) -> Seq<char> {
    concat(namespace.map_values(|name: Seq<char>| name + "$"@))
}

/// The name by which the linker knows a function of the bridge.
pub open spec fn link_name(namespace: Seq<Seq<char>>, ident: Seq<char>) -> Seq<char> {
    link_prefix(namespace) + "cxxbridge02$"@ + ident
}

/// The name of a type with its namespace.
pub open spec fn qualified_name(namespace: Seq<Seq<char>>, ident: Seq<char>) -> Seq<char> {
    concat(namespace.map_values(|name: Seq<char>| name + "::"@)) + ident
}

/// The name of a type with its namespace, as a part of other names.
pub open spec fn instance_name(namespace: Seq<Seq<char>>, ident: Seq<char>) -> Seq<char> {
    dollars_for_colons(qualified_name(namespace, ident))
}

/// The line that opens a namespace.
pub open spec fn namespace_start_text(name: Seq<char>) -> Seq<char> {
    "namespace "@ + name + " {\n"@
}

/// The line that closes a namespace.
pub open spec fn namespace_end_text(name: Seq<char>) -> Seq<char> {
    "} // namespace "@ + name + "\n"@
}

/// Writes the segments of the namespace, a `$` after each.
fn write_link_prefix(out: &mut OutFile)
    ensures
        final(out)@ == old(out)@.write(link_prefix(old(out)@.namespace)),
        final(out).includes == old(out).includes,
{
    let ghost start = out@;
    let ghost parts = start.namespace.map_values(|name: Seq<char>| name + "$"@);
    let mut i: usize = 0;
    proof {
        lemma_write_nothing(start);
    }
    while i < out.namespace.len()
        invariant
            i <= out.namespace.len(),
            out@.namespace == start.namespace,
            parts == start.namespace.map_values(|name: Seq<char>| name + "$"@),
            out@ == start.write(concat(parts.take(i as int))),
            out.includes == old(out).includes,
        decreases out.namespace.len() - i,
    {
        let name = out.namespace[i].clone();
        let ghost before = out@;
        assert(base(before));
        out.write_str(name.as_str());
        out.write_str("$");
        proof {
            assert(name@ == start.namespace[i as int]);
            assert(out@ == before.write(parts[i as int]));
            law_write_in_parts(start, concat(parts.take(i as int)), parts[i as int]);
            lemma_concat_take(parts, i as int);
        }
        i += 1;
    }
    proof {
        assert(parts.take(i as int) =~= parts);
    }
}

/// Writes the name by which the linker knows a function of the bridge.
pub(crate) fn write_link_name(out: &mut OutFile, ident: &Name)
    ensures
        final(out)@ == old(out)@.write(link_name(old(out)@.namespace, ident@)),
        final(out).includes == old(out).includes,
{
    assert(base(out@));
    write_link_prefix(out);
    out.write_str("cxxbridge02$");
    out.write_str(ident.text.as_str());
}

/// The name of a type with its namespace.
pub(crate) fn qualify(namespace: &Vec<String>, ident: &Name) -> (inner: String)
    ensures
        inner@ == qualified_name(views(namespace@), ident@),
{
    let mut inner = String::new();
    let ghost names = views(namespace@);
    let ghost parts = names.map_values(|name: Seq<char>| name + "::"@);
    let mut i: usize = 0;
    while i < namespace.len()
        invariant
            i <= namespace.len(),
            names == views(namespace@),
            parts == names.map_values(|name: Seq<char>| name + "::"@),
            inner@ == concat(parts.take(i as int)),
        decreases namespace.len() - i,
    {
        let ghost before = inner@;
        inner.append(namespace[i].as_str());
        inner.append("::");
        proof {
            assert(names[i as int] == namespace@[i as int]@);
            assert(inner@ =~= before + parts[i as int]);
            lemma_concat_take(parts, i as int);
        }
        i += 1;
    }
    proof {
        assert(parts.take(i as int) =~= parts);
    }
    inner.append(ident.text.as_str());
    inner
}

/// Writes the line that opens a namespace.
pub(crate) fn write_namespace_start(out: &mut OutFile, name: &str)
    ensures
        final(out)@ == old(out)@.write(namespace_start_text(name@)),
        final(out).includes == old(out).includes,
{
    assert(base(out@));
    out.write_str("namespace ");
    out.write_str(name);
    out.write_str(" {\n");
}

/// Writes the line that closes a namespace.
pub(crate) fn write_namespace_end(out: &mut OutFile, name: &str)
    ensures
        final(out)@ == old(out)@.write(namespace_end_text(name@)),
        final(out).includes == old(out).includes,
{
    assert(base(out@));
    out.write_str("} // namespace ");
    out.write_str(name);
    out.write_str("\n");
}

}
