//! The C++ templates of the bridge, and their instances for the types of a bridge.

use vstd::prelude::*;

use crate::name::Name;
use crate::out::{base, group_write, law_write_in_parts, lemma_write_nothing, OutFile};
use crate::text::{
    comment, concat, is_comment, lemma_concat_take, lines, replace_colons, split_lines, text_if,
    views,
};
use crate::write::namespace::{instance_name, qualified_name, qualify};

verus! {

broadcast use group_write;

/// The declarations of what Rust does for a box, as the linker knows them.
pub open spec fn rust_box_extern_text(namespace: Seq<Seq<char>>, ident: Seq<char>) -> Seq<char> {
    let inner = qualified_name(namespace, ident);
    let instance = instance_name(namespace, ident);
    "#ifndef CXXBRIDGE02_RUST_BOX_"@ + instance + "\n"@
        + "#define CXXBRIDGE02_RUST_BOX_"@ + instance + "\n"@
        + "void cxxbridge02$box$"@ + instance + "$uninit(::rust::Box<"@ + inner
        + "> *ptr) noexcept;\n"@
        + "void cxxbridge02$box$"@ + instance + "$drop(::rust::Box<"@ + inner
        + "> *ptr) noexcept;\n"@
        + "#endif // CXXBRIDGE02_RUST_BOX_"@ + instance + "\n"@
}

/// The methods of a box that leave their work to Rust.
pub open spec fn rust_box_impl_text(namespace: Seq<Seq<char>>, ident: Seq<char>) -> Seq<char> {
    let inner = qualified_name(namespace, ident);
    let instance = instance_name(namespace, ident);
    "template <>\n"@ + "void Box<"@ + inner + ">::uninit() noexcept {\n"@
        + "  return cxxbridge02$box$"@ + instance + "$uninit(this);\n"@ + "}\n"@
        + "template <>\n"@ + "void Box<"@ + inner + ">::drop() noexcept {\n"@
        + "  return cxxbridge02$box$"@ + instance + "$drop(this);\n"@ + "}\n"@
}

/// The guard of a unique pointer, and what must hold of its size for Rust to hold it.
pub open spec fn unique_ptr_start(inner: Seq<char>, instance: Seq<char>) -> Seq<char> {
    "#ifndef CXXBRIDGE02_UNIQUE_PTR_"@ + instance + "\n"@
        + "#define CXXBRIDGE02_UNIQUE_PTR_"@ + instance + "\n"@
        + "static_assert(sizeof(::std::unique_ptr<"@ + inner + ">) == sizeof(void *), \"\");\n"@
        + "static_assert(alignof(::std::unique_ptr<"@ + inner + ">) == alignof(void *), \"\");\n"@
}

/// How Rust makes a unique pointer: to nothing, to a value, or of a raw pointer.
pub open spec fn unique_ptr_makers(inner: Seq<char>, instance: Seq<char>) -> Seq<char> {
    "void cxxbridge02$unique_ptr$"@ + instance + "$null(::std::unique_ptr<"@ + inner
        + "> *ptr) noexcept {\n"@
        + "  new (ptr) ::std::unique_ptr<"@ + inner + ">();\n"@ + "}\n"@
        + "void cxxbridge02$unique_ptr$"@ + instance + "$new(::std::unique_ptr<"@ + inner
        + "> *ptr, "@ + inner + " *value) noexcept {\n"@
        + "  new (ptr) ::std::unique_ptr<"@ + inner + ">(new "@ + inner
        + "(::std::move(*value)));\n"@ + "}\n"@
        + "void cxxbridge02$unique_ptr$"@ + instance + "$raw(::std::unique_ptr<"@ + inner
        + "> *ptr, "@ + inner + " *raw) noexcept {\n"@
        + "  new (ptr) ::std::unique_ptr<"@ + inner + ">(raw);\n"@ + "}\n"@
}

/// How Rust reads, empties and drops a unique pointer.
pub open spec fn unique_ptr_users(inner: Seq<char>, instance: Seq<char>) -> Seq<char> {
    "const "@ + inner + " *cxxbridge02$unique_ptr$"@ + instance + "$get(const ::std::unique_ptr<"@
        + inner + ">& ptr) noexcept {\n"@ + "  return ptr.get();\n"@ + "}\n"@
        + inner + " *cxxbridge02$unique_ptr$"@ + instance + "$release(::std::unique_ptr<"@ + inner
        + ">& ptr) noexcept {\n"@ + "  return ptr.release();\n"@ + "}\n"@
        + "void cxxbridge02$unique_ptr$"@ + instance + "$drop(::std::unique_ptr<"@ + inner
        + "> *ptr) noexcept {\n"@ + "  ptr->~unique_ptr();\n"@ + "}\n"@
        + "#endif // CXXBRIDGE02_UNIQUE_PTR_"@ + instance + "\n"@
}

/// What C++ does for a unique pointer that Rust holds.
pub open spec fn unique_ptr_text(namespace: Seq<Seq<char>>, ident: Seq<char>) -> Seq<char> {
    let inner = qualified_name(namespace, ident);
    let instance = instance_name(namespace, ident);
    unique_ptr_start(inner, instance) + unique_ptr_makers(inner, instance) + unique_ptr_users(
        inner,
        instance,
    )
}

/// The template of a value that is not dropped by itself.
pub open spec fn manually_drop_template() -> Seq<char> {
    "template <typename T>\n"@
        + "union ManuallyDrop {\n"@
        + "  T value;\n"@
        + "  ManuallyDrop(T &&value) : value(::std::move(value)) {}\n"@
        + "  ~ManuallyDrop() {}\n"@
        + "};\n"@
}

/// The template of a value that is not there yet.
pub open spec fn maybe_uninit_template() -> Seq<char> {
    "template <typename T>\n"@
        + "union MaybeUninit {\n"@
        + "  T value;\n"@
        + "  MaybeUninit() {}\n"@
        + "  ~MaybeUninit() {}\n"@
        + "};\n"@
}

/// The lines of a section of the runtime header, without those that are comments.
pub open spec fn code_lines(section: Seq<char>) -> Seq<Seq<char>> {
    lines(section).map_values(|line: Seq<char>| text_if(!is_comment(line), line + "\n"@))
}

/// Writes the lines of a section of the runtime header, without those that are comments.
pub(crate) fn write_code_lines(out: &mut OutFile, section: &str)
    ensures
        final(out)@ == old(out)@.write(concat(code_lines(section@))),
        final(out).includes == old(out).includes,
{
    let lines: Vec<String> = split_lines(section);
    let ghost start = out@;
    let ghost parts = code_lines(section@);
    let mut i: usize = 0;
    proof {
        lemma_write_nothing(start);
    }
    while i < lines.len()
        invariant
            i <= lines.len(),
            parts == code_lines(section@),
            views(lines@) == crate::text::lines(section@),
            out@ == start.write(concat(parts.take(i as int))),
            out.includes == old(out).includes,
        decreases lines.len() - i,
    {
        proof {
            assert(views(lines@)[i as int] == lines@[i as int]@);
            lemma_concat_take(parts, i as int);
        }
        if !comment(lines[i].as_str()) {
            let ghost before = out@;
            assert(base(before));
            out.write_str(lines[i].as_str());
            out.write_str("\n");
            proof {
                assert(out@ == before.write(parts[i as int]));
                law_write_in_parts(start, concat(parts.take(i as int)), parts[i as int]);
            }
        }
        i += 1;
    }
    proof {
        assert(parts.len() == lines@.len());
        assert(parts.take(i as int) =~= parts);
    }
}

/// Writes the declarations of what Rust does for a box.
pub fn write_rust_box_extern(out: &mut OutFile, ident: &Name)
    ensures
        final(out)@ == old(out)@.write(rust_box_extern_text(old(out)@.namespace, ident@)),
        final(out).includes == old(out).includes,
{
    let inner = qualify(&out.namespace, ident);
    let instance = replace_colons(inner.as_str());
    let inner = inner.as_str();
    let instance = instance.as_str();
    assert(base(out@));

    out.write_str("#ifndef CXXBRIDGE02_RUST_BOX_");
    out.write_str(instance);
    out.write_str("\n");
    out.write_str("#define CXXBRIDGE02_RUST_BOX_");
    out.write_str(instance);
    out.write_str("\n");
    out.write_str("void cxxbridge02$box$");
    out.write_str(instance);
    out.write_str("$uninit(::rust::Box<");
    out.write_str(inner);
    out.write_str("> *ptr) noexcept;\n");
    out.write_str("void cxxbridge02$box$");
    out.write_str(instance);
    out.write_str("$drop(::rust::Box<");
    out.write_str(inner);
    out.write_str("> *ptr) noexcept;\n");
    out.write_str("#endif // CXXBRIDGE02_RUST_BOX_");
    out.write_str(instance);
    out.write_str("\n");
}

/// Writes the methods of a box that leave their work to Rust.
pub fn write_rust_box_impl(out: &mut OutFile, ident: &Name)
    ensures
        final(out)@ == old(out)@.write(rust_box_impl_text(old(out)@.namespace, ident@)),
        final(out).includes == old(out).includes,
{
    let inner = qualify(&out.namespace, ident);
    let instance = replace_colons(inner.as_str());
    let inner = inner.as_str();
    let instance = instance.as_str();
    assert(base(out@));

    out.write_str("template <>\n");
    out.write_str("void Box<");
    out.write_str(inner);
    out.write_str(">::uninit() noexcept {\n");
    out.write_str("  return cxxbridge02$box$");
    out.write_str(instance);
    out.write_str("$uninit(this);\n");
    out.write_str("}\n");

    out.write_str("template <>\n");
    out.write_str("void Box<");
    out.write_str(inner);
    out.write_str(">::drop() noexcept {\n");
    out.write_str("  return cxxbridge02$box$");
    out.write_str(instance);
    out.write_str("$drop(this);\n");
    out.write_str("}\n");
}

/// Writes the guard of a unique pointer, and what must hold of its size.
fn write_unique_ptr_start(out: &mut OutFile, inner: &str, instance: &str)
    ensures
        final(out)@ == old(out)@.write(unique_ptr_start(inner@, instance@)),
        final(out).includes == old(out).includes,
{
    assert(base(out@));
    out.write_str("#ifndef CXXBRIDGE02_UNIQUE_PTR_");
    out.write_str(instance);
    out.write_str("\n");
    out.write_str("#define CXXBRIDGE02_UNIQUE_PTR_");
    out.write_str(instance);
    out.write_str("\n");
    out.write_str("static_assert(sizeof(::std::unique_ptr<");
    out.write_str(inner);
    out.write_str(">) == sizeof(void *), \"\");\n");
    out.write_str("static_assert(alignof(::std::unique_ptr<");
    out.write_str(inner);
    out.write_str(">) == alignof(void *), \"\");\n");
}

/// Writes how Rust makes a unique pointer.
fn write_unique_ptr_makers(out: &mut OutFile, inner: &str, instance: &str)
    ensures
        final(out)@ == old(out)@.write(unique_ptr_makers(inner@, instance@)),
        final(out).includes == old(out).includes,
{
    assert(base(out@));
    out.write_str("void cxxbridge02$unique_ptr$");
    out.write_str(instance);
    out.write_str("$null(::std::unique_ptr<");
    out.write_str(inner);
    out.write_str("> *ptr) noexcept {\n");
    out.write_str("  new (ptr) ::std::unique_ptr<");
    out.write_str(inner);
    out.write_str(">();\n");
    out.write_str("}\n");

    out.write_str("void cxxbridge02$unique_ptr$");
    out.write_str(instance);
    out.write_str("$new(::std::unique_ptr<");
    out.write_str(inner);
    out.write_str("> *ptr, ");
    out.write_str(inner);
    out.write_str(" *value) noexcept {\n");
    out.write_str("  new (ptr) ::std::unique_ptr<");
    out.write_str(inner);
    out.write_str(">(new ");
    out.write_str(inner);
    out.write_str("(::std::move(*value)));\n");
    out.write_str("}\n");

    out.write_str("void cxxbridge02$unique_ptr$");
    out.write_str(instance);
    out.write_str("$raw(::std::unique_ptr<");
    out.write_str(inner);
    out.write_str("> *ptr, ");
    out.write_str(inner);
    out.write_str(" *raw) noexcept {\n");
    out.write_str("  new (ptr) ::std::unique_ptr<");
    out.write_str(inner);
    out.write_str(">(raw);\n");
    out.write_str("}\n");
}

/// Writes how Rust reads, empties and drops a unique pointer.
fn write_unique_ptr_users(out: &mut OutFile, inner: &str, instance: &str)
    ensures
        final(out)@ == old(out)@.write(unique_ptr_users(inner@, instance@)),
        final(out).includes == old(out).includes,
{
    assert(base(out@));
    out.write_str("const ");
    out.write_str(inner);
    out.write_str(" *cxxbridge02$unique_ptr$");
    out.write_str(instance);
    out.write_str("$get(const ::std::unique_ptr<");
    out.write_str(inner);
    out.write_str(">& ptr) noexcept {\n");
    out.write_str("  return ptr.get();\n");
    out.write_str("}\n");

    out.write_str(inner);
    out.write_str(" *cxxbridge02$unique_ptr$");
    out.write_str(instance);
    out.write_str("$release(::std::unique_ptr<");
    out.write_str(inner);
    out.write_str(">& ptr) noexcept {\n");
    out.write_str("  return ptr.release();\n");
    out.write_str("}\n");

    out.write_str("void cxxbridge02$unique_ptr$");
    out.write_str(instance);
    out.write_str("$drop(::std::unique_ptr<");
    out.write_str(inner);
    out.write_str("> *ptr) noexcept {\n");
    out.write_str("  ptr->~unique_ptr();\n");
    out.write_str("}\n");
    out.write_str("#endif // CXXBRIDGE02_UNIQUE_PTR_");
    out.write_str(instance);
    out.write_str("\n");
}

/// Writes what C++ does for a unique pointer that Rust holds.
pub fn write_unique_ptr(out: &mut OutFile, ident: &Name)
    ensures
        final(out)@ == old(out)@.write(unique_ptr_text(old(out)@.namespace, ident@)),
        final(out).includes == old(out).includes,
{
    let inner = qualify(&out.namespace, ident);
    let instance = replace_colons(inner.as_str());
    assert(base(out@));
    write_unique_ptr_start(out, inner.as_str(), instance.as_str());
    write_unique_ptr_makers(out, inner.as_str(), instance.as_str());
    write_unique_ptr_users(out, inner.as_str(), instance.as_str());
}

/// Writes the template of a value that is not dropped by itself.
pub(crate) fn write_manually_drop_template(out: &mut OutFile)
    ensures
        final(out)@ == old(out)@.write(manually_drop_template()),
        final(out).includes == old(out).includes,
{
    assert(base(out@));
    out.write_str("template <typename T>\n");
    out.write_str("union ManuallyDrop {\n");
    out.write_str("  T value;\n");
    out.write_str("  ManuallyDrop(T &&value) : value(::std::move(value)) {}\n");
    out.write_str("  ~ManuallyDrop() {}\n");
    out.write_str("};\n");
}

/// Writes the template of a value that is not there yet.
pub(crate) fn write_maybe_uninit_template(out: &mut OutFile)
    ensures
        final(out)@ == old(out)@.write(maybe_uninit_template()),
        final(out).includes == old(out).includes,
{
    assert(base(out@));
    out.write_str("template <typename T>\n");
    out.write_str("union MaybeUninit {\n");
    out.write_str("  T value;\n");
    out.write_str("  MaybeUninit() {}\n");
    out.write_str("  ~MaybeUninit() {}\n");
    out.write_str("};\n");
}

}
