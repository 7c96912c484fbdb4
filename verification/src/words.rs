//! Words: how texts, lines and names are put together.

use vstd::prelude::*;

use crate::cxx_header::{find_line_from, is_complete, line_at, section};
use crate::includes::{custom_line, escape, escape_char, hex, IncludesView};
use crate::laws::free_of;
use crate::syntax::{Struct, Var};
use crate::text::{
    comma_separated, concat, dollars_for_colons, is_comment, is_whitespace, lemma_empty_right,
    line_end, lines, text_if, trim_start, views,
};
use crate::write::namespace::{instance_name, link_name, qualified_name};
use crate::write::structs::struct_text;
use crate::write::templates::code_lines;
use crate::write::types::type_space_text;

verus! {

/// The view of a list of strings has the contents of each string at its place.
pub proof fn law_views(strings: Seq<String>, i: int)
    requires
        0 <= i < strings.len(),
    ensures
        views(strings).len() == strings.len(),
        views(strings)[i] == strings[i]@,
{
}

/// To put parts together is to put the first of them together, then the rest; one part alone is
/// itself, and no part is nothing.
pub proof fn law_concat<A>(a: Seq<Seq<A>>, b: Seq<Seq<A>>, part: Seq<A>)
    ensures
        concat(a + b) == concat(a) + concat(b),
        concat(seq![part]) == part,
        concat(Seq::<Seq<A>>::empty()) == Seq::<A>::empty(),
    decreases b.len(),
{
    reveal_with_fuel(concat, 2);
    assert(seq![part].drop_last() =~= Seq::<Seq<A>>::empty());
    assert(concat(seq![part]) =~= part);
    if b.len() == 0 {
        assert(a + b =~= a);
        assert(concat(a) + concat(b) =~= concat(a));
    } else {
        law_concat(a, b.drop_last(), part);
        assert((a + b).drop_last() =~= a + b.drop_last());
        assert(concat(a + b) =~= concat(a) + concat(b));
    }
}

/// Between two lists of parts that are not empty stands one `, `; one part alone is itself, and
/// no part is nothing.
pub proof fn law_comma_separated(a: Seq<Seq<char>>, b: Seq<Seq<char>>, part: Seq<char>)
    ensures
        a.len() > 0 && b.len() > 0 ==> comma_separated(a + b) == comma_separated(a) + ", "@
            + comma_separated(b),
        comma_separated(seq![part]) == part,
        comma_separated(Seq::empty()) == Seq::<char>::empty(),
    decreases b.len(),
{
    reveal_with_fuel(comma_separated, 2);
    assert(seq![part].drop_last() =~= Seq::<Seq<char>>::empty());
    assert(comma_separated(seq![part]) =~= part);
    if a.len() > 0 && b.len() > 0 {
        assert((a + b).drop_last() =~= a + b.drop_last());
        if b.len() == 1 {
            assert(a + b.drop_last() =~= a);
            assert(b =~= seq![b.last()]);
            assert(comma_separated(seq![b.last()]) =~= b.last());
        } else {
            law_comma_separated(a, b.drop_last(), part);
            assert(comma_separated(a + b) =~= comma_separated(a) + ", "@ + comma_separated(b));
        }
    }
}

proof fn lemma_line_end_at(s: Seq<char>, end: int)
    requires
        0 <= end <= s.len(),
        end < s.len() ==> s[end] == '\n',
        free_of(s.take(end), '\n'),
    ensures
        line_end(s) == end,
    decreases s.len(),
{
    if end > 0 {
        assert(s.take(end)[0] == s[0]);
        assert(s.skip(1).take(end - 1) =~= s.take(end).skip(1));
        assert(free_of(s.skip(1).take(end - 1), '\n'));
        lemma_line_end_at(s.skip(1), end - 1);
    }
}

/// A text without a line feed is one line, unless it is empty. Up to its first line feed a text is
/// a line, and its other lines are those of what follows; a carriage return in front of the line
/// feed belongs to neither.
pub proof fn law_lines(line: Seq<char>, rest: Seq<char>)
    requires
        free_of(line, '\n'),
    ensures
        line.len() > 0 ==> lines(line) == seq![line],
        lines(Seq::empty()) == Seq::<Seq<char>>::empty(),
        line.len() == 0 || line.last() != '\r' ==> lines(line.push('\n') + rest) == seq![line]
            + lines(rest),
        lines(line.push('\r').push('\n') + rest) == seq![line] + lines(rest),
{
    assert(line.take(line.len() as int) =~= line);
    lemma_line_end_at(line, line.len() as int);
    let a = line.push('\n') + rest;
    let b = line.push('\r').push('\n') + rest;
    assert(a.take(line.len() as int) =~= line);
    assert(a.skip(line.len() as int + 1) =~= rest);
    lemma_line_end_at(a, line.len() as int);
    assert(b.take(line.len() as int + 1) =~= line.push('\r'));
    assert(free_of(line.push('\r'), '\n'));
    assert(b.skip(line.len() as int + 2) =~= rest);
    assert(line.push('\r').drop_last() =~= line);
    lemma_line_end_at(b, line.len() as int + 1);
}

/// A line is a comment if and only if `//` is the first thing in it after its white space.
pub proof fn law_comments(space: Seq<char>, rest: Seq<char>)
    requires
        forall|i: int| 0 <= i < space.len() ==> is_whitespace(#[trigger] space[i]),
        rest.len() > 0 ==> !is_whitespace(rest[0]),
    ensures
        is_comment(space + rest) <==> rest.len() >= 2 && rest[0] == '/' && rest[1] == '/',
    decreases space.len(),
{
    let s = space + rest;
    if space.len() > 0 {
        assert(s[0] == space[0]);
        assert(s.skip(1) =~= space.skip(1) + rest);
        assert forall|i: int| 0 <= i < space.skip(1).len() implies is_whitespace(
            #[trigger] space.skip(1)[i],
        ) by {
            assert(space.skip(1)[i] == space[i + 1]);
        }
        law_comments(space.skip(1), rest);
    } else {
        assert(s =~= rest);
        reveal_strlit("//");
        assert(trim_start(rest) == rest);
        if rest.len() >= 2 {
            let start = rest.subrange(0, 2);
            assert(start[0] == rest[0] && start[1] == rest[1]);
            if rest[0] == '/' && rest[1] == '/' {
                assert(start =~= "//"@);
            }
        }
    }
}

/// Of a section of the runtime header a file repeats the lines that are no comments, in their
/// order.
pub proof fn law_code_lines(text: Seq<char>)
    ensures
        concat(code_lines(text)) == concat(
            lines(text).filter(|line: Seq<char>| !is_comment(line)).map_values(
                |line: Seq<char>| line + "\n"@,
            ),
        ),
{
    lemma_code_lines(lines(text));
}

proof fn lemma_code_lines(all: Seq<Seq<char>>)
    ensures
        concat(all.map_values(|line: Seq<char>| text_if(!is_comment(line), line + "\n"@)))
            == concat(
            all.filter(|line: Seq<char>| !is_comment(line)).map_values(
                |line: Seq<char>| line + "\n"@,
            ),
        ),
    decreases all.len(),
{
    broadcast use lemma_empty_right;

    reveal(Seq::filter);
    let keep = |line: Seq<char>| !is_comment(line);
    let full = |line: Seq<char>| line + "\n"@;
    let part = |line: Seq<char>| text_if(!is_comment(line), line + "\n"@);
    if all.len() > 0 {
        let front = all.drop_last();
        lemma_code_lines(front);
        assert(all.map_values(part).drop_last() =~= front.map_values(part));
        if keep(all.last()) {
            let kept = front.filter(keep).push(all.last());
            assert(kept.map_values(full).drop_last() =~= front.filter(keep).map_values(full));
        }
    } else {
        assert(all.filter(keep).map_values(full) =~= all.map_values(part));
    }
}

/// The name by which the linker knows a function is made of the segments of the namespace, the
/// version of the bridge and the name of the function, with a `$` after each but the last.
pub proof fn law_link_names(segment: Seq<char>, namespace: Seq<Seq<char>>, ident: Seq<char>)
    ensures
        link_name(Seq::empty(), ident) == "cxxbridge02$"@ + ident,
        link_name(seq![segment] + namespace, ident) == segment + "$"@ + link_name(namespace, ident),
{
    let f = |name: Seq<char>| name + "$"@;
    assert(Seq::<Seq<char>>::empty().map_values(f) =~= Seq::<Seq<char>>::empty());
    assert(link_name(Seq::empty(), ident) =~= "cxxbridge02$"@ + ident);
    assert((seq![segment] + namespace).map_values(f) =~= seq![segment + "$"@]
        + namespace.map_values(f));
    law_concat(seq![segment + "$"@], namespace.map_values(f), segment + "$"@);
    assert(link_name(seq![segment] + namespace, ident) =~= segment + "$"@ + link_name(
        namespace,
        ident,
    ));
}

/// The name of a type with its namespace has a `::` after each segment; the name of its instances
/// has a `$` for each `::` of that.
pub proof fn law_qualified_names(segment: Seq<char>, namespace: Seq<Seq<char>>, ident: Seq<char>)
    ensures
        qualified_name(Seq::empty(), ident) == ident,
        qualified_name(seq![segment] + namespace, ident) == segment + "::"@ + qualified_name(
            namespace,
            ident,
        ),
        instance_name(namespace, ident) == dollars_for_colons(qualified_name(namespace, ident)),
{
    let f = |name: Seq<char>| name + "::"@;
    assert(Seq::<Seq<char>>::empty().map_values(f) =~= Seq::<Seq<char>>::empty());
    assert(qualified_name(Seq::empty(), ident) =~= ident);
    assert((seq![segment] + namespace).map_values(f) =~= seq![segment + "::"@]
        + namespace.map_values(f));
    law_concat(seq![segment + "::"@], namespace.map_values(f), segment + "::"@);
    assert(qualified_name(seq![segment] + namespace, ident) =~= segment + "::"@ + qualified_name(
        namespace,
        ident,
    ));
}

/// The first `::` of a text becomes a `$`, what stands before it stays, and what follows goes the
/// same way. A text without `::` stays as it is.
pub proof fn law_dollars_for_colons(before: Seq<char>, rest: Seq<char>)
    requires
        forall|i: int|
            0 <= i < before.len() ==> !(#[trigger] before[i] == ':' && before.push(':')[i + 1]
                == ':'),
    ensures
        dollars_for_colons(before) == before,
        dollars_for_colons(before + "::"@ + rest) == before + "$"@ + dollars_for_colons(rest),
    decreases before.len(),
{
    reveal_strlit("::");
    reveal_strlit("$");
    let s = before + "::"@ + rest;
    if before.len() == 0 {
        assert(s.skip(2) =~= rest);
        assert(s[0] == ':' && s[1] == ':');
        assert(dollars_for_colons(s) =~= before + "$"@ + dollars_for_colons(rest));
    } else {
        let tail = before.skip(1);
        assert forall|i: int| 0 <= i < tail.len() implies !(#[trigger] tail[i] == ':'
            && tail.push(':')[i + 1] == ':') by {
            assert(tail[i] == before[i + 1]);
            assert(tail.push(':')[i + 1] == before.push(':')[i + 2]);
        }
        law_dollars_for_colons(tail, rest);
        assert(before[0] == s[0]);
        assert(s[1] == before.push(':')[1]);
        assert(s.skip(1) =~= tail + "::"@ + rest);
        assert(!(s[0] == ':' && s[1] == ':'));
        assert(dollars_for_colons(s) =~= before + "$"@ + dollars_for_colons(rest));
        if before.len() >= 2 {
            assert(before.push(':')[1] == before[1]);
            assert(dollars_for_colons(before) =~= before);
        }
    }
}

/// A struct is defined with its comment line by line above it, and with all its fields in their
/// order, one on each line.
pub proof fn law_structs(strct: Struct)
    ensures
        struct_text(strct) == concat(
            lines(strct.doc@).map_values(|line: Seq<char>| "//"@ + line + "\n"@),
        ) + "struct "@ + strct.ident@ + " final {\n"@ + concat(
            strct.fields@.map_values(
                |field: Var| "  "@ + type_space_text(field.ty) + field.ident@ + ";\n"@,
            ),
        ) + "};\n"@,
{
    assert(strct.fields@.map_values(
        |field: Var| "  "@ + type_space_text(field.ty) + field.ident@ + ";\n"@,
    ) =~= strct.fields@.map_values(|field: Var| crate::write::structs::field_text(field)));
}

/// The lines that ask for headers: those that the bridge names come first and in their order, then
/// one for each header of the standard library that is needed.
pub proof fn law_include_lines(includes: IncludesView)
    ensures
        ({
            let custom = concat(includes.custom.map_values(|path: Seq<char>| custom_line(path)));
            includes.text() == custom + concat(
                seq![
                    if includes.array { "#include <array>\n"@ } else { Seq::empty() },
                    if includes.cstdint { "#include <cstdint>\n"@ } else { Seq::empty() },
                    if includes.cstring { "#include <cstring>\n"@ } else { Seq::empty() },
                    if includes.exception { "#include <exception>\n"@ } else { Seq::empty() },
                    if includes.memory { "#include <memory>\n"@ } else { Seq::empty() },
                    if includes.string { "#include <string>\n"@ } else { Seq::empty() },
                    if includes.type_traits { "#include <type_traits>\n"@ } else { Seq::empty() },
                ],
            )
        }),
{
    let array = text_if(includes.array, "#include <array>\n"@);
    let cstdint = text_if(includes.cstdint, "#include <cstdint>\n"@);
    let cstring = text_if(includes.cstring, "#include <cstring>\n"@);
    let exception = text_if(includes.exception, "#include <exception>\n"@);
    let memory = text_if(includes.memory, "#include <memory>\n"@);
    let string = text_if(includes.string, "#include <string>\n"@);
    let type_traits = text_if(includes.type_traits, "#include <type_traits>\n"@);
    let custom = concat(includes.custom.map_values(|path: Seq<char>| custom_line(path)));
    lemma_seven(custom, array, cstdint, cstring, exception, memory, string, type_traits);
}

proof fn lemma_seven(
    front: Seq<char>,
    a: Seq<char>,
    b: Seq<char>,
    c: Seq<char>,
    d: Seq<char>,
    e: Seq<char>,
    f: Seq<char>,
    g: Seq<char>,
)
    ensures
        front + concat(seq![a, b, c, d, e, f, g]) == front + a + b + c + d + e + f + g,
{
    law_concat(seq![a], seq![b], a);
    law_concat(seq![a, b], seq![c], b);
    law_concat(seq![a, b, c], seq![d], c);
    law_concat(seq![a, b, c, d], seq![e], d);
    law_concat(seq![a, b, c, d, e], seq![f], e);
    law_concat(seq![a, b, c, d, e, f], seq![g], f);
    law_concat(seq![a], seq![b], g);
    assert(seq![a] + seq![b] =~= seq![a, b]);
    assert(seq![a, b] + seq![c] =~= seq![a, b, c]);
    assert(seq![a, b, c] + seq![d] =~= seq![a, b, c, d]);
    assert(seq![a, b, c, d] + seq![e] =~= seq![a, b, c, d, e]);
    assert(seq![a, b, c, d, e] + seq![f] =~= seq![a, b, c, d, e, f]);
    assert(seq![a, b, c, d, e, f] + seq![g] =~= seq![a, b, c, d, e, f, g]);
    assert(front + (a + b + c + d + e + f + g) =~= front + a + b + c + d + e + f + g);
}

/// A path in angle brackets is written as it is, any other one between quotes and escaped.
pub proof fn law_custom_lines(path: Seq<char>)
    ensures
        custom_line(seq!['<'] + path + seq!['>']) == "#include "@ + (seq!['<'] + path + seq!['>'])
            + "\n"@,
        path.len() == 0 || path[0] != '<' || path.last() != '>' ==> custom_line(path)
            == "#include \""@ + escape(path) + "\"\n"@,
{
}

/// A text is escaped character by character. Printable characters of ASCII stay, but for quotes
/// and the backslash, which get a backslash; so do the usual control characters, and anything
/// else is written by its number.
pub proof fn law_escapes(a: Seq<char>, b: Seq<char>, c: char)
    ensures
        escape(a + b) == escape(a) + escape(b),
        escape(seq![c]) == escape_char(c),
        escape_char('\t') == "\\t"@,
        escape_char('\r') == "\\r"@,
        escape_char('\n') == "\\n"@,
        escape_char('\'') == "\\'"@,
        escape_char('"') == "\\\""@,
        escape_char('\\') == "\\\\"@,
        ' ' <= c <= '~' && c != '\'' && c != '"' && c != '\\' ==> escape_char(c) == seq![c],
        (c < ' ' && c != '\t' && c != '\r' && c != '\n') || c > '~' ==> escape_char(c) == "\\u{"@
            + hex(c as u32 as nat) + "}"@,
{
    let f = |c: char| escape_char(c);
    assert((a + b).map_values(f) =~= a.map_values(f) + b.map_values(f));
    law_concat(a.map_values(f), b.map_values(f), escape_char(c));
    assert(seq![c].map_values(f) =~= seq![escape_char(c)]);
}

/// A number is written in hexadecimal digit by digit, the highest first.
pub proof fn law_hexadecimal(high: nat, low: nat)
    requires
        low < 16,
    ensures
        hex(low) == seq!["0123456789abcdef"@[low as int]],
        high > 0 ==> hex(16 * high + low) == hex(high) + hex(low),
{
    if high > 0 {
        assert((16 * high + low) / 16 == high);
        assert((16 * high + low) % 16 == low);
        assert(hex(high).push("0123456789abcdef"@[low as int]) =~= hex(high) + hex(low));
    }
}

/// Whether a line that ends in `line` has it from `at` on.
pub open spec fn reads_line(text: Seq<char>, line: Seq<char>, at: int) -> bool {
    &&& 0 <= at < text.len() - line.len()
    &&& forall|i: int| 0 <= i < line.len() ==> #[trigger] line[i] == text[at + i]
    &&& text[at + line.len()] == '\n' || text[at + line.len()] == '\r'
}

proof fn lemma_line_at(text: Seq<char>, line: Seq<char>, at: int)
    requires
        0 <= at,
    ensures
        line_at(text, line, at) <==> reads_line(text, line, at),
{
    if at + line.len() < text.len() {
        let found = text.subrange(at, at + line.len());
        if found == line {
            assert forall|i: int| 0 <= i < line.len() implies #[trigger] line[i]
                == text[at + i] by {
                assert(found[i] == text[at + i]);
            }
        }
        if forall|i: int| 0 <= i < line.len() ==> #[trigger] line[i] == text[at + i] {
            assert(found =~= line);
        }
    }
}

proof fn lemma_find_line(text: Seq<char>, line: Seq<char>, from: int, at: int)
    requires
        0 <= from <= at,
        reads_line(text, line, at),
        forall|i: int| from <= i < at ==> !#[trigger] reads_line(text, line, i),
    ensures
        find_line_from(text, line, from) == Some(at),
    decreases at - from,
{
    lemma_line_at(text, line, from);
    if from < at {
        assert(!reads_line(text, line, from));
        lemma_find_line(text, line, from + 1, at);
    }
}

proof fn lemma_no_line(text: Seq<char>, line: Seq<char>, from: int)
    requires
        0 <= from,
        forall|i: int| from <= i < text.len() ==> !#[trigger] reads_line(text, line, i),
    ensures
        find_line_from(text, line, from) is None,
    decreases text.len() - from,
{
    if from < text.len() {
        lemma_line_at(text, line, from);
        assert(!reads_line(text, line, from));
        lemma_no_line(text, line, from + 1);
    }
}

/// A section goes from the first line that ends in its `#ifndef` to the end of the first line that
/// ends in its `#endif`.
pub proof fn law_sections_go_from_guard_to_guard(
    text: Seq<char>,
    guard: Seq<char>,
    begin: int,
    end: int,
)
    requires
        reads_line(text, "#ifndef "@ + guard, begin),
        forall|i: int| 0 <= i < begin ==> !#[trigger] reads_line(text, "#ifndef "@ + guard, i),
        reads_line(text, "#endif // "@ + guard, end),
        forall|i: int| 0 <= i < end ==> !#[trigger] reads_line(text, "#endif // "@ + guard, i),
    ensures
        ({
            let stop = end + ("#endif // "@ + guard).len();
            &&& begin <= stop ==> section(text, guard) == Some(text.subrange(begin, stop))
            &&& begin > stop ==> section(text, guard) is None
        }),
{
    lemma_find_line(text, "#ifndef "@ + guard, 0, begin);
    lemma_find_line(text, "#endif // "@ + guard, 0, end);
}

/// A header is complete if and only if it has the five sections that a file may repeat.
pub proof fn law_complete_headers(text: Seq<char>)
    ensures
        is_complete(text) <==> forall|guard: Seq<char>|
            guard == "CXXBRIDGE02_RUST_STRING"@ || guard == "CXXBRIDGE02_RUST_STR"@ || guard
                == "CXXBRIDGE02_RUST_BOX"@ || guard == "CXXBRIDGE02_RUST_ERROR"@ || guard
                == "CXXBRIDGE02_RUST_BITCOPY"@ ==> #[trigger] section(text, guard) is Some,
{
}

/// There is no section without a line that ends in its `#ifndef` and one that ends in its
/// `#endif`.
pub proof fn law_no_section_without_guards(text: Seq<char>, guard: Seq<char>)
    requires
        (forall|i: int|
            0 <= i < text.len() ==> !#[trigger] reads_line(text, "#ifndef "@ + guard, i)) || (
        forall|i: int|
            0 <= i < text.len() ==> !#[trigger] reads_line(text, "#endif // "@ + guard, i)),
    ensures
        section(text, guard) is None,
{
    if forall|i: int|
        0 <= i < text.len() ==> !#[trigger] reads_line(text, "#ifndef "@ + guard, i) {
        lemma_no_line(text, "#ifndef "@ + guard, 0);
    } else {
        lemma_no_line(text, "#endif // "@ + guard, 0);
    }
}

}
