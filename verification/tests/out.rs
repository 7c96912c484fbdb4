use cxxgen::includes::{escape_default, Includes};
use cxxgen::out::OutFile;

#[test]
fn a_text_may_be_written_in_parts() {
    let mut whole = OutFile::new(vec![], false);
    whole.write_str("x");
    whole.next_section();
    whole.write_str("abc");
    let mut parts = OutFile::new(vec![], false);
    parts.write_str("x");
    parts.next_section();
    parts.write_str("");
    parts.write_str("a");
    parts.write_str("");
    parts.write_str("bc");
    assert_eq!(whole.content(), "x\nabc");
    assert_eq!(parts.content(), "x\nabc");
}

#[test]
fn a_file_does_not_start_with_a_blank_line() {
    let mut out = OutFile::new(vec![], false);
    out.next_section();
    out.next_section();
    out.write_str("a\n");
    out.next_section();
    out.next_section();
    out.write_str("b\n");
    out.next_section();
    assert_eq!(out.content(), "a\n\nb\n");
}

#[test]
fn blocks_appear_with_what_is_in_them() {
    let mut out = OutFile::new(vec![], false);
    out.begin_block("namespace a");
    out.begin_block("namespace b");
    out.next_section();
    out.write_str("x;\n");
    out.next_section();
    out.write_str("y;\n");
    out.end_block("namespace b");
    out.end_block("namespace a");
    out.write_str("z;\n");
    assert_eq!(
        out.content(),
        "namespace a {\nnamespace b {\nx;\n\ny;\n} // namespace b\n} // namespace a\n\nz;\n",
    );
}

#[test]
fn an_empty_block_leaves_no_trace() {
    let mut out = OutFile::new(vec![], false);
    out.write_str("x;\n");
    out.begin_block("namespace a");
    out.begin_block("namespace b");
    out.end_block("namespace b");
    out.end_block("namespace a");
    out.write_str("y;\n");
    assert_eq!(out.content(), "x;\ny;\n");
    out.begin_block("namespace a");
    out.write_str("z;\n");
    out.begin_block("namespace b");
    out.end_block("namespace b");
    out.end_block("namespace a");
    assert_eq!(out.content(), "x;\ny;\n\nnamespace a {\nz;\n} // namespace a\n");
}

#[test]
fn prepend_comes_first() {
    let mut out = OutFile::new(vec![], true);
    out.write_str("b");
    out.prepend("a".to_string());
    assert_eq!(out.content(), "ab");
}

#[test]
fn no_header_is_asked_for_at_first() {
    assert_eq!(Includes::new().to_string(), "");
}

#[test]
fn headers_are_asked_for_in_order() {
    let mut includes = Includes::new();
    includes.insert("b.h".to_string());
    includes.insert("<a>".to_string());
    includes.insert("<".to_string());
    includes.array = true;
    includes.cstdint = true;
    includes.cstring = true;
    includes.exception = true;
    includes.memory = true;
    includes.string = true;
    includes.type_traits = true;
    assert_eq!(
        includes.to_string(),
        "#include \"b.h\"\n#include <a>\n#include \"<\"\n#include <array>\n#include <cstdint>\n\
         #include <cstring>\n#include <exception>\n#include <memory>\n#include <string>\n\
         #include <type_traits>\n",
    );
}

#[test]
fn paths_are_escaped() {
    for s in ["a/b.h", "a\\b.h", "\"", "'", "\t\r\n", "~ \u{7f}", "é\u{10ffff}\u{0}"] {
        assert_eq!(escape_default(s), s.escape_default().to_string());
    }
    assert_eq!(escape_default("a\\\u{e9}"), "a\\\\\\u{e9}");
}
