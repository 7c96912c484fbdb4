use cxxgen::text::{comment, replace_colons, same, split_lines, whitespace};

#[test]
fn lines_match_the_standard_library() {
    for s in ["", "\n", "a", "a\n", "a\nb", "a\r\nb\r\n", "a\rb", "a\r", "\r\n", "\n\nx\n", "é\nü"] {
        let expected: Vec<String> = s.lines().map(|line| line.to_string()).collect();
        assert_eq!(split_lines(s), expected);
    }
}

#[test]
fn whitespace_matches_the_standard_library() {
    for n in 0u32..0x110000 {
        if let Some(c) = char::from_u32(n) {
            assert_eq!(whitespace(c), c.is_whitespace());
        }
    }
}

#[test]
fn comments_may_be_indented() {
    assert!(comment("// x"));
    assert!(comment(" \t// x"));
    assert!(comment("//"));
    assert!(!comment("/ /"));
    assert!(!comment("x // y"));
    assert!(!comment(""));
    assert!(!comment("  /"));
    assert!(comment("\u{3000}///"));
}

#[test]
fn colons_are_replaced_in_pairs() {
    for s in ["", ":", "::", ":::", "::::", "a::b", "a:b", "org::example::Thing", "é::ü"] {
        assert_eq!(replace_colons(s), s.replace("::", "$"));
    }
    assert_eq!(replace_colons("org::example::Thing"), "org$example$Thing");
}

#[test]
fn same_compares_contents() {
    assert!(same("abc", "abc"));
    assert!(!same("abc", "abd"));
    assert!(!same("abc", "ab"));
}
