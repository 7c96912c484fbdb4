use cxxgen::cxx_header::CxxHeader;

const TEXT: &str = "#pragma once
#ifndef CXXBRIDGE02_RUST_STRING
string();
#endif // CXXBRIDGE02_RUST_STRING
#ifndef CXXBRIDGE02_RUST_STR
str();
#endif // CXXBRIDGE02_RUST_STR\r
#ifndef CXXBRIDGE02_RUST_BOX
#endif // CXXBRIDGE02_RUST_BOX
#ifndef CXXBRIDGE02_RUST_ERROR
#endif // CXXBRIDGE02_RUST_ERROR
#ifndef CXXBRIDGE02_RUST_BITCOPY
#endif // CXXBRIDGE02_RUST_BITCOPY
";

#[test]
fn a_section_goes_from_its_guard_to_the_end_of_its_guard() {
    let header = CxxHeader::new(TEXT.to_string()).unwrap();
    assert_eq!(
        header.get("CXXBRIDGE02_RUST_STRING"),
        "#ifndef CXXBRIDGE02_RUST_STRING\nstring();\n#endif // CXXBRIDGE02_RUST_STRING",
    );
}

#[test]
fn a_guard_is_not_found_in_a_longer_one() {
    let header = CxxHeader::new(TEXT.to_string()).unwrap();
    assert_eq!(
        header.get("CXXBRIDGE02_RUST_STR"),
        "#ifndef CXXBRIDGE02_RUST_STR\nstr();\n#endif // CXXBRIDGE02_RUST_STR",
    );
}

#[test]
fn a_missing_section_is_not_found() {
    let header = CxxHeader::new(TEXT.to_string()).unwrap();
    assert_eq!(header.find("CXXBRIDGE02_RUST"), None);
    assert_eq!(header.find("OTHER"), None);
}

#[test]
fn a_section_that_ends_before_it_starts_is_not_found() {
    let text = format!("{}#endif // BACK\n\n#ifndef BACK\n", TEXT);
    let header = CxxHeader::new(text).unwrap();
    assert_eq!(header.find("BACK"), None);
}

#[test]
fn a_header_needs_every_section() {
    assert!(CxxHeader::new(TEXT.to_string()).is_some());
    assert!(CxxHeader::new(String::new()).is_none());
    for guard in ["STRING", "STR", "BOX", "ERROR", "BITCOPY"] {
        let line = format!("#ifndef CXXBRIDGE02_RUST_{}\n", guard);
        assert!(CxxHeader::new(TEXT.replace(&line, "")).is_none());
    }
}
