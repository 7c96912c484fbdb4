//! The C++ runtime header, of which generated code repeats the sections that it needs.

use vstd::prelude::*;

use crate::text::{chars, matches_at};

verus! {

/// Whether `line` stands in `s` from `at` on and ends a line there.
pub open spec fn line_at(s: Seq<char>, line: Seq<char>, at: int) -> bool {
    let end = at + line.len();
    &&& matches_at(s, line, at)
    &&& end < s.len()
    &&& s[end] == '\n' || s[end] == '\r'
}

/// The first position from `from` on where `line` stands in `s` and ends a line.
pub open spec fn find_line_from(s: Seq<char>, line: Seq<char>, from: int) -> Option<int>
    decreases s.len() - from,
{
    if from >= s.len() {
        None
    } else if line_at(s, line, from) {
        Some(from)
    } else {
        find_line_from(s, line, from + 1)
    }
}

/// The section of a header with the given guard: from its `#ifndef` to its `#endif`.
pub open spec fn section(text: Seq<char>, guard: Seq<char>) -> Option<Seq<char>> {
    let ifndef = "#ifndef "@ + guard;
    let endif = "#endif // "@ + guard;
    match (find_line_from(text, ifndef, 0), find_line_from(text, endif, 0)) {
        (Some(begin), Some(end)) => if begin <= end + endif.len() {
            Some(text.subrange(begin, end + endif.len()))
        } else {
            None
        },
        _ => None,
    }
}

/// The text of the C++ runtime header.
#[derive(Debug)]
pub struct CxxHeader {
    pub text: String,
}

impl View for CxxHeader {
    type V = Seq<char>;

    open spec fn view(&self) -> Seq<char> {
        self.text@
    }
}

/// Whether a header has every section that generated code may need.
pub open spec fn is_complete(text: Seq<char>) -> bool {
    &&& section(text, "CXXBRIDGE02_RUST_STRING"@) is Some
    &&& section(text, "CXXBRIDGE02_RUST_STR"@) is Some
    &&& section(text, "CXXBRIDGE02_RUST_BOX"@) is Some
    &&& section(text, "CXXBRIDGE02_RUST_ERROR"@) is Some
    &&& section(text, "CXXBRIDGE02_RUST_BITCOPY"@) is Some
}

/// Whether `line` stands in `s` from `at` on and ends a line there.
fn is_line_at(s: &Vec<char>, line: &Vec<char>, at: usize) -> (res: bool)
    requires
        at <= s.len(),
    ensures
        res == line_at(s@, line@, at as int),
{
    if line.len() >= s.len() - at {
        return false;
    }
    let mut i: usize = 0;
    while i < line.len()
        invariant
            i <= line.len(),
            at + line.len() < s.len(),
            forall|j: int| 0 <= j < i ==> s@[at + j] == line@[j],
        decreases line.len() - i,
    {
        if s[at + i] != line[i] {
            proof {
                assert(s@.subrange(at as int, at + line.len())[i as int] != line@[i as int]);
            }
            return false;
        }
        i += 1;
    }
    proof {
        assert(s@.subrange(at as int, at + line.len()) =~= line@);
    }
    s[at + line.len()] == '\n' || s[at + line.len()] == '\r'
}

/// The first position where `line` stands in `s` and ends a line.
fn find_line(s: &Vec<char>, line: &Vec<char>) -> (res: Option<usize>)
    ensures
        match res {
            Some(at) => find_line_from(s@, line@, 0) == Some(at as int) && at + line.len()
                < s.len(),
            None => find_line_from(s@, line@, 0) is None,
        },
{
    let mut at: usize = 0;
    while at < s.len()
        invariant
            at <= s.len(),
            find_line_from(s@, line@, 0) == find_line_from(s@, line@, at as int),
        decreases s.len() - at,
    {
        if is_line_at(s, line, at) {
            return Some(at);
        }
        at += 1;
    }
    None
}

impl CxxHeader {
    /// A header, if `text` has every section that generated code may need.
    pub fn new(text: String) -> (header: Option<CxxHeader>)
        ensures
            match header {
                Some(header) => is_complete(text@) && header@ == text@,
                None => !is_complete(text@),
            },
    {
        let header = CxxHeader { text };
        if header.find("CXXBRIDGE02_RUST_STRING").is_some()
            && header.find("CXXBRIDGE02_RUST_STR").is_some()
            && header.find("CXXBRIDGE02_RUST_BOX").is_some()
            && header.find("CXXBRIDGE02_RUST_ERROR").is_some()
            && header.find("CXXBRIDGE02_RUST_BITCOPY").is_some() {
            Some(header)
        } else {
            None
        }
    }

    /// The section with the given guard, if there is one.
    pub fn find(&self, guard: &str) -> (res: Option<String>)
        ensures
            match res {
                Some(found) => section(self@, guard@) == Some(found@),
                None => section(self@, guard@) is None,
            },
    {
        let text: Vec<char> = chars(self.text.as_str());
        let ifndef: Vec<char> = chars("#ifndef ".to_owned().concat(guard).as_str());
        let endif: Vec<char> = chars("#endif // ".to_owned().concat(guard).as_str());
        if let Some(begin) = find_line(&text, &ifndef) {
            if let Some(end) = find_line(&text, &endif) {
                if begin <= end + endif.len() {
                    let end: usize = end + endif.len();
                    return Some(self.text.as_str().substring_char(begin, end).to_owned());
                }
            }
        }
        None
    }

    /// The section with the given guard.
    pub fn get(&self, guard: &str) -> (res: String)
        requires
            section(self@, guard@) is Some,
        ensures
            section(self@, guard@) == Some(res@),
    {
        self.find(guard).unwrap()
    }
}

}
