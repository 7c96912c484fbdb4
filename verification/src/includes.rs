//! The headers that the generated code needs, and the lines that ask for them.

use vstd::prelude::*;

use crate::text::{chars, concat, lemma_concat_take, lemma_views_push, text_if, views};

verus! {

/// What a list of needed headers says.
#[verifier::ext_equal]
pub struct IncludesView {
    pub custom: Seq<Seq<char>>,
    pub array: bool,
    pub cstdint: bool,
    pub cstring: bool,
    pub exception: bool,
    pub memory: bool,
    pub string: bool,
    pub type_traits: bool,
}

/// The lower-case hexadecimal digit of a number below sixteen.
pub open spec fn hex_digit(n: nat) -> char {
    "0123456789abcdef"@[n as int]
}

/// A number in lower-case hexadecimal, without leading zeros.
pub open spec fn hex(n: nat) -> Seq<char>
    decreases n,
{
    if n < 16 {
        seq![hex_digit(n)]
    } else {
        hex(n / 16).push(hex_digit(n % 16))
    }
}

/// A character as it stands in a string literal.
pub open spec fn escape_char(c: char) -> Seq<char> {
    if c == '\t' {
        "\\t"@
    } else if c == '\r' {
        "\\r"@
    } else if c == '\n' {
        "\\n"@
    } else if c == '\'' {
        "\\'"@
    } else if c == '"' {
        "\\\""@
    } else if c == '\\' {
        "\\\\"@
    } else if ' ' <= c <= '~' {
        seq![c]
    } else {
        "\\u{"@ + hex(c as u32 as nat) + "}"@
    }
}

/// A text as it stands in a string literal.
pub open spec fn escape(s: Seq<char>) -> Seq<char> {
    concat(s.map_values(|c: char| escape_char(c)))
}

/// Whether a path is written in angle brackets.
pub open spec fn is_bracketed(path: Seq<char>) -> bool {
    path.len() > 0 && path[0] == '<' && path.last() == '>'
}

/// The line that asks for one header.
pub open spec fn custom_line(path: Seq<char>) -> Seq<char> {
    if is_bracketed(path) {
        "#include "@ + path + "\n"@
    } else {
        "#include \""@ + escape(path) + "\"\n"@
    }
}

impl IncludesView {
    /// No header at all.
    pub open spec fn none() -> IncludesView {
        IncludesView {
            custom: Seq::empty(),
            array: false,
            cstdint: false,
            cstring: false,
            exception: false,
            memory: false,
            string: false,
            type_traits: false,
        }
    }

    /// The lines that ask for the headers: those of the bridge in their order, then those of the
    /// standard library in the order of their names.
    pub open spec fn text(self) -> Seq<char> {
        concat(self.custom.map_values(|path: Seq<char>| custom_line(path)))
            + text_if(self.array, "#include <array>\n"@)
            + text_if(self.cstdint, "#include <cstdint>\n"@)
            + text_if(self.cstring, "#include <cstring>\n"@)
            + text_if(self.exception, "#include <exception>\n"@)
            + text_if(self.memory, "#include <memory>\n"@)
            + text_if(self.string, "#include <string>\n"@)
            + text_if(self.type_traits, "#include <type_traits>\n"@)
    }
}

/// The headers that the generated code needs.
#[derive(Debug)]
pub struct Includes {
    pub custom: Vec<String>,
    pub array: bool,
    pub cstdint: bool,
    pub cstring: bool,
    pub exception: bool,
    pub memory: bool,
    pub string: bool,
    pub type_traits: bool,
}

impl View for Includes {
    type V = IncludesView;

    open spec fn view(&self) -> IncludesView {
        IncludesView {
            custom: views(self.custom@),
            array: self.array,
            cstdint: self.cstdint,
            cstring: self.cstring,
            exception: self.exception,
            memory: self.memory,
            string: self.string,
            type_traits: self.type_traits,
        }
    }
}

/// Appends a number in hexadecimal.
fn push_hex(out: &mut String, n: u32)
    ensures
        final(out)@ == old(out)@ + hex(n as nat),
    decreases n,
{
    if n >= 16 {
        push_hex(out, n / 16);
    }
    let digit: usize = (n % 16) as usize;
    proof {
        reveal_strlit("0123456789abcdef");
    }
    out.append("0123456789abcdef".substring_char(digit, digit + 1));
    proof {
        assert(out@ =~= old(out)@ + hex(n as nat));
    }
}

/// A text as it stands in a string literal.
pub fn escape_default(s: &str) -> (res: String)
    ensures
        res@ == escape(s@),
{
    let chars: Vec<char> = chars(s);
    let mut res = String::new();
    let mut i: usize = 0;
    let ghost parts = s@.map_values(|c: char| escape_char(c));
    while i < chars.len()
        invariant
            chars@ == s@,
            i <= chars.len(),
            parts == s@.map_values(|c: char| escape_char(c)),
            res@ == concat(parts.take(i as int)),
        decreases chars.len() - i,
    {
        let c = chars[i];
        let ghost before = res@;
        if c == '\t' {
            res.append("\\t");
        } else if c == '\r' {
            res.append("\\r");
        } else if c == '\n' {
            res.append("\\n");
        } else if c == '\'' {
            res.append("\\'");
        } else if c == '"' {
            res.append("\\\"");
        } else if c == '\\' {
            res.append("\\\\");
        } else if ' ' <= c && c <= '~' {
            res.append(s.substring_char(i, i + 1));
            proof {
                assert(s@.subrange(i as int, i + 1) =~= seq![c]);
            }
        } else {
            res.append("\\u{");
            push_hex(&mut res, c as u32);
            res.append("}");
            proof {
                assert(res@ =~= before + ("\\u{"@ + hex(c as u32 as nat) + "}"@));
            }
        }
        proof {
            lemma_concat_take(parts, i as int);
        }
        i += 1;
    }
    proof {
        assert(parts.take(i as int) =~= parts);
    }
    res
}

impl Includes {
    /// No header at all.
    pub fn new() -> (includes: Includes)
        ensures
            includes@ == IncludesView::none(),
    {
        Includes {
            custom: Vec::new(),
            array: false,
            cstdint: false,
            cstring: false,
            exception: false,
            memory: false,
            string: false,
            type_traits: false,
        }
    }

    /// Adds a header that the bridge names.
    pub fn insert(&mut self, path: String)
        ensures
            final(self)@ == (IncludesView { custom: old(self)@.custom.push(path@), ..old(self)@ }),
    {
        proof {
            lemma_views_push(self.custom@, path);
        }
        self.custom.push(path);
    }

    /// The lines that ask for the headers.
    pub fn to_string(&self) -> (res: String)
        ensures
            res@ == self@.text(),
    {
        let mut res = String::new();
        let mut i: usize = 0;
        let ghost parts = self@.custom.map_values(|path: Seq<char>| custom_line(path));
        while i < self.custom.len()
            invariant
                i <= self.custom.len(),
                parts == self@.custom.map_values(|path: Seq<char>| custom_line(path)),
                res@ == concat(parts.take(i as int)),
            decreases self.custom.len() - i,
        {
            let path = self.custom[i].as_str();
            let ghost before = res@;
            let chars: Vec<char> = chars(path);
            if chars.len() > 0 && chars[0] == '<' && chars[chars.len() - 1] == '>' {
                res.append("#include ");
                res.append(path);
                res.append("\n");
            } else {
                res.append("#include \"");
                res.append(escape_default(path).as_str());
                res.append("\"\n");
            }
            proof {
                assert(parts[i as int] == custom_line(path@));
                assert(res@ =~= before + custom_line(path@));
                lemma_concat_take(parts, i as int);
            }
            i += 1;
        }
        proof {
            assert(parts.take(i as int) =~= parts);
        }
        let ghost custom = res@;
        if self.array {
            res.append("#include <array>\n");
        }
        if self.cstdint {
            res.append("#include <cstdint>\n");
        }
        if self.cstring {
            res.append("#include <cstring>\n");
        }
        if self.exception {
            res.append("#include <exception>\n");
        }
        if self.memory {
            res.append("#include <memory>\n");
        }
        if self.string {
            res.append("#include <string>\n");
        }
        if self.type_traits {
            res.append("#include <type_traits>\n");
        }
        proof {
            assert(res@ =~= self@.text());
        }
        res
    }
}

}
