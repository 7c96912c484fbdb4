//! Character sequences: the string operations that the generator relies on, each stated as a
//! spec function and computed by an executable one.

use vstd::prelude::*;

verus! {

/// The contents of a vector of strings.
pub open spec fn views(strings: Seq<String>) -> Seq<Seq<char>> {
    Seq::new(strings.len(), |i: int| strings[i]@)
}

/// `text` where `condition` holds, nothing otherwise.
pub open spec fn text_if(condition: bool, text: Seq<char>) -> Seq<char> {
    if condition {
        text
    } else {
        Seq::empty()
    }
}

/// All of `parts`, one after the other.
pub open spec fn concat<A>(parts: Seq<Seq<A>>) -> Seq<A>
    decreases parts.len(),
{
    if parts.len() == 0 {
        Seq::empty()
    } else {
        concat(parts.drop_last()) + parts.last()
    }
}

/// All of `parts`, with `, ` between neighbours.
pub open spec fn comma_separated(parts: Seq<Seq<char>>) -> Seq<char>
    decreases parts.len(),
{
    if parts.len() == 0 {
        Seq::empty()
    } else {
        comma_separated(parts.drop_last()) + text_if(parts.len() > 1, ", "@) + parts.last()
    }
}

/// The position of the first line feed in `s`, or its length if there is none.
pub open spec fn line_end(s: Seq<char>) -> nat
    decreases s.len(),
{
    if s.len() == 0 || s[0] == '\n' {
        0
    } else {
        1 + line_end(s.skip(1))
    }
}

/// `s` without the carriage return at its end, if it has one.
pub open spec fn strip_carriage_return(s: Seq<char>) -> Seq<char> {
    if s.len() > 0 && s.last() == '\r' {
        s.drop_last()
    } else {
        s
    }
}

/// The lines of `s`. A line ends with a line feed or a carriage return and a line feed, neither
/// of which belongs to it; the last line may lack its end.
pub open spec fn lines(s: Seq<char>) -> Seq<Seq<char>>
    decreases s.len(),
{
    let end = line_end(s) as int;
    if s.len() == 0 {
        Seq::empty()
    } else if end >= s.len() {
        seq![s]
    } else {
        seq![strip_carriage_return(s.take(end))] + lines(s.skip(end + 1))
    }
}

proof fn lemma_line_end(s: Seq<char>)
    ensures
        0 <= line_end(s) <= s.len(),
        line_end(s) < s.len() ==> s[line_end(s) as int] == '\n',
        forall|i: int| 0 <= i < line_end(s) ==> s[i] != '\n',
    decreases s.len(),
{
    if s.len() > 0 && s[0] != '\n' {
        lemma_line_end(s.skip(1));
        assert forall|i: int| 0 <= i < line_end(s) implies s[i] != '\n' by {
            if i > 0 {
                assert(s[i] == s.skip(1)[i - 1]);
            }
        }
    }
}

proof fn lemma_line_end_unique(s: Seq<char>, end: int)
    requires
        0 <= end <= s.len(),
        end < s.len() ==> s[end] == '\n',
        forall|i: int| 0 <= i < end ==> s[i] != '\n',
    ensures
        line_end(s) == end,
{
    lemma_line_end(s);
}

/// White space as Unicode defines it.
pub open spec fn is_whitespace(c: char) -> bool {
    ||| '\u{9}' <= c <= '\u{d}'
    ||| c == ' ' || c == '\u{85}' || c == '\u{a0}' || c == '\u{1680}'
    ||| '\u{2000}' <= c <= '\u{200a}'
    ||| c == '\u{2028}' || c == '\u{2029}' || c == '\u{202f}' || c == '\u{205f}' || c == '\u{3000}'
}

/// `s` without the white space at its start.
pub open spec fn trim_start(s: Seq<char>) -> Seq<char>
    decreases s.len(),
{
    if s.len() > 0 && is_whitespace(s[0]) {
        trim_start(s.skip(1))
    } else {
        s
    }
}

/// Whether `s` reads `pattern` from position `at` on.
pub open spec fn matches_at(s: Seq<char>, pattern: Seq<char>, at: int) -> bool {
    &&& 0 <= at
    &&& at + pattern.len() <= s.len()
    &&& s.subrange(at, at + pattern.len()) == pattern
}

/// Whether the first thing in `s` after its white space is `//`.
pub open spec fn is_comment(s: Seq<char>) -> bool {
    matches_at(trim_start(s), "//"@, 0)
}

/// `s` with each `::` replaced by `$`, from left to right.
pub open spec fn dollars_for_colons(s: Seq<char>) -> Seq<char>
    decreases s.len(),
{
    if s.len() < 2 {
        s
    } else if s[0] == ':' && s[1] == ':' {
        seq!['$'] + dollars_for_colons(s.skip(2))
    } else {
        seq![s[0]] + dollars_for_colons(s.skip(1))
    }
}

/// Nothing in front changes nothing.
pub broadcast proof fn lemma_empty_left(s: Seq<char>)
    ensures
        #[trigger] (Seq::<char>::empty() + s) == s,
{
    assert(Seq::<char>::empty() + s =~= s);
}

/// Nothing behind changes nothing.
pub broadcast proof fn lemma_empty_right(s: Seq<char>)
    ensures
        #[trigger] (s + Seq::<char>::empty()) == s,
{
    assert(s + Seq::<char>::empty() =~= s);
}

/// Three texts may be joined from either end.
pub broadcast proof fn lemma_joined(a: Seq<char>, b: Seq<char>, c: Seq<char>)
    ensures
        #[trigger] (a + (b + c)) == a + b + c,
{
    assert(a + (b + c) =~= a + b + c);
}

/// Texts that are made of the same pieces in the same order are the same.
pub broadcast group group_joined {
    lemma_joined,
    lemma_empty_left,
    lemma_empty_right,
}

/// The view of a list with one string more.
pub proof fn lemma_views_push(strings: Seq<String>, s: String)
    ensures
        views(strings.push(s)) == views(strings).push(s@),
{
    assert(views(strings.push(s)) =~= views(strings).push(s@));
}

/// Taking one more part appends that part.
pub proof fn lemma_concat_take<A>(parts: Seq<Seq<A>>, n: int)
    requires
        0 <= n < parts.len(),
    ensures
        concat(parts.take(n + 1)) == concat(parts.take(n)) + parts[n],
{
    assert(parts.take(n + 1).drop_last() =~= parts.take(n));
}

/// Taking one more part appends that part, after a comma unless it is the first.
pub proof fn lemma_comma_separated_take(parts: Seq<Seq<char>>, n: int)
    requires
        0 <= n < parts.len(),
    ensures
        comma_separated(parts.take(n + 1)) == comma_separated(parts.take(n)) + text_if(n > 0, ", "@)
            + parts[n],
{
    assert(parts.take(n + 1).drop_last() =~= parts.take(n));
}

/// The characters of a string, for access by position.
pub fn chars(s: &str) -> (res: Vec<char>)
    ensures
        res@ == s@,
{
    let mut res: Vec<char> = Vec::new();
    for c in it: s.chars()
        invariant
            res@ == it.seq().take(it.index() as int),
            it.seq() == s@,
    {
        proof {
            assert(it.seq().take(it.index() + 1) =~= it.seq().take(it.index() as int).push(c));
        }
        res.push(c);
    }
    proof {
        assert(s@.take(s@.len() as int) =~= s@);
    }
    res
}

/// Whether two strings hold the same characters.
pub fn same(a: &str, b: &str) -> (res: bool)
    ensures
        res == (a@ == b@),
{
    a.to_owned() == b.to_owned()
}

/// The lines of a string.
pub fn split_lines(s: &str) -> (res: Vec<String>)
    ensures
        views(res@) == lines(s@),
{
    let chars: Vec<char> = chars(s);
    let mut res: Vec<String> = Vec::new();
    let mut start: usize = 0;
    let mut i: usize = 0;
    proof {
        assert(s@.skip(0) =~= s@);
        assert(views(res@) + lines(s@.skip(0)) =~= lines(s@));
    }
    while i < chars.len()
        invariant
            chars@ == s@,
            start <= i <= chars.len(),
            forall|j: int| start <= j < i ==> s@[j] != '\n',
            views(res@) + lines(s@.skip(start as int)) == lines(s@),
        decreases chars.len() - i,
    {
        if chars[i] == '\n' {
            let end: usize = if i > start && chars[i - 1] == '\r' {
                i - 1
            } else {
                i
            };
            let line = s.substring_char(start, end).to_owned();
            proof {
                let rest = s@.skip(start as int);
                lemma_line_end_unique(rest, i - start);
                assert(line@ =~= strip_carriage_return(rest.take(i - start)));
                assert(rest.skip(i - start + 1) =~= s@.skip(i + 1));
                lemma_views_push(res@, line);
                assert(views(res@).push(line@) + lines(s@.skip(i + 1)) =~= views(res@) + (
                seq![line@] + lines(s@.skip(i + 1))));
            }
            res.push(line);
            start = i + 1;
        }
        i += 1;
    }
    proof {
        let rest = s@.skip(start as int);
        lemma_line_end_unique(rest, rest.len() as int);
    }
    if start < chars.len() {
        let line = s.substring_char(start, chars.len()).to_owned();
        proof {
            assert(line@ =~= s@.skip(start as int));
            lemma_views_push(res@, line);
            assert(views(res@).push(line@) =~= views(res@) + seq![line@]);
        }
        res.push(line);
    } else {
        proof {
            assert(views(res@) + lines(s@.skip(start as int)) =~= views(res@));
        }
    }
    res
}

/// Whether a character is white space.
pub fn whitespace(c: char) -> (res: bool)
    ensures
        res == is_whitespace(c),
{
    ('\u{9}' <= c && c <= '\u{d}') || c == ' ' || c == '\u{85}' || c == '\u{a0}' || c == '\u{1680}'
        || ('\u{2000}' <= c && c <= '\u{200a}') || c == '\u{2028}' || c == '\u{2029}' || c
        == '\u{202f}' || c == '\u{205f}' || c == '\u{3000}'
}

/// Whether the first thing on a line after its white space is `//`.
pub fn comment(s: &str) -> (res: bool)
    ensures
        res == is_comment(s@),
{
    let chars: Vec<char> = chars(s);
    let mut i: usize = 0;
    proof {
        assert(s@.skip(0) =~= s@);
    }
    while i < chars.len() && whitespace(chars[i])
        invariant
            chars@ == s@,
            i <= chars.len(),
            trim_start(s@.skip(i as int)) == trim_start(s@),
        decreases chars.len() - i,
    {
        proof {
            assert(s@.skip(i as int).skip(1) =~= s@.skip(i + 1));
        }
        i += 1;
    }
    proof {
        let rest = s@.skip(i as int);
        assert(trim_start(s@) == rest);
        reveal_strlit("//");
        if rest.len() >= 2 && rest[0] == '/' && rest[1] == '/' {
            assert(rest.subrange(0, 2) =~= "//"@);
        } else if rest.len() >= 2 {
            assert(rest.subrange(0, 2)[0] == rest[0]);
            assert(rest.subrange(0, 2)[1] == rest[1]);
        }
    }
    chars.len() - i >= 2 && chars[i] == '/' && chars[i + 1] == '/'
}

/// A string with each `::` replaced by `$`, from left to right.
pub fn replace_colons(s: &str) -> (res: String)
    ensures
        res@ == dollars_for_colons(s@),
{
    let chars: Vec<char> = chars(s);
    let mut res = String::new();
    let mut i: usize = 0;
    proof {
        assert(s@.skip(0) =~= s@);
        assert(res@ + dollars_for_colons(s@) =~= dollars_for_colons(s@));
    }
    while i < chars.len()
        invariant
            chars@ == s@,
            i <= chars.len(),
            res@ + dollars_for_colons(s@.skip(i as int)) == dollars_for_colons(s@),
        decreases chars.len() - i,
    {
        let ghost rest = s@.skip(i as int);
        let ghost before = res@;
        if chars.len() - i >= 2 && chars[i] == ':' && chars[i + 1] == ':' {
            res.append("$");
            i += 2;
            proof {
                reveal_strlit("$");
                assert("$"@ =~= seq!['$']);
                assert(rest.skip(2) =~= s@.skip(i as int));
                assert(before + "$"@ + dollars_for_colons(s@.skip(i as int)) =~= before + (seq!['$']
                    + dollars_for_colons(s@.skip(i as int))));
            }
        } else {
            res.append(s.substring_char(i, i + 1));
            i += 1;
            proof {
                assert(rest.skip(1) =~= s@.skip(i as int));
                assert(dollars_for_colons(rest) =~= seq![rest[0]] + dollars_for_colons(
                    rest.skip(1),
                ));
                assert(res@ =~= before.push(rest[0]));
                assert(res@ + dollars_for_colons(s@.skip(i as int)) =~= before + (seq![rest[0]]
                    + dollars_for_colons(s@.skip(i as int))));
            }
        }
    }
    proof {
        assert(res@ + dollars_for_colons(s@.skip(i as int)) =~= res@);
    }
    res
}

}
