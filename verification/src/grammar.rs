//! How a format string is read into units.
//!
//! A directive starts at a `%`. `%{key}i`, `%{key}o` and `%{key}e`, with a key of one or
//! more letters, digits, `-` or `_`, name a request header, a response header and a variable
//! of the environment. Otherwise `%` with one of `a t r s b U T D` after it names a data
//! field, `%P` stands for the letter `P`, and a `%` followed by anything else stands for no
//! text at all: what follows it is read on as ordinary text. Text between directives is
//! literal.
use crate::format::FormatText;
use crate::format::Unit;
use crate::text::chars_of;
use crate::text::lower_char;
use crate::text::lowered;
use crate::text::string_of;
use vstd::prelude::*;

verus! {

/// Whether `c` may stand in the key of a header directive.
pub open spec fn key_char(c: char) -> bool {
    ('A' <= c && c <= 'Z') || ('a' <= c && c <= 'z') || ('0' <= c && c <= '9') || c == '-' || c
        == '_'
}

/// The number of key characters that follow one another from `from` on.
pub open spec fn key_run(s: Seq<char>, from: int) -> int
    decreases s.len() - from,
{
    if 0 <= from < s.len() && key_char(s[from]) {
        1 + key_run(s, from + 1)
    } else {
        0
    }
}

/// The header directive that starts with the `%` at `at`, and its length. The name of a
/// header is kept in lower case, that of a variable as written.
pub open spec fn header_directive(s: Seq<char>, at: int) -> Option<(Unit, int)> {
    let k = key_run(s, at + 2);
    if at + 1 < s.len() && s[at + 1] == '{' && k > 0 && at + 3 + k < s.len() && s[at + 2 + k]
        == '}' {
        let key = s.subrange(at + 2, at + 2 + k);
        let kind = s[at + 3 + k];
        if kind == 'i' {
            Some((Unit::RequestHeader(lowered(key)), k + 4))
        } else if kind == 'o' {
            Some((Unit::ResponseHeader(lowered(key)), k + 4))
        } else if kind == 'e' {
            Some((Unit::EnvironHeader(key), k + 4))
        } else {
            None
        }
    } else {
        None
    }
}

/// The unit that the letter `c` names after a `%`.
pub open spec fn field(c: char) -> Option<Unit> {
    if c == 'a' {
        Some(Unit::RemoteAddr)
    } else if c == 't' {
        Some(Unit::RequestTime)
    } else if c == 'r' {
        Some(Unit::RequestLine)
    } else if c == 's' {
        Some(Unit::ResponseStatus)
    } else if c == 'b' {
        Some(Unit::ResponseSize)
    } else if c == 'U' {
        Some(Unit::UrlPath)
    } else if c == 'T' {
        Some(Unit::Time)
    } else if c == 'D' {
        Some(Unit::TimeMillis)
    } else if c == 'P' {
        Some(Unit::Str(seq!['P']))
    } else {
        None
    }
}

/// The directive that starts with the `%` at `at`: its unit and its length.
pub open spec fn directive(s: Seq<char>, at: int) -> (Unit, int) {
    match header_directive(s, at) {
        Some(d) => d,
        None => if at + 1 < s.len() && field(s[at + 1]) is Some {
            (field(s[at + 1])->0, 2)
        } else {
            (Unit::Str(Seq::<char>::empty()), 1)
        },
    }
}

/// The literal text `s[from..to]` as a unit; nothing where it is empty.
pub open spec fn literal(s: Seq<char>, from: int, to: int) -> Seq<Unit> {
    if from < to {
        seq![Unit::Str(s.subrange(from, to))]
    } else {
        Seq::<Unit>::empty()
    }
}

/// The units of `s` from `at` on, where the text from `start` up to `at` is literal text
/// that has not been closed yet.
pub open spec fn units_from(s: Seq<char>, start: int, at: int) -> Seq<Unit>
    decreases s.len() - at,
{
    if at < 0 || at >= s.len() {
        literal(s, start, s.len() as int)
    } else if s[at] == '%' {
        let d = directive(s, at);
        if d.1 >= 1 && at + d.1 <= s.len() {
            literal(s, start, at).push(d.0) + units_from(s, at + d.1, at + d.1)
        } else {
            Seq::<Unit>::empty()
        }
    } else {
        units_from(s, start, at + 1)
    }
}

/// The units that the format string `s` stands for.
pub open spec fn parsed(s: Seq<char>) -> Seq<Unit> {
    units_from(s, 0, 0)
}

/// A directive is at least the `%` long and ends within the text.
pub proof fn directive_within(s: Seq<char>, at: int)
    requires
        0 <= at < s.len(),
    ensures
        1 <= directive(s, at).1,
        at + directive(s, at).1 <= s.len(),
{
}

/// Text without a `%` is passed over: the units from its start are those from its end.
pub proof fn literal_text(s: Seq<char>, start: int, from: int, to: int)
    requires
        0 <= from <= to <= s.len(),
        forall|i: int| from <= i < to ==> s[i] != '%',
    ensures
        units_from(s, start, from) == units_from(s, start, to),
    decreases to - from,
{
    if from < to {
        literal_text(s, start, from + 1, to);
    }
}

/// At a `%` the literal text before it is closed, the directive gives its unit, and the
/// reading goes on behind the directive.
pub proof fn at_directive(s: Seq<char>, start: int, at: int)
    requires
        0 <= at < s.len(),
        s[at] == '%',
    ensures
        units_from(s, start, at) == literal(s, start, at).push(directive(s, at).0) + units_from(
            s,
            at + directive(s, at).1,
            at + directive(s, at).1,
        ),
{
    directive_within(s, at);
}

/// A key is as long as the key characters reach.
pub proof fn key_of_length(s: Seq<char>, from: int, k: int)
    requires
        0 <= from,
        0 <= k,
        from + k <= s.len(),
        forall|i: int| from <= i < from + k ==> key_char(s[i]),
        from + k < s.len() ==> !key_char(s[from + k]),
    ensures
        key_run(s, from) == k,
    decreases k,
{
    if k > 0 {
        key_of_length(s, from + 1, k - 1);
    }
}

/// A format string without a `%` is one piece of literal text, or nothing where it is empty.
pub proof fn plain_text_is_literal(s: Seq<char>)
    requires
        forall|i: int| 0 <= i < s.len() ==> s[i] != '%',
    ensures
        parsed(s) == literal(s, 0, s.len() as int),
{
    literal_text(s, 0, 0, s.len() as int);
}

fn is_key_char(c: char) -> (b: bool)
    ensures
        b == key_char(c),
{
    ('A' <= c && c <= 'Z') || ('a' <= c && c <= 'z') || ('0' <= c && c <= '9') || c == '-' || c
        == '_'
}

fn count_key(s: &Vec<char>, from: usize) -> (k: usize)
    requires
        from <= s.len(),
    ensures
        k == key_run(s@, from as int),
        from + k <= s.len(),
{
    let mut k: usize = 0;
    while from + k < s.len() && is_key_char(s[from + k])
        invariant
            from + k <= s.len(),
            key_run(s@, from as int) == k + key_run(s@, from + k),
        decreases s.len() - from - k,
    {
        k += 1;
    }
    k
}

fn lowered_string(s: &Vec<char>, from: usize, to: usize) -> (l: String)
    requires
        from <= to <= s.len(),
    ensures
        l@ == lowered(s@.subrange(from as int, to as int)),
{
    let mut l = String::new();
    let mut i: usize = from;
    while i < to
        invariant
            from <= i <= to <= s.len(),
            l@ == lowered(s@.subrange(from as int, i as int)),
        decreases to - i,
    {
        l.push(lower_char(s[i]));
        i += 1;
    }
    l
}

fn read_header(s: &Vec<char>, at: usize) -> (d: Option<(FormatText, usize)>)
    requires
        at < s.len(),
    ensures
        match d {
            Some(found) => header_directive(s@, at as int) == Some((found.0@, found.1 as int)),
            None => header_directive(s@, at as int) is None,
        },
{
    if s.len() - at < 2 || s[at + 1] != '{' {
        return None;
    }
    let k = count_key(s, at + 2);
    if k == 0 || s.len() - at - 2 - k < 2 || s[at + 2 + k] != '}' {
        return None;
    }
    let kind = s[at + 3 + k];
    if kind == 'i' {
        Some((FormatText::RequestHeader(lowered_string(s, at + 2, at + 2 + k)), k + 4))
    } else if kind == 'o' {
        Some((FormatText::ResponseHeader(lowered_string(s, at + 2, at + 2 + k)), k + 4))
    } else if kind == 'e' {
        Some((FormatText::EnvironHeader(string_of(s, at + 2, at + 2 + k)), k + 4))
    } else {
        None
    }
}

fn read_field(c: char) -> (f: Option<FormatText>)
    ensures
        match f {
            Some(found) => field(c) == Some(found@),
            None => field(c) is None,
        },
{
    if c == 'a' {
        Some(FormatText::RemoteAddr)
    } else if c == 't' {
        Some(FormatText::RequestTime)
    } else if c == 'r' {
        Some(FormatText::RequestLine)
    } else if c == 's' {
        Some(FormatText::ResponseStatus)
    } else if c == 'b' {
        Some(FormatText::ResponseSize)
    } else if c == 'U' {
        Some(FormatText::UrlPath)
    } else if c == 'T' {
        Some(FormatText::Time)
    } else if c == 'D' {
        Some(FormatText::TimeMillis)
    } else if c == 'P' {
        let mut p = String::new();
        p.push('P');
        Some(FormatText::Str(p))
    } else {
        None
    }
}

/// Reads the directive that starts with the `%` at `at`.
pub fn read_directive(s: &Vec<char>, at: usize) -> (d: (FormatText, usize))
    requires
        at < s.len(),
    ensures
        d.0@ == directive(s@, at as int).0,
        d.1 == directive(s@, at as int).1,
        1 <= d.1,
        at + d.1 <= s.len(),
{
    match read_header(s, at) {
        Some(found) => found,
        None => {
            if s.len() - at >= 2 {
                match read_field(s[at + 1]) {
                    Some(unit) => {
                        return (unit, 2);
                    },
                    None => {},
                }
            }
            (FormatText::Str(String::new()), 1)
        },
    }
}

/// The units of a list of `FormatText`s.
pub open spec fn units_of(texts: Seq<FormatText>) -> Seq<Unit> {
    texts.map_values(|t: FormatText| t@)
}

/// Reads the format string `s` into units.
pub fn parse(s: &str) -> (units: Vec<FormatText>)
    ensures
        units_of(units@) == parsed(s@),
{
    let chars = chars_of(s);
    let mut results: Vec<FormatText> = Vec::new();
    let mut start: usize = 0;
    let mut at: usize = 0;
    while at < chars.len()
        invariant
            chars@ == s@,
            start <= at <= chars.len(),
            parsed(s@) == units_of(results@) + units_from(s@, start as int, at as int),
        decreases chars.len() - at,
    {
        if chars[at] == '%' {
            if start != at {
                results.push(FormatText::Str(string_of(&chars, start, at)));
            }
            let d = read_directive(&chars, at);
            results.push(d.0);
            at = at + d.1;
            start = at;
        } else {
            at = at + 1;
        }
    }
    if start != chars.len() {
        results.push(FormatText::Str(string_of(&chars, start, chars.len())));
    }
    results
}

} // verus!
