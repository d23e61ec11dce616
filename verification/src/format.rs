//! The access-log format: the units of a log line, how a format string is read into units,
//! and how each unit gets its text from the request, from the response and, last, from what
//! is known when the line is written.
use crate::clock::formatted_time;
use crate::clock::REQUEST_TIME_FORMAT;
use crate::clock::Timestamp;
use crate::grammar::at_directive;
use crate::grammar::directive;
use crate::grammar::key_of_length;
use crate::grammar::literal_text;
use crate::grammar::parse;
use crate::grammar::parsed;
use crate::grammar::units_from;
use crate::grammar::units_of;
use crate::text::lowered;
use crate::http::text_of;
use crate::http::HeaderMap;
use crate::http::HttpRequest;
use crate::http::HttpResponse;
use crate::http::WebRequest;
use crate::text::decimal;
use crate::text::push_decimal;
use crate::text::push_str;
use vstd::prelude::*;

verus! {

/// One unit of a log line, as a mathematical value.
pub enum Unit {
    Str(Seq<char>),
    Percent,
    RequestLine,
    RequestTime,
    ResponseStatus,
    ResponseSize,
    Time,
    TimeMillis,
    RemoteAddr,
    UrlPath,
    RequestHeader(Seq<char>),
    ResponseHeader(Seq<char>),
    EnvironHeader(Seq<char>),
}

/// A string of text to be logged: either one of the data fields that the log knows, or
/// literal text. A data field turns into literal text once its value is known.
#[derive(Debug)]
pub enum FormatText {
    Str(String),
    Percent,
    RequestLine,
    RequestTime,
    ResponseStatus,
    ResponseSize,
    Time,
    TimeMillis,
    RemoteAddr,
    UrlPath,
    RequestHeader(String),
    ResponseHeader(String),
    EnvironHeader(String),
}

impl View for FormatText {
    type V = Unit;

    open spec fn view(&self) -> Unit {
        match self {
            FormatText::Str(s) => Unit::Str(s@),
            FormatText::Percent => Unit::Percent,
            FormatText::RequestLine => Unit::RequestLine,
            FormatText::RequestTime => Unit::RequestTime,
            FormatText::ResponseStatus => Unit::ResponseStatus,
            FormatText::ResponseSize => Unit::ResponseSize,
            FormatText::Time => Unit::Time,
            FormatText::TimeMillis => Unit::TimeMillis,
            FormatText::RemoteAddr => Unit::RemoteAddr,
            FormatText::UrlPath => Unit::UrlPath,
            FormatText::RequestHeader(name) => Unit::RequestHeader(name@),
            FormatText::ResponseHeader(name) => Unit::ResponseHeader(name@),
            FormatText::EnvironHeader(name) => Unit::EnvironHeader(name@),
        }
    }
}

impl Clone for FormatText {
    fn clone(&self) -> (copy: Self)
        ensures
            copy@ == self@,
    {
        match self {
            FormatText::Str(s) => FormatText::Str(s.clone()),
            FormatText::Percent => FormatText::Percent,
            FormatText::RequestLine => FormatText::RequestLine,
            FormatText::RequestTime => FormatText::RequestTime,
            FormatText::ResponseStatus => FormatText::ResponseStatus,
            FormatText::ResponseSize => FormatText::ResponseSize,
            FormatText::Time => FormatText::Time,
            FormatText::TimeMillis => FormatText::TimeMillis,
            FormatText::RemoteAddr => FormatText::RemoteAddr,
            FormatText::UrlPath => FormatText::UrlPath,
            FormatText::RequestHeader(name) => FormatText::RequestHeader(name.clone()),
            FormatText::ResponseHeader(name) => FormatText::ResponseHeader(name.clone()),
            FormatText::EnvironHeader(name) => FormatText::EnvironHeader(name.clone()),
        }
    }
}

/// What stands in a log line for a value that is missing or cannot be read as text.
pub open spec fn missing() -> Seq<char> {
    seq!['-']
}

/// The first line of the request: method, path, the query after a `?` where there is one,
/// and the version.
pub open spec fn request_line(req: HttpRequest) -> Seq<char> {
    if req.query@.len() == 0 {
        req.method@ + seq![' '] + req.path@ + seq![' '] + req.version.text()
    } else {
        req.method@ + seq![' '] + req.path@ + seq!['?'] + req.query@ + seq![' ']
            + req.version.text()
    }
}

/// The text of the first header field named `name`; `-` where there is no such field or its
/// value is not text.
pub open spec fn header_text(headers: HeaderMap, name: Seq<char>) -> Seq<char> {
    match headers.value_of(name) {
        Some(value) => if value.is_text() {
            text_of(value.bytes@)
        } else {
            missing()
        },
        None => missing(),
    }
}

/// The address of the peer; `-` where it is not known.
pub open spec fn remote_text(req: HttpRequest) -> Seq<char> {
    match req.remote {
        Some(remote) => remote@,
        None => missing(),
    }
}

/// The unit `u` once the request is known, `now` being the time at which it arrived. The
/// request line, the path, the time, a request header and the peer's address become text.
/// Every other unit stays.
pub open spec fn with_request(u: Unit, now: Timestamp, req: HttpRequest) -> Unit {
    match u {
        Unit::RequestLine => Unit::Str(request_line(req)),
        Unit::UrlPath => Unit::Str(req.path@),
        Unit::RequestTime => Unit::Str(formatted_time(now@, REQUEST_TIME_FORMAT@)),
        Unit::RequestHeader(name) => Unit::Str(header_text(req.headers, name)),
        Unit::RemoteAddr => Unit::Str(remote_text(req)),
        _ => u,
    }
}

/// The unit `u` once the status and the header fields of the response are known.
pub open spec fn with_response(u: Unit, status: u16, headers: HeaderMap) -> Unit {
    match u {
        Unit::ResponseStatus => Unit::Str(decimal(status as nat)),
        Unit::ResponseHeader(name) => Unit::Str(header_text(headers, name)),
        _ => u,
    }
}

/// A unit that a request has filled asks no request for anything more: it is literal text,
/// or one of the units that a request leaves alone. So it stays as it is, whatever request
/// comes after.
pub proof fn request_fills_once(
    u: Unit,
    now: Timestamp,
    req: HttpRequest,
    later: Timestamp,
    other: HttpRequest,
)
    ensures
        !(with_request(u, now, req) is RequestLine),
        !(with_request(u, now, req) is RequestTime),
        !(with_request(u, now, req) is UrlPath),
        !(with_request(u, now, req) is RemoteAddr),
        !(with_request(u, now, req) is RequestHeader),
        with_request(with_request(u, now, req), later, other) == with_request(u, now, req),
{
}

/// A unit that a response has filled asks no response for anything more, and stays as it
/// is, whatever response comes after.
pub proof fn response_fills_once(
    u: Unit,
    status: u16,
    headers: HeaderMap,
    later: u16,
    other: HeaderMap,
)
    ensures
        !(with_response(u, status, headers) is ResponseStatus),
        !(with_response(u, status, headers) is ResponseHeader),
        with_response(with_response(u, status, headers), later, other) == with_response(
            u,
            status,
            headers,
        ),
{
}

/// What a request fills and what a response fills are different units: the order in which
/// the two come does not matter.
pub proof fn request_and_response_commute(
    u: Unit,
    now: Timestamp,
    req: HttpRequest,
    status: u16,
    headers: HeaderMap,
)
    ensures
        with_response(with_request(u, now, req), status, headers) == with_request(
            with_response(u, status, headers),
            now,
            req,
        ),
{
}

/// What only the surroundings of the library can tell at the moment a line is written.
pub struct Outside {
    /// The time that the request took, in seconds, written with six decimals.
    pub seconds: String,
    /// The same time in milliseconds, written with six decimals.
    pub millis: String,
    /// The variables of the environment that are set and hold text: name and value.
    pub environ: Vec<(String, String)>,
}

/// The value of the first variable at or after `from` that is named `name`; `-` where there
/// is none.
pub open spec fn environ_text(environ: Seq<(String, String)>, name: Seq<char>, from: int) -> Seq<
    char,
>
    decreases environ.len() - from,
{
    if from < 0 || from >= environ.len() {
        missing()
    } else if environ[from].0@ == name {
        environ[from].1@
    } else {
        environ_text(environ, name, from + 1)
    }
}

/// The text that the unit `u` contributes to the line: literal text as it is, the size of
/// the response in bytes, the time taken, a variable of the environment. A unit that never
/// got its text from a request or a response contributes nothing.
pub open spec fn rendered(u: Unit, size: usize, outside: Outside) -> Seq<char> {
    match u {
        Unit::Str(s) => s,
        Unit::Percent => seq!['%'],
        Unit::ResponseSize => decimal(size as nat),
        Unit::Time => outside.seconds@,
        Unit::TimeMillis => outside.millis@,
        Unit::EnvironHeader(name) => environ_text(outside.environ@, name, 0),
        _ => Seq::<char>::empty(),
    }
}

fn header_string(headers: &HeaderMap, name: &str) -> (s: String)
    ensures
        s@ == header_text(*headers, name@),
{
    match headers.get(name) {
        Some(value) => match value.to_str() {
            Some(text) => text,
            None => {
                let mut s = String::new();
                s.push('-');
                s
            },
        },
        None => {
            let mut s = String::new();
            s.push('-');
            s
        },
    }
}

impl FormatText {
    /// Gives the unit the text that the request holds for it.
    pub fn render_request<Render>(&mut self, now: Timestamp, req: &WebRequest<Render>)
        ensures
            final(self)@ == with_request(old(self)@, now, req.head()),
    {
        match self {
            FormatText::RequestLine => {
                let mut line = String::new();
                push_str(&mut line, req.method());
                line.push(' ');
                push_str(&mut line, req.path());
                if !req.query_string().is_empty() {
                    line.push('?');
                    push_str(&mut line, req.query_string());
                }
                line.push(' ');
                push_str(&mut line, req.version().as_str());
                assert(line@ == request_line(req.head()));
                *self = FormatText::Str(line);
            },
            FormatText::UrlPath => {
                *self = FormatText::Str(req.path().to_owned());
            },
            FormatText::RequestTime => {
                *self = FormatText::Str(now.request_time());
            },
            FormatText::RequestHeader(name) => {
                let text = header_string(req.headers(), name.as_str());
                *self = FormatText::Str(text);
            },
            FormatText::RemoteAddr => {
                let mut text = String::new();
                match req.remote() {
                    Some(remote) => {
                        push_str(&mut text, remote);
                    },
                    None => {
                        text.push('-');
                    },
                }
                *self = FormatText::Str(text);
            },
            _ => {},
        }
    }

    /// Gives the unit the text that the response holds for it.
    pub fn render_response<B>(&mut self, res: &HttpResponse<B>)
        ensures
            final(self)@ == with_response(old(self)@, res.status, res.headers),
    {
        match self {
            FormatText::ResponseStatus => {
                let mut text = String::new();
                push_decimal(&mut text, res.status as u64);
                *self = FormatText::Str(text);
            },
            FormatText::ResponseHeader(name) => {
                let text = header_string(&res.headers, name.as_str());
                *self = FormatText::Str(text);
            },
            _ => {},
        }
    }

    /// Appends to `out` what the unit contributes to the line.
    pub fn render(&self, out: &mut String, size: usize, outside: &Outside)
        ensures
            final(out)@ == old(out)@ + rendered(self@, size, *outside),
    {
        match self {
            FormatText::Str(s) => {
                push_str(out, s.as_str());
            },
            FormatText::Percent => {
                out.push('%');
            },
            FormatText::ResponseSize => {
                push_decimal(out, size as u64);
            },
            FormatText::Time => {
                push_str(out, outside.seconds.as_str());
            },
            FormatText::TimeMillis => {
                push_str(out, outside.millis.as_str());
            },
            FormatText::EnvironHeader(name) => {
                let mut i: usize = 0;
                while i < outside.environ.len()
                    invariant
                        i <= outside.environ.len(),
                        self@ == Unit::EnvironHeader(name@),
                        environ_text(outside.environ@, name@, 0) == environ_text(
                            outside.environ@,
                            name@,
                            i as int,
                        ),
                        out@ == old(out)@,
                    decreases outside.environ.len() - i,
                {
                    if outside.environ[i].0 == *name {
                        push_str(out, outside.environ[i].1.as_str());
                        return ;
                    }
                    i += 1;
                }
                out.push('-');
            },
            _ => {},
        }
    }
}

/// A formatting style for the log: the units of one line, in order.
#[derive(Debug)]
pub struct Format(pub Vec<FormatText>);

impl View for Format {
    type V = Seq<Unit>;

    open spec fn view(&self) -> Seq<Unit> {
        units_of(self.0@)
    }
}

/// The format of a log line where none is given: the peer's address, the request line in
/// quotes, status and size of the response, the `Referer` and `User-Agent` headers of the
/// request in quotes, and the time taken in seconds.
pub const DEFAULT_FORMAT: &'static str = "%a \"%r\" %s %b \"%{Referer}i\" \"%{User-Agent}i\" %T";

/// The units once the request is known.
pub open spec fn all_with_request(units: Seq<Unit>, now: Timestamp, req: HttpRequest) -> Seq<
    Unit,
> {
    units.map_values(|u: Unit| with_request(u, now, req))
}

/// The units once the status and the header fields of the response are known.
pub open spec fn all_with_response(units: Seq<Unit>, status: u16, headers: HeaderMap) -> Seq<
    Unit,
> {
    units.map_values(|u: Unit| with_response(u, status, headers))
}

/// The line that the units make: what each contributes, one after the other.
pub open spec fn line_of(units: Seq<Unit>, size: usize, outside: Outside) -> Seq<char>
    decreases units.len(),
{
    if units.len() == 0 {
        Seq::<char>::empty()
    } else {
        line_of(units.drop_last(), size, outside) + rendered(units.last(), size, outside)
    }
}

/// The names of the variables of the environment that the units ask for, in order.
pub open spec fn environ_names_of(units: Seq<Unit>) -> Seq<Seq<char>>
    decreases units.len(),
{
    if units.len() == 0 {
        Seq::<Seq<char>>::empty()
    } else {
        match units.last() {
            Unit::EnvironHeader(name) => environ_names_of(units.drop_last()).push(name),
            _ => environ_names_of(units.drop_last()),
        }
    }
}

/// The units of the default format, one by one.
pub proof fn default_units()
    ensures
        parsed(DEFAULT_FORMAT@) == seq![
            Unit::RemoteAddr,
            Unit::Str(seq![' ', '"']),
            Unit::RequestLine,
            Unit::Str(seq!['"', ' ']),
            Unit::ResponseStatus,
            Unit::Str(seq![' ']),
            Unit::ResponseSize,
            Unit::Str(seq![' ', '"']),
            Unit::RequestHeader(seq!['r', 'e', 'f', 'e', 'r', 'e', 'r']),
            Unit::Str(seq!['"', ' ', '"']),
            Unit::RequestHeader(seq!['u', 's', 'e', 'r', '-', 'a', 'g', 'e', 'n', 't']),
            Unit::Str(seq!['"', ' ']),
            Unit::Time,
        ],
{
    let s = DEFAULT_FORMAT@;
    reveal_strlit("%a \"%r\" %s %b \"%{Referer}i\" \"%{User-Agent}i\" %T");
    key_of_length(s, 17, 7);
    key_of_length(s, 31, 10);
    at_directive(s, 0, 0);
    literal_text(s, 2, 2, 4);
    at_directive(s, 2, 4);
    literal_text(s, 6, 6, 8);
    at_directive(s, 6, 8);
    literal_text(s, 10, 10, 11);
    at_directive(s, 10, 11);
    literal_text(s, 13, 13, 15);
    at_directive(s, 13, 15);
    literal_text(s, 26, 26, 29);
    at_directive(s, 26, 29);
    literal_text(s, 43, 43, 45);
    at_directive(s, 43, 45);
    assert(s.subrange(2, 4) == seq![' ', '"']);
    assert(s.subrange(6, 8) == seq!['"', ' ']);
    assert(s.subrange(10, 11) == seq![' ']);
    assert(s.subrange(13, 15) == seq![' ', '"']);
    assert(s.subrange(26, 29) == seq!['"', ' ', '"']);
    assert(s.subrange(43, 45) == seq!['"', ' ']);
    assert(lowered(s.subrange(17, 24)) == seq!['r', 'e', 'f', 'e', 'r', 'e', 'r']);
    assert(lowered(s.subrange(31, 41)) == seq!['u', 's', 'e', 'r', '-', 'a', 'g', 'e', 'n', 't']);
}

impl Default for Format {
    /// The default formatting style.
    fn default() -> (f: Format)
        ensures
            f@ == parsed(DEFAULT_FORMAT@),
    {
        Format::new(DEFAULT_FORMAT)
    }
}

impl Clone for Format {
    fn clone(&self) -> (copy: Self)
        ensures
            copy@ == self@,
    {
        let mut units: Vec<FormatText> = Vec::new();
        let mut i: usize = 0;
        while i < self.0.len()
            invariant
                i <= self.0.len(),
                units_of(units@) == units_of(self.0@).take(i as int),
            decreases self.0.len() - i,
        {
            units.push(self.0[i].clone());
            assert(units_of(self.0@).take(i + 1) == units_of(self.0@).take(i as int).push(
                self.0@[i as int]@,
            ));
            i += 1;
        }
        Format(units)
    }
}

impl Format {
    /// Reads a format string. Every string is a format: what is no directive is literal text.
    pub fn new(s: &str) -> (f: Format)
        ensures
            f@ == parsed(s@),
    {
        Format(parse(s))
    }

    /// Gives every unit the text that the request holds for it.
    pub fn render_request<Render>(&mut self, now: Timestamp, req: &WebRequest<Render>)
        ensures
            final(self)@ == all_with_request(old(self)@, now, req.head()),
    {
        let mut i: usize = 0;
        while i < self.0.len()
            invariant
                i <= self.0.len(),
                self.0.len() == old(self).0.len(),
                forall|j: int|
                    0 <= j < i ==> (#[trigger] self.0@[j])@ == with_request(
                        old(self).0@[j]@,
                        now,
                        req.head(),
                    ),
                forall|j: int| i <= j < self.0.len() ==> #[trigger] self.0@[j] == old(self).0@[j],
            decreases self.0.len() - i,
        {
            self.0[i].render_request(now, req);
            i += 1;
        }
    }

    /// Gives every unit the text that the response holds for it.
    pub fn render_response<B>(&mut self, res: &HttpResponse<B>)
        ensures
            final(self)@ == all_with_response(old(self)@, res.status, res.headers),
    {
        let mut i: usize = 0;
        while i < self.0.len()
            invariant
                i <= self.0.len(),
                self.0.len() == old(self).0.len(),
                forall|j: int|
                    0 <= j < i ==> (#[trigger] self.0@[j])@ == with_response(
                        old(self).0@[j]@,
                        res.status,
                        res.headers,
                    ),
                forall|j: int| i <= j < self.0.len() ==> #[trigger] self.0@[j] == old(self).0@[j],
            decreases self.0.len() - i,
        {
            self.0[i].render_response(res);
            i += 1;
        }
    }

    /// The log line: what the units contribute, one after the other.
    pub fn render(&self, size: usize, outside: &Outside) -> (line: String)
        ensures
            line@ == line_of(self@, size, *outside),
    {
        let mut line = String::new();
        let mut i: usize = 0;
        while i < self.0.len()
            invariant
                i <= self.0.len(),
                line@ == line_of(self@.take(i as int), size, *outside),
            decreases self.0.len() - i,
        {
            self.0[i].render(&mut line, size, outside);
            assert(self@.take(i + 1).drop_last() == self@.take(i as int));
            i += 1;
        }
        assert(self@.take(i as int) == self@);
        line
    }

    /// The names of the variables of the environment that the line will ask for.
    pub fn environ_names(&self) -> (names: Vec<String>)
        ensures
            names@.map_values(|n: String| n@) == environ_names_of(self@),
    {
        let mut names: Vec<String> = Vec::new();
        let mut i: usize = 0;
        while i < self.0.len()
            invariant
                i <= self.0.len(),
                names@.map_values(|n: String| n@) == environ_names_of(self@.take(i as int)),
            decreases self.0.len() - i,
        {
            assert(self@.take(i + 1).drop_last() == self@.take(i as int));
            match &self.0[i] {
                FormatText::EnvironHeader(name) => {
                    names.push(name.clone());
                },
                _ => {},
            }
            i += 1;
        }
        assert(self@.take(i as int) == self@);
        names
    }
}

} // verus!
