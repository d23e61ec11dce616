//! The request and response envelopes, held as plain values.
//!
//! A request is a head (method, target, version, header fields, peer) and a payload that is
//! handed on separately; a response is a status, header fields and a body. Header names are
//! found without regard to the case of ASCII letters.
use crate::text::chars_of;
use crate::text::eq_ignore_case;
use crate::text::lowered;
use std::marker::PhantomData;
use vstd::prelude::*;
use vstd::string::StrSliceExecFns;
use vstd::string::StringSliceAdditionalSpecFns;

verus! {

/// The body of a response that a handler or an error renderer produced.
pub type Body = Vec<u8>;

/// The protocol version of a request.
#[derive(Clone, Copy, Debug)]
pub enum Version {
    Http09,
    Http10,
    Http11,
    Http2,
    Http3,
}

impl Version {
    /// The name of the version as it is written in a request line.
    pub open spec fn text(self) -> Seq<char> {
        match self {
            Version::Http09 => "HTTP/0.9"@,
            Version::Http10 => "HTTP/1.0"@,
            Version::Http11 => "HTTP/1.1"@,
            Version::Http2 => "HTTP/2.0"@,
            Version::Http3 => "HTTP/3.0"@,
        }
    }

    pub fn as_str(&self) -> (s: &'static str)
        ensures
            s@ == self.text(),
    {
        match self {
            Version::Http09 => "HTTP/0.9",
            Version::Http10 => "HTTP/1.0",
            Version::Http11 => "HTTP/1.1",
            Version::Http2 => "HTTP/2.0",
            Version::Http3 => "HTTP/3.0",
        }
    }
}

/// Whether `b` may stand in a header value that is read as text: a tab or a printable
/// ASCII character.
pub open spec fn visible(b: u8) -> bool {
    b == 9 || (32 <= b && b < 127)
}

/// The characters that the bytes of a textual header value stand for.
pub open spec fn text_of(bytes: Seq<u8>) -> Seq<char> {
    bytes.map_values(|b: u8| b as char)
}

/// The value of one header field: any bytes.
pub struct HeaderValue {
    pub bytes: Vec<u8>,
}

impl HeaderValue {
    pub fn new(bytes: Vec<u8>) -> (v: Self)
        ensures
            v.bytes == bytes,
    {
        HeaderValue { bytes }
    }

    /// The value whose bytes are the UTF-8 encoding of `s`.
    pub fn from_text(s: &str) -> (v: Self)
        ensures
            v.bytes@ == s.spec_bytes(),
    {
        HeaderValue { bytes: s.as_bytes_vec() }
    }

    /// Whether every byte of the value is visible.
    pub open spec fn is_text(&self) -> bool {
        forall|i: int| 0 <= i < self.bytes@.len() ==> visible(#[trigger] self.bytes@[i])
    }

    /// The value as text, where all of it is visible.
    pub fn to_str(&self) -> (t: Option<String>)
        ensures
            self.is_text() ==> t is Some && t->0@ == text_of(self.bytes@),
            !self.is_text() ==> t is None,
    {
        let mut s = String::new();
        let mut i: usize = 0;
        while i < self.bytes.len()
            invariant
                i <= self.bytes.len(),
                forall|j: int| 0 <= j < i ==> visible(#[trigger] self.bytes@[j]),
                s@ == text_of(self.bytes@.take(i as int)),
            decreases self.bytes.len() - i,
        {
            let b = self.bytes[i];
            if !(b == 9 || (32 <= b && b < 127)) {
                return None;
            }
            s.push(b as char);
            i += 1;
        }
        Some(s)
    }
}

/// The index of the first field at or after `from` whose name is `name`, the case of ASCII
/// letters apart; the number of fields where there is none.
pub open spec fn position(entries: Seq<(String, HeaderValue)>, name: Seq<char>, from: int) -> int
    decreases entries.len() - from,
{
    if from < 0 || from >= entries.len() {
        entries.len() as int
    } else if lowered(entries[from].0@) == lowered(name) {
        from
    } else {
        position(entries, name, from + 1)
    }
}

/// Header fields in the order in which they were added.
pub struct HeaderMap {
    pub entries: Vec<(String, HeaderValue)>,
}

impl HeaderMap {
    pub fn new() -> (m: Self)
        ensures
            m.entries@ == Seq::<(String, HeaderValue)>::empty(),
    {
        HeaderMap { entries: Vec::new() }
    }

    /// Adds a field after those already there.
    pub fn append(&mut self, name: &str, value: HeaderValue)
        ensures
            final(self).entries@.len() == old(self).entries@.len() + 1,
            final(self).entries@.take(old(self).entries@.len() as int) == old(self).entries@,
            final(self).entries@.last().0@ == name@,
            final(self).entries@.last().1 == value,
    {
        let owned = name.to_owned();
        self.entries.push((owned, value));
    }

    /// The value of the first field named `name`, the case of ASCII letters apart.
    pub open spec fn value_of(&self, name: Seq<char>) -> Option<HeaderValue> {
        let i = position(self.entries@, name, 0);
        if i < self.entries@.len() {
            Some(self.entries@[i].1)
        } else {
            None
        }
    }

    pub fn get(&self, name: &str) -> (v: Option<&HeaderValue>)
        ensures
            match v {
                Some(found) => self.value_of(name@) == Some(*found),
                None => self.value_of(name@) is None,
            },
    {
        let wanted = chars_of(name);
        let mut i: usize = 0;
        while i < self.entries.len()
            invariant
                i <= self.entries.len(),
                wanted@ == name@,
                position(self.entries@, name@, 0) == position(self.entries@, name@, i as int),
            decreases self.entries.len() - i,
        {
            let have = chars_of(self.entries[i].0.as_str());
            if eq_ignore_case(&have, &wanted) {
                return Some(&self.entries[i].1);
            }
            i += 1;
        }
        None
    }
}

/// The head of a request: everything but the payload.
pub struct HttpRequest {
    pub method: String,
    pub path: String,
    pub query: String,
    pub version: Version,
    pub headers: HeaderMap,
    /// The address of the peer, where it is known.
    pub remote: Option<String>,
}

impl HttpRequest {
    /// A head with the given method and path, no query, version 1.1, no header fields and no
    /// known peer.
    pub fn new(method: &str, path: &str) -> (req: Self)
        ensures
            req.method@ == method@,
            req.path@ == path@,
            req.query@ == Seq::<char>::empty(),
            req.version is Http11,
            req.headers.entries@ == Seq::<(String, HeaderValue)>::empty(),
            req.remote is None,
    {
        HttpRequest {
            method: method.to_owned(),
            path: path.to_owned(),
            query: String::new(),
            version: Version::Http11,
            headers: HeaderMap::new(),
            remote: None,
        }
    }
}

/// The payload of a request. It is handed to one extractor, which may take the bytes out.
pub struct Payload {
    pub bytes: Vec<u8>,
}

impl Payload {
    pub fn new(bytes: Vec<u8>) -> (p: Self)
        ensures
            p.bytes == bytes,
    {
        Payload { bytes }
    }

    /// Takes the bytes out and leaves the payload empty.
    pub fn take(&mut self) -> (bytes: Vec<u8>)
        ensures
            bytes == old(self).bytes,
            final(self).bytes@ == Seq::<u8>::empty(),
    {
        let mut out: Vec<u8> = Vec::new();
        std::mem::swap(&mut self.bytes, &mut out);
        out
    }
}

/// A request as it reaches a processing unit: head and payload. `Render` is the error renderer
/// of the application that the request belongs to.
pub struct WebRequest<Render> {
    req: HttpRequest,
    payload: Payload,
    _t: PhantomData<Render>,
}

impl<Render> WebRequest<Render> {
    /// The head of the request.
    pub closed spec fn head(&self) -> HttpRequest {
        self.req
    }

    /// The payload of the request.
    pub closed spec fn body(&self) -> Payload {
        self.payload
    }

    pub fn new(req: HttpRequest, payload: Payload) -> (r: Self)
        ensures
            r.head() == req,
            r.body() == payload,
    {
        WebRequest { req, payload, _t: PhantomData }
    }

    /// Splits the request into head and payload.
    pub fn into_parts(self) -> (parts: (HttpRequest, Payload))
        ensures
            parts.0 == self.head(),
            parts.1 == self.body(),
    {
        (self.req, self.payload)
    }

    pub fn request(&self) -> (req: &HttpRequest)
        ensures
            *req == self.head(),
    {
        &self.req
    }

    pub fn method(&self) -> (s: &str)
        ensures
            s@ == self.head().method@,
    {
        self.req.method.as_str()
    }

    pub fn path(&self) -> (s: &str)
        ensures
            s@ == self.head().path@,
    {
        self.req.path.as_str()
    }

    pub fn query_string(&self) -> (s: &str)
        ensures
            s@ == self.head().query@,
    {
        self.req.query.as_str()
    }

    pub fn version(&self) -> (v: Version)
        ensures
            v == self.head().version,
    {
        self.req.version
    }

    pub fn headers(&self) -> (h: &HeaderMap)
        ensures
            *h == self.head().headers,
    {
        &self.req.headers
    }

    pub fn remote(&self) -> (r: Option<&str>)
        ensures
            match r {
                Some(s) => self.head().remote is Some && self.head().remote->0@ == s@,
                None => self.head().remote is None,
            },
    {
        match &self.req.remote {
            Some(s) => Some(s.as_str()),
            None => None,
        }
    }
}

/// A response without the request it answers.
pub struct HttpResponse<B> {
    pub status: u16,
    pub headers: HeaderMap,
    pub body: B,
}

impl<B> HttpResponse<B> {
    /// A response with the given status and body and no header fields.
    pub fn new(status: u16, body: B) -> (res: Self)
        ensures
            res.status == status,
            res.headers.entries@ == Seq::<(String, HeaderValue)>::empty(),
            res.body == body,
    {
        HttpResponse { status, headers: HeaderMap::new(), body }
    }
}

/// A response together with the head of the request that it answers.
pub struct WebResponse<B> {
    pub request: HttpRequest,
    pub response: HttpResponse<B>,
}

impl<B> WebResponse<B> {
    /// Attaches the head of the request to the response.
    pub fn new(request: HttpRequest, response: HttpResponse<B>) -> (res: Self)
        ensures
            res.request == request,
            res.response == response,
    {
        WebResponse { request, response }
    }
}

} // verus!
