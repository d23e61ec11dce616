//! Request logging middleware.
//!
//! A `Logger` holds a format and the paths that are not to be logged. Wrapped around a
//! service it gives a `LoggerMiddleware`. For each request the middleware notes the time,
//! fills in what the request holds for the line, and hands the request on. When the response
//! is there it fills in what the response holds, and puts the body into a `StreamLog`, which
//! counts the bytes that leave. The line is complete when the body has been sent.
//!
//! The format is a string of literal text and directives:
//!
//! - `%a`: the address of the peer
//! - `%t`: the time at which the request arrived, as in `2019-01-02T03:04:05`
//! - `%r`: the first line of the request
//! - `%s`: the status of the response
//! - `%b`: the size of the body of the response, in bytes
//! - `%T`: the time taken, in seconds with six decimals
//! - `%D`: the time taken, in milliseconds with six decimals
//! - `%U`: the path of the request
//! - `%{FOO}i`: the header `FOO` of the request
//! - `%{FOO}o`: the header `FOO` of the response
//! - `%{FOO}e`: the variable `FOO` of the environment
use crate::body::contents;
use crate::body::BodySize;
use crate::body::MessageBody;
use crate::clock::now;
use crate::clock::Timestamp;
use crate::format::all_with_request;
use crate::format::all_with_response;
use crate::format::DEFAULT_FORMAT;
use crate::format::line_of;
use crate::format::Format;
use crate::format::Outside;
use crate::format::Unit;
use crate::grammar::parsed;
use crate::http::HttpResponse;
use crate::http::WebRequest;
use crate::http::WebResponse;
use crate::service::Service;
use crate::task::poll_unpin;
use crate::task::Polled;
use bytes::Bytes;
use std::marker::PhantomData;
use std::task::Context;
use vstd::hash_set::StringHashSet;
use vstd::prelude::*;

verus! {

/// The paths of a list, as a set.
pub open spec fn path_set(paths: Seq<String>) -> Set<Seq<char>> {
    paths.map_values(|p: String| p@).to_set()
}

/// The units of a format that may not be there.
pub open spec fn units(format: Option<Format>) -> Option<Seq<Unit>> {
    match format {
        Some(f) => Some(f@),
        None => None,
    }
}

/// The settings of a logger.
struct Inner {
    format: Format,
    exclude: StringHashSet,
    /// The paths in `exclude`, in the order in which they came: the set cannot be walked.
    paths: Vec<String>,
}

impl Inner {
    #[verifier::type_invariant]
    spec fn listed(self) -> bool {
        self.exclude@ == path_set(self.paths@)
    }

    /// Settings with the given format and no path left out.
    fn new(format: Format) -> (inner: Self)
        ensures
            inner.format == format,
            inner.exclude@ == Set::<Seq<char>>::empty(),
    {
        let exclude = StringHashSet::new();
        let paths: Vec<String> = Vec::new();
        assert(path_set(paths@) =~= Set::<Seq<char>>::empty());
        Inner { format, exclude, paths }
    }

    /// The settings with one more path left out.
    fn with_path(self, path: String) -> (inner: Self)
        ensures
            inner.format == self.format,
            inner.exclude@ == self.exclude@.insert(path@),
    {
        proof {
            use_type_invariant(&self);
        }
        let Inner { format, mut exclude, mut paths } = self;
        let ghost before = paths@;
        exclude.insert(path.clone());
        paths.push(path);
        proof {
            assert(paths@.map_values(|p: String| p@) == before.map_values(|p: String| p@).push(
                path@,
            ));
            before.map_values(|p: String| p@).lemma_push_to_set_commute(path@);
        }
        Inner { format, exclude, paths }
    }

    /// Settings with the same units and the same paths.
    fn copy(&self) -> (inner: Self)
        ensures
            inner.format@ == self.format@,
            inner.exclude@ == self.exclude@,
    {
        proof {
            use_type_invariant(self);
        }
        let mut exclude = StringHashSet::new();
        let mut paths: Vec<String> = Vec::new();
        let mut i: usize = 0;
        while i < self.paths.len()
            invariant
                i <= self.paths.len(),
                exclude@ == path_set(paths@),
                paths@.map_values(|p: String| p@) == self.paths@.map_values(|p: String| p@).take(
                    i as int,
                ),
            decreases self.paths.len() - i,
        {
            let path = self.paths[i].clone();
            let ghost before = paths@;
            exclude.insert(path.clone());
            paths.push(path);
            proof {
                assert(paths@.map_values(|p: String| p@) == before.map_values(|p: String| p@).push(
                    path@,
                ));
                before.map_values(|p: String| p@).lemma_push_to_set_commute(path@);
            }
            i += 1;
        }
        assert(self.paths@.map_values(|p: String| p@).take(i as int) == self.paths@.map_values(
            |p: String| p@,
        ));
        Inner { format: self.format.clone(), exclude, paths }
    }
}

/// Middleware that logs one line for each request. `Render` is the error renderer of the
/// application.
pub struct Logger<Render> {
    inner: Inner,
    _t: PhantomData<Render>,
}

impl<Render> Logger<Render> {
    /// The units of a line.
    pub closed spec fn format(&self) -> Seq<Unit> {
        self.inner.format@
    }

    /// The paths that are not logged.
    pub closed spec fn excluded(&self) -> Set<Seq<char>> {
        self.inner.exclude@
    }

    /// A logger with the given format that logs every path.
    pub fn new(format: &str) -> (logger: Logger<Render>)
        ensures
            logger.format() == parsed(format@),
            logger.excluded() == Set::<Seq<char>>::empty(),
    {
        Logger { inner: Inner::new(Format::new(format)), _t: PhantomData }
    }

    /// The logger that does not log requests for `path` either. The path is whatever `path`
    /// is converted into.
    pub fn exclude<T: Into<String>>(self, path: T) -> (logger: Self)
        ensures
            logger.format() == self.format(),
            exists|p: String| #[trigger]
                call_ensures(<T as Into<String>>::into, (path,), p) && logger.excluded()
                    == self.excluded().insert(p@),
    {
        let p: String = path.into();
        self.exclude_path(p)
    }

    /// The logger that does not log requests for `path` either.
    pub fn exclude_path(self, path: String) -> (logger: Self)
        ensures
            logger.format() == self.format(),
            logger.excluded() == self.excluded().insert(path@),
    {
        Logger { inner: self.inner.with_path(path), _t: PhantomData }
    }

    /// Wraps `service`: the middleware gets a copy of the settings.
    pub fn new_transform<S>(&self, service: S) -> (middleware: LoggerMiddleware<S, Render>)
        ensures
            middleware.format() == self.format(),
            middleware.excluded() == self.excluded(),
            middleware.inner_service() == service,
    {
        LoggerMiddleware { inner: self.inner.copy(), service, _t: PhantomData }
    }
}

impl<Render> Default for Logger<Render> {
    /// A logger with the default format that logs every path.
    fn default() -> (logger: Self)
        ensures
            logger.format() == parsed(DEFAULT_FORMAT@),
            logger.excluded() == Set::<Seq<char>>::empty(),
    {
        Logger { inner: Inner::new(Format::default()), _t: PhantomData }
    }
}

/// A service wrapped by a logger.
pub struct LoggerMiddleware<S, Render> {
    inner: Inner,
    service: S,
    _t: PhantomData<Render>,
}

impl<S, Render> LoggerMiddleware<S, Render> {
    /// The units of a line.
    pub closed spec fn format(&self) -> Seq<Unit> {
        self.inner.format@
    }

    /// The paths that are not logged.
    pub closed spec fn excluded(&self) -> Set<Seq<char>> {
        self.inner.exclude@
    }

    /// The service that is wrapped.
    pub closed spec fn inner_service(&self) -> S {
        self.service
    }

    /// The service that is wrapped.
    pub fn service(&self) -> (s: &S)
        ensures
            *s == self.inner_service(),
    {
        &self.service
    }
}

impl<S, B, Render> LoggerMiddleware<S, Render> where
    S: Service<Request = WebRequest<Render>, Response = WebResponse<B>>,
 {
    /// Whether the wrapped service can take a request now: what it reports, as it is.
    pub fn poll_ready(&self, cx: &mut Context<'_>) -> (res: Polled<Result<(), S::Error>>)
        ensures
            self.inner_service().ready(res),
    {
        self.service.poll_ready(cx)
    }

    /// Whether the wrapped service has finished what it had under way: what it reports, as
    /// it is.
    pub fn poll_shutdown(&self, cx: &mut Context<'_>, is_error: bool) -> (res: Polled<()>)
        ensures
            self.inner_service().shut_down(is_error, res),
    {
        self.service.poll_shutdown(cx, is_error)
    }

    /// Hands the request to the wrapped service, as it came. The time is read from the
    /// clock. Unless the path of the request is excluded, the line is begun: it is a copy of
    /// the format in which the units have the text that the request holds for them.
    pub fn call(&self, req: WebRequest<Render>) -> (res: LoggerResponse<S, B, Render>)
        ensures
            res.pending(),
            self.inner_service().serves(req, res.future()),
            res.format() == if self.excluded().contains(req.head().path@) {
                None
            } else {
                Some(all_with_request(self.format(), res.time(), req.head()))
            },
    {
        if self.inner.exclude.contains(req.path()) {
            LoggerResponse {
                fut: Some(self.service.call(req)),
                format: None,
                time: now(),
                _t: PhantomData,
            }
        } else {
            let now = now();
            let mut format = self.inner.format.clone();
            format.render_request(now, &req);
            LoggerResponse {
                fut: Some(self.service.call(req)),
                format: Some(format),
                time: now,
                _t: PhantomData,
            }
        }
    }
}

/// The processing of one request by a logged service.
pub struct LoggerResponse<S, B, Render> where S: Service {
    fut: Option<S::Future>,
    time: Timestamp,
    format: Option<Format>,
    _t: PhantomData<(B, Render)>,
}

impl<S, B, Render> LoggerResponse<S, B, Render> where
    S: Service<Request = WebRequest<Render>, Response = WebResponse<B>>,
 {
    /// Whether the wrapped service still owes its answer.
    pub closed spec fn pending(&self) -> bool {
        self.fut is Some
    }

    /// The processing by the wrapped service, while it is pending.
    pub closed spec fn future(&self) -> S::Future {
        self.fut->0
    }

    /// The time at which the request arrived.
    pub closed spec fn time(&self) -> Timestamp {
        self.time
    }

    /// The line as far as it is filled in; `None` where the request is not logged, or the
    /// line has gone on with the response.
    pub closed spec fn format(&self) -> Option<Seq<Unit>> {
        units(self.format)
    }

    /// Whether the wrapped service still owes its answer.
    pub fn is_pending(&self) -> (b: bool)
        ensures
            b == self.pending(),
    {
        self.fut.is_some()
    }

    /// Takes the response of the wrapped service. The units of the line get the text that
    /// the response holds for them. The line goes on with the body, which is put into a
    /// `StreamLog` that has counted no bytes yet. Nothing else of the response changes.
    pub fn finish(&mut self, res: WebResponse<B>) -> (out: WebResponse<StreamLog<B>>)
        ensures
            final(self).pending() == old(self).pending(),
            final(self).time() == old(self).time(),
            final(self).format() is None,
            out.request == res.request,
            out.response.status == res.response.status,
            out.response.headers == res.response.headers,
            out.response.body.body() == res.response.body,
            out.response.body.sent() == 0,
            out.response.body.time() == old(self).time(),
            out.response.body.format() == match old(self).format() {
                Some(line) => Some(
                    all_with_response(line, res.response.status, res.response.headers),
                ),
                None => None,
            },
    {
        match &mut self.format {
            Some(format) => {
                format.render_response(&res.response);
            },
            None => {},
        }
        let format = self.format.take();
        let WebResponse { request, response } = res;
        let HttpResponse { status, headers, body } = response;
        WebResponse {
            request,
            response: HttpResponse {
                status,
                headers,
                body: StreamLog { body, format, size: 0, time: self.time },
            },
        }
    }

    /// Polls the wrapped service. A failure is handed on as it is. A response is handed on
    /// with its body in a `StreamLog` that carries the line, filled in from the response.
    ///
    /// A request that has given its answer must not be polled again.
    pub fn poll(&mut self, cx: &mut Context<'_>) -> (res: Polled<
        Result<WebResponse<StreamLog<B>>, S::Error>,
    >)
        requires
            old(self).pending(),
        ensures
            final(self).time() == old(self).time(),
            match res {
                Polled::Pending => final(self).pending() && final(self).format() == old(
                    self,
                ).format(),
                Polled::Ready(Err(_)) => !final(self).pending() && final(self).format() == old(
                    self,
                ).format(),
                Polled::Ready(Ok(out)) => {
                    &&& !final(self).pending()
                    &&& final(self).format() is None
                    &&& out.response.body.sent() == 0
                    &&& out.response.body.time() == old(self).time()
                    &&& out.response.body.format() == match old(self).format() {
                        Some(line) => Some(
                            all_with_response(line, out.response.status, out.response.headers),
                        ),
                        None => None,
                    }
                },
            },
    {
        let polled = match &mut self.fut {
            Some(fut) => poll_unpin(fut, cx),
            None => unreached(),
        };
        match polled {
            Polled::Pending => Polled::Pending,
            Polled::Ready(outcome) => Polled::Ready(self.answered(outcome)),
        }
    }

    /// Takes the answer of the wrapped service, `outcome`, after which the service owes
    /// nothing more. A failure is handed on as it is, and the line stays where it is. A
    /// response goes on as `finish` says: with the line, filled in from the response, in the
    /// `StreamLog` around its body.
    pub fn answered(&mut self, outcome: Result<WebResponse<B>, S::Error>) -> (out: Result<
        WebResponse<StreamLog<B>>,
        S::Error,
    >)
        ensures
            !final(self).pending(),
            final(self).time() == old(self).time(),
            match outcome {
                Err(failure) => {
                    &&& out matches Err(handed_on)
                    &&& handed_on == failure
                    &&& final(self).format() == old(self).format()
                },
                Ok(res) => {
                    &&& out matches Ok(logged)
                    &&& final(self).format() is None
                    &&& logged.request == res.request
                    &&& logged.response.status == res.response.status
                    &&& logged.response.headers == res.response.headers
                    &&& logged.response.body.body() == res.response.body
                    &&& logged.response.body.sent() == 0
                    &&& logged.response.body.time() == old(self).time()
                    &&& logged.response.body.format() == match old(self).format() {
                        Some(line) => Some(
                            all_with_response(line, res.response.status, res.response.headers),
                        ),
                        None => None,
                    }
                },
            },
    {
        self.fut = None;
        match outcome {
            Ok(res) => Ok(self.finish(res)),
            Err(failure) => Err(failure),
        }
    }
}

/// The size that a body has after `more` bytes have left, `size` having left before: their
/// sum, or the largest number that can be held where the sum is larger.
pub open spec fn counted(size: usize, more: nat) -> usize {
    if size + more > usize::MAX {
        usize::MAX
    } else {
        (size + more) as usize
    }
}

/// The body of a logged response. It counts the bytes that leave and carries the line.
pub struct StreamLog<B> {
    body: B,
    format: Option<Format>,
    size: usize,
    time: Timestamp,
}

impl<B> StreamLog<B> {
    /// The body that is wrapped.
    pub closed spec fn body(&self) -> B {
        self.body
    }

    /// The line as far as it is filled in; `None` where the request is not logged.
    pub closed spec fn format(&self) -> Option<Seq<Unit>> {
        units(self.format)
    }

    /// The number of bytes that have left.
    pub closed spec fn sent(&self) -> usize {
        self.size
    }

    /// The time at which the request arrived.
    pub closed spec fn time(&self) -> Timestamp {
        self.time
    }

    /// The number of bytes that have left.
    pub fn bytes_sent(&self) -> (n: usize)
        ensures
            n == self.sent(),
    {
        self.size
    }

    /// The time at which the request arrived.
    pub fn entry_time(&self) -> (t: Timestamp)
        ensures
            t == self.time(),
    {
        self.time
    }

    /// Counts a chunk that leaves.
    pub fn record(&mut self, chunk: &Bytes)
        ensures
            final(self).sent() == counted(old(self).sent(), contents(*chunk).len()),
            final(self).body() == old(self).body(),
            final(self).format() == old(self).format(),
            final(self).time() == old(self).time(),
    {
        self.size = self.size.saturating_add(chunk.len());
    }

    /// The names of the variables of the environment that the line asks for.
    pub fn environ_names(&self) -> (names: Vec<String>)
        ensures
            names@.map_values(|n: String| n@) == match self.format() {
                Some(line) => crate::format::environ_names_of(line),
                None => Seq::<Seq<char>>::empty(),
            },
    {
        match &self.format {
            Some(format) => format.environ_names(),
            None => {
                let names: Vec<String> = Vec::new();
                names
            },
        }
    }

    /// The line to be logged once the body is done, where the request is logged: what the
    /// units contribute, with the bytes counted so far as the size.
    pub fn render(&self, outside: &Outside) -> (line: Option<String>)
        ensures
            match self.format() {
                Some(units) => line is Some && line->0@ == line_of(units, self.sent(), *outside),
                None => line is None,
            },
    {
        match &self.format {
            Some(format) => Some(format.render(self.size, outside)),
            None => None,
        }
    }
}

impl<B: MessageBody> MessageBody for StreamLog<B> {
    type Error = B::Error;

    open spec fn sized(&self, size: BodySize) -> bool {
        self.body().sized(size)
    }

    open spec fn gives(
        &self,
        after: &Self,
        res: Polled<Option<Result<Bytes, Self::Error>>>,
    ) -> bool {
        self.body().gives(&after.body(), res)
    }

    /// The size of the wrapped body.
    fn size(&self) -> (size: BodySize) {
        self.body.size()
    }

    /// The next chunk of the wrapped body, as it is. A chunk that leaves is counted.
    fn poll_next_chunk(&mut self, cx: &mut Context<'_>) -> (res: Polled<
        Option<Result<Bytes, Self::Error>>,
    >)
        ensures
            final(self).format() == old(self).format(),
            final(self).time() == old(self).time(),
            final(self).sent() == match res {
                Polled::Ready(Some(Ok(chunk))) => counted(
                    old(self).sent(),
                    contents(chunk).len(),
                ),
                _ => old(self).sent(),
            },
    {
        match self.body.poll_next_chunk(cx) {
            Polled::Ready(Some(Ok(chunk))) => {
                self.size = self.size.saturating_add(chunk.len());
                Polled::Ready(Some(Ok(chunk)))
            },
            val => val,
        }
    }
}

} // verus!
