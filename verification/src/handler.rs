//! Handlers, and the adapter that runs one on a request.
//!
//! A handler is a callable from extracted parameters to a future of something that can be
//! turned into a response. `HandlerWrapper` binds a handler to the type that is extracted
//! for it. For each request it gives a `HandlerWrapperResponse`, which runs the extraction,
//! the handler and the conversion one after the other, in one piece of storage, and ends
//! with a response in every case.
use crate::dispatch::effect;
use crate::dispatch::next;
use crate::dispatch::rank;
use crate::dispatch::Event;
use crate::dispatch::Phase;
use crate::error::rendered_from;
use crate::error::ErrorRenderer;
use crate::extract::FromRequest;
use crate::http::Body;
use crate::http::HttpRequest;
use crate::http::HttpResponse;
use crate::http::WebRequest;
use crate::http::WebResponse;
use crate::responder::Responder;
use crate::task::poll_unpin;
use crate::task::Polled;
use std::future::Future;
use std::marker::PhantomData;
use std::task::Context;
use vstd::prelude::*;

verus! {

/// The largest number of parameters of a callable that is a handler as it stands. The bound
/// is one of convenience: a handler over more values takes them as one parameter.
pub const MAX_ARITY: usize = 10;

/// An asynchronous handler over the parameter `T`. It holds no state of its own and is
/// copied freely: the adapter keeps one copy for each request.
pub trait Handler<T, Render>: Copy where Render: ErrorRenderer {
    /// What the handler returns.
    type Output: Responder<Render>;

    /// The handler at work.
    type Future: Future<Output = Self::Output> + Unpin;

    /// Whether the handler may be called on `param`.
    open spec fn accepts(&self, param: T) -> bool {
        true
    }

    /// Whether `fut` is what a call of the handler on `param` may return.
    open spec fn yields(&self, param: T, fut: Self::Future) -> bool {
        true
    }

    /// Starts the handler on `param`.
    fn call(&self, param: T) -> (fut: Self::Future)
        requires
            self.accepts(param),
        ensures
            self.yields(param, fut),
    ;
}

/// A callable without parameters is a handler: the empty tuple stands for no parameters.
impl<Func, Res, Render> Handler<(), Render> for Func where
    Func: Fn() -> Res + Copy,
    Res: Future + Unpin,
    Res::Output: Responder<Render>,
    Render: ErrorRenderer,
 {
    type Output = Res::Output;

    type Future = Res;

    open spec fn accepts(&self, param: ()) -> bool {
        call_requires(*self, ())
    }

    open spec fn yields(&self, param: (), fut: Res) -> bool {
        call_ensures(*self, (), fut)
    }

    fn call(&self, param: ()) -> (fut: Res) {
        (self)()
    }
}

/// A callable over one parameter is a handler over the tuple of that one value.
impl<Func, A, Res, Render> Handler<(A,), Render> for Func where
    Func: Fn(A) -> Res + Copy,
    Res: Future + Unpin,
    Res::Output: Responder<Render>,
    Render: ErrorRenderer,
 {
    type Output = Res::Output;

    type Future = Res;

    open spec fn accepts(&self, param: (A,)) -> bool {
        call_requires(*self, (param.0,))
    }

    open spec fn yields(&self, param: (A,), fut: Res) -> bool {
        call_ensures(*self, (param.0,), fut)
    }

    fn call(&self, param: (A,)) -> (fut: Res) {
        (self)(param.0)
    }
}

/// A callable over two parameters is a handler over a tuple of two: it is called on the
/// components of the tuple, each in its place.
impl<Func, A, B, Res, Render> Handler<(A, B), Render> for Func where
    Func: Fn(A, B) -> Res + Copy,
    Res: Future + Unpin,
    Res::Output: Responder<Render>,
    Render: ErrorRenderer,
 {
    type Output = Res::Output;

    type Future = Res;

    open spec fn accepts(&self, param: (A, B)) -> bool {
        call_requires(*self, (param.0, param.1))
    }

    open spec fn yields(&self, param: (A, B), fut: Res) -> bool {
        call_ensures(*self, (param.0, param.1), fut)
    }

    fn call(&self, param: (A, B)) -> (fut: Res) {
        (self)(param.0, param.1)
    }
}

/// A callable over three parameters is a handler over a tuple of three: it is called on the
/// components of the tuple, each in its place.
impl<Func, A, B, C, Res, Render> Handler<(A, B, C), Render> for Func where
    Func: Fn(A, B, C) -> Res + Copy,
    Res: Future + Unpin,
    Res::Output: Responder<Render>,
    Render: ErrorRenderer,
 {
    type Output = Res::Output;

    type Future = Res;

    open spec fn accepts(&self, param: (A, B, C)) -> bool {
        call_requires(*self, (param.0, param.1, param.2))
    }

    open spec fn yields(&self, param: (A, B, C), fut: Res) -> bool {
        call_ensures(*self, (param.0, param.1, param.2), fut)
    }

    fn call(&self, param: (A, B, C)) -> (fut: Res) {
        (self)(param.0, param.1, param.2)
    }
}

/// A callable over four parameters is a handler over a tuple of four: it is called on the
/// components of the tuple, each in its place.
impl<Func, A, B, C, D, Res, Render> Handler<(A, B, C, D), Render> for Func where
    Func: Fn(A, B, C, D) -> Res + Copy,
    Res: Future + Unpin,
    Res::Output: Responder<Render>,
    Render: ErrorRenderer,
 {
    type Output = Res::Output;

    type Future = Res;

    open spec fn accepts(&self, param: (A, B, C, D)) -> bool {
        call_requires(*self, (param.0, param.1, param.2, param.3))
    }

    open spec fn yields(&self, param: (A, B, C, D), fut: Res) -> bool {
        call_ensures(*self, (param.0, param.1, param.2, param.3), fut)
    }

    fn call(&self, param: (A, B, C, D)) -> (fut: Res) {
        (self)(param.0, param.1, param.2, param.3)
    }
}

/// A callable over five parameters is a handler over a tuple of five: it is called on the
/// components of the tuple, each in its place.
impl<Func, A, B, C, D, E, Res, Render> Handler<(A, B, C, D, E), Render> for Func where
    Func: Fn(A, B, C, D, E) -> Res + Copy,
    Res: Future + Unpin,
    Res::Output: Responder<Render>,
    Render: ErrorRenderer,
 {
    type Output = Res::Output;

    type Future = Res;

    open spec fn accepts(&self, param: (A, B, C, D, E)) -> bool {
        call_requires(*self, (param.0, param.1, param.2, param.3, param.4))
    }

    open spec fn yields(&self, param: (A, B, C, D, E), fut: Res) -> bool {
        call_ensures(*self, (param.0, param.1, param.2, param.3, param.4), fut)
    }

    fn call(&self, param: (A, B, C, D, E)) -> (fut: Res) {
        (self)(param.0, param.1, param.2, param.3, param.4)
    }
}

/// A callable over six parameters is a handler over a tuple of six: it is called on the
/// components of the tuple, each in its place.
impl<Func, A, B, C, D, E, F, Res, Render> Handler<(A, B, C, D, E, F), Render> for Func where
    Func: Fn(A, B, C, D, E, F) -> Res + Copy,
    Res: Future + Unpin,
    Res::Output: Responder<Render>,
    Render: ErrorRenderer,
 {
    type Output = Res::Output;

    type Future = Res;

    open spec fn accepts(&self, param: (A, B, C, D, E, F)) -> bool {
        call_requires(*self, (param.0, param.1, param.2, param.3, param.4, param.5))
    }

    open spec fn yields(&self, param: (A, B, C, D, E, F), fut: Res) -> bool {
        call_ensures(*self, (param.0, param.1, param.2, param.3, param.4, param.5), fut)
    }

    fn call(&self, param: (A, B, C, D, E, F)) -> (fut: Res) {
        (self)(param.0, param.1, param.2, param.3, param.4, param.5)
    }
}

/// A callable over seven parameters is a handler over a tuple of seven: it is called on the
/// components of the tuple, each in its place.
impl<Func, A, B, C, D, E, F, G, Res, Render> Handler<(A, B, C, D, E, F, G), Render> for Func where
    Func: Fn(A, B, C, D, E, F, G) -> Res + Copy,
    Res: Future + Unpin,
    Res::Output: Responder<Render>,
    Render: ErrorRenderer,
 {
    type Output = Res::Output;

    type Future = Res;

    open spec fn accepts(&self, param: (A, B, C, D, E, F, G)) -> bool {
        call_requires(*self, (param.0, param.1, param.2, param.3, param.4, param.5, param.6))
    }

    open spec fn yields(&self, param: (A, B, C, D, E, F, G), fut: Res) -> bool {
        call_ensures(*self, (param.0, param.1, param.2, param.3, param.4, param.5, param.6), fut)
    }

    fn call(&self, param: (A, B, C, D, E, F, G)) -> (fut: Res) {
        (self)(param.0, param.1, param.2, param.3, param.4, param.5, param.6)
    }
}

/// A callable over eight parameters is a handler over a tuple of eight: it is called on the
/// components of the tuple, each in its place.
impl<Func, A, B, C, D, E, F, G, H, Res, Render> Handler<
    (A, B, C, D, E, F, G, H),
    Render,
> for Func where
    Func: Fn(A, B, C, D, E, F, G, H) -> Res + Copy,
    Res: Future + Unpin,
    Res::Output: Responder<Render>,
    Render: ErrorRenderer,
 {
    type Output = Res::Output;

    type Future = Res;

    open spec fn accepts(&self, param: (A, B, C, D, E, F, G, H)) -> bool {
        call_requires(
            *self,
            (
                param.0, param.1, param.2, param.3, param.4, param.5, param.6, param.7,
            ),
        )
    }

    open spec fn yields(&self, param: (A, B, C, D, E, F, G, H), fut: Res) -> bool {
        call_ensures(
            *self,
            (
                param.0, param.1, param.2, param.3, param.4, param.5, param.6, param.7,
            ),
            fut,
        )
    }

    fn call(&self, param: (A, B, C, D, E, F, G, H)) -> (fut: Res) {
        (self)(param.0, param.1, param.2, param.3, param.4, param.5, param.6, param.7)
    }
}

/// A callable over nine parameters is a handler over a tuple of nine: it is called on the
/// components of the tuple, each in its place.
impl<Func, A, B, C, D, E, F, G, H, I, Res, Render> Handler<
    (A, B, C, D, E, F, G, H, I),
    Render,
> for Func where
    Func: Fn(A, B, C, D, E, F, G, H, I) -> Res + Copy,
    Res: Future + Unpin,
    Res::Output: Responder<Render>,
    Render: ErrorRenderer,
 {
    type Output = Res::Output;

    type Future = Res;

    open spec fn accepts(&self, param: (A, B, C, D, E, F, G, H, I)) -> bool {
        call_requires(
            *self,
            (
                param.0, param.1, param.2, param.3, param.4, param.5, param.6, param.7, param.8,
            ),
        )
    }

    open spec fn yields(&self, param: (A, B, C, D, E, F, G, H, I), fut: Res) -> bool {
        call_ensures(
            *self,
            (
                param.0, param.1, param.2, param.3, param.4, param.5, param.6, param.7, param.8,
            ),
            fut,
        )
    }

    fn call(&self, param: (A, B, C, D, E, F, G, H, I)) -> (fut: Res) {
        (self)(param.0, param.1, param.2, param.3, param.4, param.5, param.6, param.7, param.8)
    }
}

/// A callable over ten parameters is a handler over a tuple of ten: it is called on the
/// components of the tuple, each in its place.
impl<Func, A, B, C, D, E, F, G, H, I, J, Res, Render> Handler<
    (A, B, C, D, E, F, G, H, I, J),
    Render,
> for Func where
    Func: Fn(A, B, C, D, E, F, G, H, I, J) -> Res + Copy,
    Res: Future + Unpin,
    Res::Output: Responder<Render>,
    Render: ErrorRenderer,
 {
    type Output = Res::Output;

    type Future = Res;

    open spec fn accepts(&self, param: (A, B, C, D, E, F, G, H, I, J)) -> bool {
        call_requires(
            *self,
            (
                param.0, param.1, param.2, param.3, param.4, param.5, param.6, param.7, param.8,
                param.9,
            ),
        )
    }

    open spec fn yields(&self, param: (A, B, C, D, E, F, G, H, I, J), fut: Res) -> bool {
        call_ensures(
            *self,
            (
                param.0, param.1, param.2, param.3, param.4, param.5, param.6, param.7, param.8,
                param.9,
            ),
            fut,
        )
    }

    fn call(&self, param: (A, B, C, D, E, F, G, H, I, J)) -> (fut: Res) {
        (self)(
            param.0, param.1, param.2, param.3, param.4, param.5, param.6, param.7, param.8,
            param.9,
        )
    }
}

/// The storage of one request: the computation of the current phase, and nothing of the
/// phases before it.
pub enum Dispatch<X, I, R> {
    /// The extraction under way.
    Extracting(X),
    /// The handler at work.
    Invoking(I),
    /// The conversion under way.
    Responding(R),
    /// Nothing is left to do.
    Terminal,
}

impl<X, I, R> Dispatch<X, I, R> {
    /// The phase that the storage is in.
    pub open spec fn phase(self) -> Phase {
        match self {
            Dispatch::Extracting(_) => Phase::Extracting,
            Dispatch::Invoking(_) => Phase::Invoking,
            Dispatch::Responding(_) => Phase::Responding,
            Dispatch::Terminal => Phase::Terminal,
        }
    }
}

/// The event that the outcome of an extraction is.
pub open spec fn extraction_event<T, E>(outcome: Result<T, E>) -> Event {
    match outcome {
        Ok(_) => Event::Extracted,
        Err(_) => Event::ExtractionFailed,
    }
}

/// The event that the outcome of a conversion is.
pub open spec fn conversion_event<E>(outcome: Result<HttpResponse<Body>, E>) -> Event {
    match outcome {
        Ok(_) => Event::Responded,
        Err(_) => Event::ResponseFailed,
    }
}

/// A handler bound to the type `T` that is extracted for it, in an application whose error
/// renderer is `Render`.
pub struct HandlerWrapper<F, T, Render> where
    F: Handler<T, Render>,
    T: FromRequest<Render>,
    T::Error: Into<Render::Container>,
    <F::Output as Responder<Render>>::Error: Into<Render::Container>,
    Render: ErrorRenderer,
 {
    hnd: F,
    _t: PhantomData<(T, Render)>,
}

impl<F, T, Render> HandlerWrapper<F, T, Render> where
    F: Handler<T, Render>,
    T: FromRequest<Render>,
    T::Error: Into<Render::Container>,
    <F::Output as Responder<Render>>::Error: Into<Render::Container>,
    Render: ErrorRenderer,
 {
    /// The handler that the adapter runs.
    pub closed spec fn handler(&self) -> F {
        self.hnd
    }

    /// The handler may be called on whatever the extraction gives.
    #[verifier::type_invariant]
    spec fn total(self) -> bool {
        forall|param: T| #[trigger] self.hnd.accepts(param)
    }

    /// The adapter that runs `hnd`, a handler that may be called on every value of `T`.
    pub fn new(hnd: F) -> (wrapper: Self)
        requires
            forall|param: T| #[trigger] hnd.accepts(param),
        ensures
            wrapper.handler() == hnd,
    {
        HandlerWrapper { hnd, _t: PhantomData }
    }

    /// Whether the adapter can take a request now. It always can: a handler holds nothing
    /// that a request would have to wait for.
    pub fn poll_ready(&self, cx: &mut Context<'_>) -> (res: Polled<Result<(), Render::Container>>)
        ensures
            res matches Polled::Ready(Ok(_)),
    {
        Polled::Ready(Ok(()))
    }

    /// Whether the adapter has finished what it had under way, when it is shut down. It
    /// always has: what is under way belongs to the requests, not to the adapter.
    pub fn poll_shutdown(&self, cx: &mut Context<'_>, is_error: bool) -> (res: Polled<()>)
        ensures
            res is Ready,
    {
        Polled::Ready(())
    }

    /// Starts the processing of a request: the request is split into head and payload, the
    /// extraction is started on both, and the head is kept for the response.
    pub fn call(&self, req: WebRequest<Render>) -> (unit: HandlerWrapperResponse<F, T, Render>)
        ensures
            unit.wf(),
            unit.phase() is Extracting,
            unit.handler() == self.handler(),
            unit.head() == Some(req.head()),
            T::extracts(req.head(), req.body(), unit.extraction()),
    {
        proof {
            use_type_invariant(self);
        }
        let (req, mut payload) = req.into_parts();
        let fut = T::from_request(&req, &mut payload);
        HandlerWrapperResponse { hnd: self.hnd, state: Dispatch::Extracting(fut), req: Some(req) }
    }

    /// A second adapter with a copy of the handler. The two share nothing, and they are
    /// equal.
    pub fn clone_handler(&self) -> (other: Self)
        ensures
            other.handler() == self.handler(),
            other == *self,
    {
        proof {
            use_type_invariant(self);
        }
        HandlerWrapper { hnd: self.hnd, _t: PhantomData }
    }
}

impl<F, T, Render> Clone for HandlerWrapper<F, T, Render> where
    F: Handler<T, Render>,
    T: FromRequest<Render>,
    T::Error: Into<Render::Container>,
    <F::Output as Responder<Render>>::Error: Into<Render::Container>,
    Render: ErrorRenderer,
 {
    fn clone(&self) -> (other: Self)
        ensures
            other.handler() == self.handler(),
            other == *self,
    {
        proof {
            use_type_invariant(self);
        }
        HandlerWrapper { hnd: self.hnd, _t: PhantomData }
    }
}

/// An adapter and its copy are equal, so they treat every request alike: what the one may
/// start for a request the other may start too, and their handlers accept and return the
/// same.
pub proof fn copies_agree<F, T, Render>(
    a: HandlerWrapper<F, T, Render>,
    b: HandlerWrapper<F, T, Render>,
    req: WebRequest<Render>,
    unit: HandlerWrapperResponse<F, T, Render>,
    param: T,
    fut: F::Future,
) where
    F: Handler<T, Render>,
    T: FromRequest<Render>,
    T::Error: Into<Render::Container>,
    <F::Output as Responder<Render>>::Error: Into<Render::Container>,
    Render: ErrorRenderer,

    requires
        b.handler() == a.handler(),
    ensures
        a == b,
        call_ensures(HandlerWrapper::<F, T, Render>::call, (&a, req), unit) == call_ensures(
            HandlerWrapper::<F, T, Render>::call,
            (&b, req),
            unit,
        ),
        a.handler().accepts(param) == b.handler().accepts(param),
        a.handler().yields(param, fut) == b.handler().yields(param, fut),
{
}

/// The processing of one request by a handler.
pub struct HandlerWrapperResponse<F, T, Render> where
    F: Handler<T, Render>,
    T: FromRequest<Render>,
    T::Error: Into<Render::Container>,
    <F::Output as Responder<Render>>::Error: Into<Render::Container>,
    Render: ErrorRenderer,
 {
    hnd: F,
    state: Dispatch<T::Future, F::Future, <F::Output as Responder<Render>>::Future>,
    req: Option<HttpRequest>,
}

impl<F, T, Render> HandlerWrapperResponse<F, T, Render> where
    F: Handler<T, Render>,
    T: FromRequest<Render>,
    T::Error: Into<Render::Container>,
    <F::Output as Responder<Render>>::Error: Into<Render::Container>,
    Render: ErrorRenderer,
 {
    /// The phase that the request is in.
    pub closed spec fn phase(&self) -> Phase {
        self.state.phase()
    }

    /// The head of the request, as long as it has not been handed out with the response.
    pub closed spec fn head(&self) -> Option<HttpRequest> {
        self.req
    }

    /// The handler that will be, or was, called.
    pub closed spec fn handler(&self) -> F {
        self.hnd
    }

    /// The extraction under way, in the phase of extraction.
    pub closed spec fn extraction(&self) -> T::Future {
        self.state->Extracting_0
    }

    /// The handler at work, in the phase of invocation.
    pub closed spec fn invocation(&self) -> F::Future {
        self.state->Invoking_0
    }

    /// The conversion under way, in the phase of conversion.
    pub closed spec fn conversion(&self) -> <F::Output as Responder<Render>>::Future {
        self.state->Responding_0
    }

    /// The head is held exactly until the end, and the handler may be called on whatever the
    /// extraction gives.
    pub closed spec fn wf(&self) -> bool {
        &&& self.state is Terminal <==> self.req is None
        &&& forall|param: T| #[trigger] self.hnd.accepts(param)
    }

    /// The phase that the request is in.
    pub fn current(&self) -> (p: Phase)
        ensures
            p == self.phase(),
    {
        match &self.state {
            Dispatch::Extracting(_) => Phase::Extracting,
            Dispatch::Invoking(_) => Phase::Invoking,
            Dispatch::Responding(_) => Phase::Responding,
            Dispatch::Terminal => Phase::Terminal,
        }
    }

    /// Moves on from the extraction, whose outcome is `outcome`. Parameters go to the
    /// handler, which is called here and nowhere else. A failure ends the request: the head
    /// is taken and goes, with the failure, to the error renderer.
    pub fn extracted(&mut self, outcome: Result<T, T::Error>) -> (done: Option<
        Result<WebResponse<Body>, Render::Container>,
    >)
        requires
            old(self).wf(),
            old(self).phase() is Extracting,
        ensures
            final(self).wf(),
            final(self).handler() == old(self).handler(),
            final(self).phase() == next(old(self).phase(), extraction_event(outcome)),
            match outcome {
                Ok(param) => {
                    &&& effect(old(self).phase(), extraction_event(outcome)) is Invoke
                    &&& done is None
                    &&& final(self).head() == old(self).head()
                    &&& final(self).handler().yields(param, final(self).invocation())
                },
                Err(err) => {
                    &&& effect(old(self).phase(), extraction_event(outcome)) is Render
                    &&& final(self).head() is None
                    &&& done matches Some(Ok(res))
                    &&& Some(res.request) == old(self).head()
                    &&& rendered_from::<Render, T::Error>(err, res.request, res.response)
                },
            },
    {
        match outcome {
            Ok(param) => {
                let fut = self.hnd.call(param);
                self.state = Dispatch::Invoking(fut);
                None
            },
            Err(err) => {
                self.state = Dispatch::Terminal;
                let head = self.req.take().unwrap();
                Some(Ok(WebResponse::from_err::<Render, T::Error>(err, head)))
            },
        }
    }

    /// Moves on from the invocation: the conversion of `output`, which the handler returned,
    /// is started for the request. The head is lent to it and stays.
    pub fn invoked(&mut self, output: F::Output)
        requires
            old(self).wf(),
            old(self).phase() is Invoking,
        ensures
            final(self).wf(),
            final(self).handler() == old(self).handler(),
            final(self).phase() == next(old(self).phase(), Event::Invoked),
            effect(old(self).phase(), Event::Invoked) is Respond,
            final(self).head() == old(self).head(),
            output.responds(old(self).head()->0, final(self).conversion()),
    {
        let fut = output.respond_to(self.req.as_ref().unwrap());
        self.state = Dispatch::Responding(fut);
    }

    /// Moves on from the conversion, whose outcome is `outcome`, to the end. The head is
    /// taken: it is attached to the response, or goes, with the failure, to the error
    /// renderer. Either way the request has its response.
    pub fn responded(
        &mut self,
        outcome: Result<HttpResponse<Body>, <F::Output as Responder<Render>>::Error>,
    ) -> (done: Result<WebResponse<Body>, Render::Container>)
        requires
            old(self).wf(),
            old(self).phase() is Responding,
        ensures
            final(self).wf(),
            final(self).handler() == old(self).handler(),
            final(self).phase() == next(old(self).phase(), conversion_event(outcome)),
            final(self).phase() is Terminal,
            final(self).head() is None,
            done matches Ok(res) && Some(res.request) == old(self).head() && match outcome {
                Ok(response) => effect(old(self).phase(), conversion_event(outcome)) is Attach
                    && res.response == response,
                Err(err) => effect(old(self).phase(), conversion_event(outcome)) is Render
                    && rendered_from::<Render, <F::Output as Responder<Render>>::Error>(
                    err,
                    res.request,
                    res.response,
                ),
            },
    {
        self.state = Dispatch::Terminal;
        let head = self.req.take().unwrap();
        match outcome {
            Ok(response) => Ok(WebResponse::new(head, response)),
            Err(err) => Ok(
                WebResponse::from_err::<Render, <F::Output as Responder<Render>>::Error>(
                    err,
                    head,
                ),
            ),
        }
    }

    /// Polls the request. The computation of the current phase is polled; when it is ready
    /// the request moves on and the next computation is polled at once, without a return to
    /// the caller in between. So one call moves on at most three times. It returns when a
    /// computation is not ready, or with the response. The response is always `Ok`: a failure
    /// of the extraction or of the conversion has become a response.
    ///
    /// A request that has handed out its response must not be polled again.
    pub fn poll(&mut self, cx: &mut Context<'_>) -> (res: Polled<
        Result<WebResponse<Body>, Render::Container>,
    >)
        requires
            old(self).wf(),
            !(old(self).phase() is Terminal),
        ensures
            final(self).wf(),
            final(self).handler() == old(self).handler(),
            rank(old(self).phase()) <= rank(final(self).phase()),
            match res {
                Polled::Pending => {
                    &&& !(final(self).phase() is Terminal)
                    &&& final(self).head() == old(self).head()
                },
                Polled::Ready(done) => {
                    &&& final(self).phase() is Terminal
                    &&& final(self).head() is None
                    &&& done matches Ok(res)
                    &&& Some(res.request) == old(self).head()
                },
            },
    {
        loop
            invariant
                self.wf(),
                !(self.phase() is Terminal),
                self.handler() == old(self).handler(),
                self.head() == old(self).head(),
                rank(old(self).phase()) <= rank(self.phase()),
            decreases 3 - rank(self.phase()),
        {
            match &mut self.state {
                Dispatch::Extracting(fut) => {
                    match poll_unpin(fut, cx) {
                        Polled::Pending => {
                            return Polled::Pending;
                        },
                        Polled::Ready(outcome) => {
                            match self.extracted(outcome) {
                                Some(done) => {
                                    return Polled::Ready(done);
                                },
                                None => {},
                            }
                        },
                    }
                },
                Dispatch::Invoking(fut) => {
                    match poll_unpin(fut, cx) {
                        Polled::Pending => {
                            return Polled::Pending;
                        },
                        Polled::Ready(output) => {
                            self.invoked(output);
                        },
                    }
                },
                Dispatch::Responding(fut) => {
                    match poll_unpin(fut, cx) {
                        Polled::Pending => {
                            return Polled::Pending;
                        },
                        Polled::Ready(outcome) => {
                            return Polled::Ready(self.responded(outcome));
                        },
                    }
                },
                Dispatch::Terminal => {
                    unreached()
                },
            }
        }
    }
}

} // verus!
