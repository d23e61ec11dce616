//! The contract of a processing unit: what a middleware asks of the unit that it wraps.
use crate::task::Polled;
use std::future::Future;
use std::task::Context;
use vstd::prelude::*;

verus! {

/// A unit that turns a request into a future of a response.
pub trait Service {
    type Request;

    type Response;

    type Error;

    /// The processing of one request.
    type Future: Future<Output = Result<Self::Response, Self::Error>> + Unpin;

    /// Whether `fut` is a processing that `call` may start for `req`.
    open spec fn serves(&self, req: Self::Request, fut: Self::Future) -> bool {
        true
    }

    /// Whether `res` is what `poll_ready` may report.
    open spec fn ready(&self, res: Polled<Result<(), Self::Error>>) -> bool {
        true
    }

    /// Whether `res` is what `poll_shutdown` may report.
    open spec fn shut_down(&self, is_error: bool, res: Polled<()>) -> bool {
        true
    }

    /// Whether the unit can take a request now. It does not block.
    fn poll_ready(&self, cx: &mut Context<'_>) -> (res: Polled<Result<(), Self::Error>>)
        ensures
            self.ready(res),
    ;

    /// Whether the unit has finished what it had under way, when it is shut down.
    fn poll_shutdown(&self, cx: &mut Context<'_>, is_error: bool) -> (res: Polled<()>)
        ensures
            self.shut_down(is_error, res),
    ;

    /// Starts the processing of `req`.
    fn call(&self, req: Self::Request) -> (fut: Self::Future)
        ensures
            self.serves(req, fut),
    ;
}

} // verus!
