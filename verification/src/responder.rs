//! The responder capability: a response out of what a handler returned.
use crate::http::Body;
use crate::http::HttpRequest;
use crate::http::HttpResponse;
use std::future::Future;
use vstd::prelude::*;

verus! {

/// A value that can be turned into a response. `Render` is the error renderer of the
/// application.
pub trait Responder<Render>: Sized {
    /// Why a conversion failed.
    type Error;

    /// The conversion under way.
    type Future: Future<Output = Result<HttpResponse<Body>, Self::Error>> + Unpin;

    /// Whether `fut` is a conversion that `respond_to` may start for this value and `req`.
    open spec fn responds(self, req: HttpRequest, fut: Self::Future) -> bool {
        true
    }

    /// Starts the conversion into a response to the request with the head `req`.
    fn respond_to(self, req: &HttpRequest) -> (fut: Self::Future)
        ensures
            self.responds(*req, fut),
    ;
}

} // verus!
