//! The extractor capability: a typed value out of a request.
use crate::http::HttpRequest;
use crate::http::Payload;
use std::future::Future;
use vstd::prelude::*;

verus! {

/// A type whose values can be extracted from a request. `Render` is the error renderer of
/// the application.
pub trait FromRequest<Render>: Sized {
    /// Why an extraction failed.
    type Error;

    /// The extraction under way.
    type Future: Future<Output = Result<Self, Self::Error>> + Unpin;

    /// Whether `fut` is an extraction that `from_request` may start for `req` and `payload`.
    open spec fn extracts(req: HttpRequest, payload: Payload, fut: Self::Future) -> bool {
        true
    }

    /// Starts the extraction from the head of a request and its payload.
    fn from_request(req: &HttpRequest, payload: &mut Payload) -> (fut: Self::Future)
        ensures
            Self::extracts(*req, *old(payload), fut),
    ;
}

} // verus!
