//! The error-rendering capability of an application.
use crate::http::Body;
use crate::http::HttpRequest;
use crate::http::HttpResponse;
use crate::http::WebResponse;
use vstd::prelude::*;

verus! {

/// Turns a failure into a response. An application chooses one renderer; failures of
/// extractors and responders are first converted into its `Container`.
pub trait ErrorRenderer: Sized {
    /// The failure value that the renderer understands.
    type Container;

    /// Whether `res` is a response that `render` may give for `err` and `req`.
    open spec fn renders(err: Self::Container, req: HttpRequest, res: HttpResponse<Body>) -> bool {
        true
    }

    /// The response that stands for the failure `err` of the request `req`. There is always
    /// one.
    fn render(err: Self::Container, req: &HttpRequest) -> (res: HttpResponse<Body>)
        ensures
            Self::renders(err, *req, res),
    ;
}

/// Whether `res` is a response that the renderer may give for the failure `err`, once
/// converted, and the request `req`.
pub open spec fn rendered_from<Render: ErrorRenderer, E: Into<Render::Container>>(
    err: E,
    req: HttpRequest,
    res: HttpResponse<Body>,
) -> bool {
    exists|c: Render::Container|
        call_ensures(<E as Into<Render::Container>>::into, (err,), c) && #[trigger] Render::renders(
            c,
            req,
            res,
        )
}

impl WebResponse<Body> {
    /// The response for a request that failed: what the renderer gives for the failure,
    /// together with the head of the request.
    pub fn from_err<Render: ErrorRenderer, E: Into<Render::Container>>(
        err: E,
        request: HttpRequest,
    ) -> (res: Self)
        ensures
            res.request == request,
            rendered_from::<Render, E>(err, request, res.response),
    {
        let container: Render::Container = err.into();
        let response = Render::render(container, &request);
        WebResponse { request, response }
    }
}

} // verus!
