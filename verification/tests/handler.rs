use ntex_web::dispatch::Phase;
use ntex_web::error::ErrorRenderer;
use ntex_web::extract::FromRequest;
use ntex_web::handler::{Handler, HandlerWrapper, HandlerWrapperResponse};
use ntex_web::http::{Body, HttpRequest, HttpResponse, Payload, WebRequest, WebResponse};
use ntex_web::responder::Responder;
use ntex_web::task::Polled;
use std::cell::Cell;
use std::future::{ready, Future, Ready};
use std::pin::Pin;
use std::task::{Context, Poll, Waker};

/// The failure value of the test application.
#[derive(Debug, PartialEq)]
struct AppError {
    status: u16,
    message: String,
}

/// The error renderer of the test application: the status and the message of the failure.
struct App;

impl ErrorRenderer for App {
    type Container = AppError;

    fn render(err: AppError, _req: &HttpRequest) -> HttpResponse<Body> {
        HttpResponse::new(err.status, err.message.into_bytes())
    }
}

/// A segment of the path that is no number.
#[derive(Debug)]
struct BadSegment(String);

impl From<BadSegment> for AppError {
    fn from(e: BadSegment) -> AppError {
        AppError { status: 400, message: format!("bad request: {}", e.0) }
    }
}

/// A response that could not be made.
#[derive(Debug)]
struct Unwritable;

impl From<Unwritable> for AppError {
    fn from(_: Unwritable) -> AppError {
        AppError { status: 500, message: "unwritable".to_string() }
    }
}

/// The last segment of the path, read as a number.
struct Id(i64);

fn last_segment(req: &HttpRequest) -> Result<i64, BadSegment> {
    let seg = req.path.rsplit('/').next().unwrap_or("");
    seg.parse::<i64>().map_err(|_| BadSegment(seg.to_string()))
}

impl FromRequest<App> for (Id,) {
    type Error = BadSegment;
    type Future = Ready<Result<(Id,), BadSegment>>;

    fn from_request(req: &HttpRequest, _payload: &mut Payload) -> Self::Future {
        ready(last_segment(req).map(|n| (Id(n),)))
    }
}

impl FromRequest<App> for () {
    type Error = BadSegment;
    type Future = Ready<Result<(), BadSegment>>;

    fn from_request(_req: &HttpRequest, _payload: &mut Payload) -> Self::Future {
        ready(Ok(()))
    }
}

impl FromRequest<App> for (i64, String) {
    type Error = BadSegment;
    type Future = Ready<Result<(i64, String), BadSegment>>;

    fn from_request(req: &HttpRequest, _payload: &mut Payload) -> Self::Future {
        ready(last_segment(req).map(|n| (n, req.query.clone())))
    }
}

/// A text that becomes the body of a response with status 200; the text `fail` cannot be
/// turned into a response.
struct Text(String);

impl Responder<App> for Text {
    type Error = Unwritable;
    type Future = Ready<Result<HttpResponse<Body>, Unwritable>>;

    fn respond_to(self, _req: &HttpRequest) -> Self::Future {
        if self.0 == "fail" {
            ready(Err(Unwritable))
        } else {
            ready(Ok(HttpResponse::new(200, self.0.into_bytes())))
        }
    }
}

fn request(path: &str) -> WebRequest<App> {
    WebRequest::new(HttpRequest::new("GET", path), Payload::new(Vec::new()))
}

fn drive<F, T>(unit: &mut HandlerWrapperResponse<F, T, App>) -> WebResponse<Body>
where
    F: Handler<T, App>,
    T: FromRequest<App>,
    T::Error: Into<AppError>,
    <F::Output as Responder<App>>::Error: Into<AppError>,
{
    let mut cx = Context::from_waker(Waker::noop());
    for _ in 0..16 {
        match unit.poll(&mut cx) {
            Polled::Ready(res) => return res.ok().unwrap(),
            Polled::Pending => {}
        }
    }
    panic!("the request did not end");
}

#[test]
fn fixed_value_gives_status_200_and_the_head() {
    let calls = Cell::new(0u32);
    let handler = || {
        calls.set(calls.get() + 1);
        ready(Text("hello".to_string()))
    };
    let wrapper = HandlerWrapper::<_, (), App>::new(handler);
    let mut unit = wrapper.call(request("/index"));
    assert_eq!(unit.current(), Phase::Extracting);
    let res = drive(&mut unit);
    assert_eq!(unit.current(), Phase::Terminal);
    assert_eq!(res.response.status, 200);
    assert_eq!(res.response.body, b"hello".to_vec());
    assert_eq!(res.request.path, "/index");
    assert_eq!(res.request.method, "GET");
    assert_eq!(calls.get(), 1);
}

#[test]
fn failed_extraction_is_rendered_and_never_reaches_the_handler() {
    let calls = Cell::new(0u32);
    let handler = |id: Id| {
        calls.set(calls.get() + 1);
        ready(Text(format!("item {}", id.0)))
    };
    let wrapper = HandlerWrapper::<_, (Id,), App>::new(handler);
    let mut unit = wrapper.call(request("/items/abc"));
    let res = drive(&mut unit);
    assert_eq!(res.response.status, 400);
    assert_eq!(res.response.body, b"bad request: abc".to_vec());
    assert_eq!(res.request.path, "/items/abc");
    assert_eq!(calls.get(), 0);
    assert_eq!(unit.current(), Phase::Terminal);
}

/// A future that is not ready for a number of polls and then gives its value.
struct Later<T> {
    waits: u32,
    value: Option<T>,
}

impl<T: Unpin> Future for Later<T> {
    type Output = T;

    fn poll(self: Pin<&mut Self>, _cx: &mut Context<'_>) -> Poll<T> {
        let this = self.get_mut();
        if this.waits > 0 {
            this.waits -= 1;
            Poll::Pending
        } else {
            Poll::Ready(this.value.take().unwrap())
        }
    }
}

/// The query of the request, read as the number of polls that the extraction is to wait.
struct Waits(u32);

impl FromRequest<App> for (Waits,) {
    type Error = BadSegment;
    type Future = Later<Result<(Waits,), BadSegment>>;

    fn from_request(req: &HttpRequest, _payload: &mut Payload) -> Self::Future {
        let waits = req.query.parse::<u32>().unwrap_or(0);
        let value = if req.path == "/bad" {
            Err(BadSegment("bad".to_string()))
        } else {
            Ok((Waits(waits),))
        };
        Later { waits, value: Some(value) }
    }
}

/// A text whose conversion waits for a number of polls.
struct SlowText(u32, String);

impl Responder<App> for SlowText {
    type Error = Unwritable;
    type Future = Later<Result<HttpResponse<Body>, Unwritable>>;

    fn respond_to(self, req: &HttpRequest) -> Self::Future {
        let value = if self.1 == "fail" {
            Err(Unwritable)
        } else {
            Ok(HttpResponse::new(200, format!("{} {}", req.path, self.1).into_bytes()))
        };
        Later { waits: self.0, value: Some(value) }
    }
}

#[test]
fn success_carries_the_head_and_the_body_and_calls_the_handler_once() {
    let calls = Cell::new(0u32);
    let handler = |id: Id| {
        calls.set(calls.get() + 1);
        ready(Text(format!("item {}", id.0)))
    };
    let wrapper = HandlerWrapper::<_, (Id,), App>::new(handler);
    let mut head = HttpRequest::new("GET", "/items/17");
    head.query = "verbose".to_string();
    head.remote = Some("peer".to_string());
    let mut unit = wrapper.call(WebRequest::new(head, Payload::new(b"ignored".to_vec())));
    let res = drive(&mut unit);
    assert_eq!(res.response.status, 200);
    assert_eq!(res.response.body, b"item 17".to_vec());
    assert_eq!(res.request.method, "GET");
    assert_eq!(res.request.path, "/items/17");
    assert_eq!(res.request.query, "verbose");
    assert_eq!(res.request.remote, Some("peer".to_string()));
    assert_eq!(calls.get(), 1);
}

#[test]
fn failed_conversion_is_rendered_after_the_handler_ran_once() {
    let calls = Cell::new(0u32);
    let handler = |_id: Id| {
        calls.set(calls.get() + 1);
        ready(Text("fail".to_string()))
    };
    let wrapper = HandlerWrapper::<_, (Id,), App>::new(handler);
    let mut unit = wrapper.call(request("/items/3"));
    let res = drive(&mut unit);
    assert_eq!(res.response.status, 500);
    assert_eq!(res.response.body, b"unwritable".to_vec());
    assert_eq!(res.request.path, "/items/3");
    assert_eq!(calls.get(), 1);
}

#[test]
fn one_poll_passes_through_all_three_phases() {
    let handler = |id: Id| ready(Text(format!("{}", id.0)));
    let wrapper = HandlerWrapper::<_, (Id,), App>::new(handler);
    let mut unit = wrapper.call(request("/1"));
    let mut cx = Context::from_waker(Waker::noop());
    match unit.poll(&mut cx) {
        Polled::Ready(Ok(res)) => assert_eq!(res.response.body, b"1".to_vec()),
        _ => panic!("one poll was not enough"),
    }
    assert_eq!(unit.current(), Phase::Terminal);
}

#[test]
fn a_request_waits_in_the_phase_that_is_not_ready() {
    let calls = Cell::new(0u32);
    let handler = |w: Waits| {
        calls.set(calls.get() + 1);
        Later { waits: 1, value: Some(SlowText(3, format!("after {}", w.0))) }
    };
    let wrapper = HandlerWrapper::<_, (Waits,), App>::new(handler);
    let mut head = HttpRequest::new("GET", "/slow");
    head.query = "2".to_string();
    let mut unit = wrapper.call(WebRequest::new(head, Payload::new(Vec::new())));
    let mut cx = Context::from_waker(Waker::noop());

    let mut seen = Vec::new();
    let res = loop {
        match unit.poll(&mut cx) {
            Polled::Pending => seen.push((unit.current(), calls.get())),
            Polled::Ready(res) => break res.ok().unwrap(),
        }
    };
    assert_eq!(
        seen,
        vec![
            (Phase::Extracting, 0),
            (Phase::Extracting, 0),
            (Phase::Invoking, 1),
            (Phase::Responding, 1),
            (Phase::Responding, 1),
            (Phase::Responding, 1),
        ]
    );
    assert_eq!(unit.current(), Phase::Terminal);
    assert_eq!(calls.get(), 1);
    assert_eq!(res.response.status, 200);
    assert_eq!(res.response.body, b"/slow after 2".to_vec());
    assert_eq!(res.request.path, "/slow");
}

#[test]
fn a_slow_extraction_that_fails_never_reaches_the_handler() {
    let calls = Cell::new(0u32);
    let handler = |_w: Waits| {
        calls.set(calls.get() + 1);
        ready(Text("never".to_string()))
    };
    let wrapper = HandlerWrapper::<_, (Waits,), App>::new(handler);
    let mut head = HttpRequest::new("GET", "/bad");
    head.query = "3".to_string();
    let mut unit = wrapper.call(WebRequest::new(head, Payload::new(Vec::new())));
    let mut cx = Context::from_waker(Waker::noop());
    for _ in 0..3 {
        assert!(matches!(unit.poll(&mut cx), Polled::Pending));
        assert_eq!(unit.current(), Phase::Extracting);
    }
    match unit.poll(&mut cx) {
        Polled::Ready(Ok(res)) => {
            assert_eq!(res.response.status, 400);
            assert_eq!(res.response.body, b"bad request: bad".to_vec());
            assert_eq!(res.request.path, "/bad");
        }
        _ => panic!("the failure was not rendered"),
    }
    assert_eq!(unit.current(), Phase::Terminal);
    assert_eq!(calls.get(), 0);
}

#[test]
fn a_copy_of_the_adapter_answers_alike() {
    let handler = |id: Id| ready(Text(format!("item {}", id.0)));
    let first = HandlerWrapper::<_, (Id,), App>::new(handler);
    let second = first.clone_handler();
    let third = second.clone();
    for path in ["/items/5", "/items/abc", "/"] {
        let a = drive(&mut first.call(request(path)));
        let b = drive(&mut second.call(request(path)));
        let c = drive(&mut third.call(request(path)));
        assert_eq!(a.response.status, b.response.status);
        assert_eq!(a.response.body, b.response.body);
        assert_eq!(a.request.path, b.request.path);
        assert_eq!(a.response.status, c.response.status);
        assert_eq!(a.response.body, c.response.body);
        assert_eq!(a.request.path, c.request.path);
    }
}

#[test]
fn parameters_arrive_in_their_order() {
    let seen = Cell::new((0i64, String::new()));
    let handler = |id: i64, name: String| {
        seen.set((id, name));
        ready(Text("ok".to_string()))
    };
    let wrapper = HandlerWrapper::<_, (i64, String), App>::new(handler);
    let mut head = HttpRequest::new("GET", "/42");
    head.query = "x".to_string();
    let res = drive(&mut wrapper.call(WebRequest::new(head, Payload::new(Vec::new()))));
    assert_eq!(res.response.status, 200);
    assert_eq!(seen.take(), (42, "x".to_string()));
}

#[test]
fn the_steps_can_be_taken_one_by_one() {
    let calls = Cell::new(0u32);
    let handler = |id: Id| {
        calls.set(calls.get() + 1);
        ready(Text(format!("item {}", id.0)))
    };
    let wrapper = HandlerWrapper::<_, (Id,), App>::new(handler);

    let mut unit = wrapper.call(request("/9"));
    assert!(unit.extracted(Ok((Id(7),))).is_none());
    assert_eq!(unit.current(), Phase::Invoking);
    assert_eq!(calls.get(), 1);
    unit.invoked(Text("made by hand".to_string()));
    assert_eq!(unit.current(), Phase::Responding);
    let res = unit.responded(Ok(HttpResponse::new(204, b"given".to_vec()))).ok().unwrap();
    assert_eq!(unit.current(), Phase::Terminal);
    assert_eq!(res.response.status, 204);
    assert_eq!(res.response.body, b"given".to_vec());
    assert_eq!(res.request.path, "/9");
    assert_eq!(calls.get(), 1);

    let mut unit = wrapper.call(request("/9"));
    let res = unit.extracted(Err(BadSegment("zzz".to_string()))).unwrap().ok().unwrap();
    assert_eq!(unit.current(), Phase::Terminal);
    assert_eq!(res.response.status, 400);
    assert_eq!(res.response.body, b"bad request: zzz".to_vec());
    assert_eq!(res.request.path, "/9");
    assert_eq!(calls.get(), 1);

    let mut unit = wrapper.call(request("/9"));
    assert!(unit.extracted(Ok((Id(1),))).is_none());
    unit.invoked(Text("x".to_string()));
    let res = unit.responded(Err(Unwritable)).ok().unwrap();
    assert_eq!(unit.current(), Phase::Terminal);
    assert_eq!(res.response.status, 500);
    assert_eq!(res.request.path, "/9");
    assert_eq!(calls.get(), 2);
}

#[test]
fn the_payload_goes_to_the_extraction() {
    struct Whole(Vec<u8>);
    impl FromRequest<App> for (Whole,) {
        type Error = BadSegment;
        type Future = Ready<Result<(Whole,), BadSegment>>;

        fn from_request(_req: &HttpRequest, payload: &mut Payload) -> Self::Future {
            ready(Ok((Whole(payload.take()),)))
        }
    }
    let handler = |body: Whole| ready(Text(String::from_utf8(body.0).unwrap()));
    let wrapper = HandlerWrapper::<_, (Whole,), App>::new(handler);
    let req = WebRequest::new(HttpRequest::new("POST", "/echo"), Payload::new(b"payload".to_vec()));
    let res = drive(&mut wrapper.call(req));
    assert_eq!(res.response.body, b"payload".to_vec());
    assert_eq!(res.request.method, "POST");
}

#[test]
fn the_bound_on_the_parameters_is_ten() {
    assert_eq!(ntex_web::handler::MAX_ARITY, 10);
}

/// Tuples of one to ten small numbers, extracted as 1, 2, 3 and so on.
type N1 = (u8,);
type N2 = (u8, u8);
type N3 = (u8, u8, u8);
type N4 = (u8, u8, u8, u8);
type N5 = (u8, u8, u8, u8, u8);
type N6 = (u8, u8, u8, u8, u8, u8);
type N7 = (u8, u8, u8, u8, u8, u8, u8);
type N8 = (u8, u8, u8, u8, u8, u8, u8, u8);
type N9 = (u8, u8, u8, u8, u8, u8, u8, u8, u8);
type N10 = (u8, u8, u8, u8, u8, u8, u8, u8, u8, u8);

impl FromRequest<App> for N1 {
    type Error = BadSegment;
    type Future = Ready<Result<Self, BadSegment>>;

    fn from_request(_req: &HttpRequest, _payload: &mut Payload) -> Self::Future {
        ready(Ok((1,)))
    }
}

impl FromRequest<App> for N2 {
    type Error = BadSegment;
    type Future = Ready<Result<Self, BadSegment>>;

    fn from_request(_req: &HttpRequest, _payload: &mut Payload) -> Self::Future {
        ready(Ok((1, 2)))
    }
}

impl FromRequest<App> for N3 {
    type Error = BadSegment;
    type Future = Ready<Result<Self, BadSegment>>;

    fn from_request(_req: &HttpRequest, _payload: &mut Payload) -> Self::Future {
        ready(Ok((1, 2, 3)))
    }
}

impl FromRequest<App> for N4 {
    type Error = BadSegment;
    type Future = Ready<Result<Self, BadSegment>>;

    fn from_request(_req: &HttpRequest, _payload: &mut Payload) -> Self::Future {
        ready(Ok((1, 2, 3, 4)))
    }
}

impl FromRequest<App> for N5 {
    type Error = BadSegment;
    type Future = Ready<Result<Self, BadSegment>>;

    fn from_request(_req: &HttpRequest, _payload: &mut Payload) -> Self::Future {
        ready(Ok((1, 2, 3, 4, 5)))
    }
}

impl FromRequest<App> for N6 {
    type Error = BadSegment;
    type Future = Ready<Result<Self, BadSegment>>;

    fn from_request(_req: &HttpRequest, _payload: &mut Payload) -> Self::Future {
        ready(Ok((1, 2, 3, 4, 5, 6)))
    }
}

impl FromRequest<App> for N7 {
    type Error = BadSegment;
    type Future = Ready<Result<Self, BadSegment>>;

    fn from_request(_req: &HttpRequest, _payload: &mut Payload) -> Self::Future {
        ready(Ok((1, 2, 3, 4, 5, 6, 7)))
    }
}

impl FromRequest<App> for N8 {
    type Error = BadSegment;
    type Future = Ready<Result<Self, BadSegment>>;

    fn from_request(_req: &HttpRequest, _payload: &mut Payload) -> Self::Future {
        ready(Ok((1, 2, 3, 4, 5, 6, 7, 8)))
    }
}

impl FromRequest<App> for N9 {
    type Error = BadSegment;
    type Future = Ready<Result<Self, BadSegment>>;

    fn from_request(_req: &HttpRequest, _payload: &mut Payload) -> Self::Future {
        ready(Ok((1, 2, 3, 4, 5, 6, 7, 8, 9)))
    }
}

impl FromRequest<App> for N10 {
    type Error = BadSegment;
    type Future = Ready<Result<Self, BadSegment>>;

    fn from_request(_req: &HttpRequest, _payload: &mut Payload) -> Self::Future {
        ready(Ok((1, 2, 3, 4, 5, 6, 7, 8, 9, 10)))
    }
}

#[test]
fn arity_1_keeps_the_order() {
    let seen = Cell::new(Vec::new());
    let handler = |a: u8| {
        seen.set(vec![a]);
        ready(Text("ok".to_string()))
    };
    let wrapper = HandlerWrapper::<_, N1, App>::new(handler);
    let res = drive(&mut wrapper.call(request("/")));
    assert_eq!(res.response.status, 200);
    assert_eq!(seen.take(), vec![1]);
}

#[test]
fn arity_2_keeps_the_order() {
    let seen = Cell::new(Vec::new());
    let handler = |a: u8, b: u8| {
        seen.set(vec![a, b]);
        ready(Text("ok".to_string()))
    };
    let wrapper = HandlerWrapper::<_, N2, App>::new(handler);
    let res = drive(&mut wrapper.call(request("/")));
    assert_eq!(res.response.status, 200);
    assert_eq!(seen.take(), vec![1, 2]);
}

#[test]
fn arity_3_keeps_the_order() {
    let seen = Cell::new(Vec::new());
    let handler = |a: u8, b: u8, c: u8| {
        seen.set(vec![a, b, c]);
        ready(Text("ok".to_string()))
    };
    let wrapper = HandlerWrapper::<_, N3, App>::new(handler);
    let res = drive(&mut wrapper.call(request("/")));
    assert_eq!(res.response.status, 200);
    assert_eq!(seen.take(), vec![1, 2, 3]);
}

#[test]
fn arity_4_keeps_the_order() {
    let seen = Cell::new(Vec::new());
    let handler = |a: u8, b: u8, c: u8, d: u8| {
        seen.set(vec![a, b, c, d]);
        ready(Text("ok".to_string()))
    };
    let wrapper = HandlerWrapper::<_, N4, App>::new(handler);
    let res = drive(&mut wrapper.call(request("/")));
    assert_eq!(res.response.status, 200);
    assert_eq!(seen.take(), vec![1, 2, 3, 4]);
}

#[test]
fn arity_5_keeps_the_order() {
    let seen = Cell::new(Vec::new());
    let handler = |a: u8, b: u8, c: u8, d: u8, e: u8| {
        seen.set(vec![a, b, c, d, e]);
        ready(Text("ok".to_string()))
    };
    let wrapper = HandlerWrapper::<_, N5, App>::new(handler);
    let res = drive(&mut wrapper.call(request("/")));
    assert_eq!(res.response.status, 200);
    assert_eq!(seen.take(), vec![1, 2, 3, 4, 5]);
}

#[test]
fn arity_6_keeps_the_order() {
    let seen = Cell::new(Vec::new());
    let handler = |a: u8, b: u8, c: u8, d: u8, e: u8, f: u8| {
        seen.set(vec![a, b, c, d, e, f]);
        ready(Text("ok".to_string()))
    };
    let wrapper = HandlerWrapper::<_, N6, App>::new(handler);
    let res = drive(&mut wrapper.call(request("/")));
    assert_eq!(res.response.status, 200);
    assert_eq!(seen.take(), vec![1, 2, 3, 4, 5, 6]);
}

#[test]
fn arity_7_keeps_the_order() {
    let seen = Cell::new(Vec::new());
    let handler = |a: u8, b: u8, c: u8, d: u8, e: u8, f: u8, g: u8| {
        seen.set(vec![a, b, c, d, e, f, g]);
        ready(Text("ok".to_string()))
    };
    let wrapper = HandlerWrapper::<_, N7, App>::new(handler);
    let res = drive(&mut wrapper.call(request("/")));
    assert_eq!(res.response.status, 200);
    assert_eq!(seen.take(), vec![1, 2, 3, 4, 5, 6, 7]);
}

#[test]
fn arity_8_keeps_the_order() {
    let seen = Cell::new(Vec::new());
    let handler = |a: u8, b: u8, c: u8, d: u8, e: u8, f: u8, g: u8, h: u8| {
        seen.set(vec![a, b, c, d, e, f, g, h]);
        ready(Text("ok".to_string()))
    };
    let wrapper = HandlerWrapper::<_, N8, App>::new(handler);
    let res = drive(&mut wrapper.call(request("/")));
    assert_eq!(res.response.status, 200);
    assert_eq!(seen.take(), vec![1, 2, 3, 4, 5, 6, 7, 8]);
}

#[test]
fn arity_9_keeps_the_order() {
    let seen = Cell::new(Vec::new());
    let handler = |a: u8, b: u8, c: u8, d: u8, e: u8, f: u8, g: u8, h: u8, i: u8| {
        seen.set(vec![a, b, c, d, e, f, g, h, i]);
        ready(Text("ok".to_string()))
    };
    let wrapper = HandlerWrapper::<_, N9, App>::new(handler);
    let res = drive(&mut wrapper.call(request("/")));
    assert_eq!(res.response.status, 200);
    assert_eq!(seen.take(), vec![1, 2, 3, 4, 5, 6, 7, 8, 9]);
}

#[test]
fn arity_10_keeps_the_order() {
    let seen = Cell::new(Vec::new());
    let handler = |a: u8, b: u8, c: u8, d: u8, e: u8, f: u8, g: u8, h: u8, i: u8, j: u8| {
        seen.set(vec![a, b, c, d, e, f, g, h, i, j]);
        ready(Text("ok".to_string()))
    };
    let wrapper = HandlerWrapper::<_, N10, App>::new(handler);
    let res = drive(&mut wrapper.call(request("/")));
    assert_eq!(res.response.status, 200);
    assert_eq!(seen.take(), vec![1, 2, 3, 4, 5, 6, 7, 8, 9, 10]);
}

#[test]
fn the_adapter_is_always_ready() {
    let handler = || ready(Text("x".to_string()));
    let wrapper = HandlerWrapper::<_, (), App>::new(handler);
    let mut cx = Context::from_waker(Waker::noop());
    assert!(matches!(wrapper.poll_ready(&mut cx), Polled::Ready(Ok(()))));
    assert!(matches!(wrapper.poll_shutdown(&mut cx, false), Polled::Ready(())));
    assert!(matches!(wrapper.poll_shutdown(&mut cx, true), Polled::Ready(())));
}
