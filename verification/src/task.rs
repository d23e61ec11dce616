//! Polling a future from verified code.
use std::future::Future;
use std::pin::Pin;
use std::task::Context;
use std::task::Poll;
use vstd::prelude::*;

verus! {

/// The context of a task, which a future is polled in. It is only handed on.
#[verifier::external_type_specification]
#[verifier::external_body]
pub struct ExContext<'a>(Context<'a>);

/// What one poll reports: the value, or that it is not there yet.
pub enum Polled<T> {
    Ready(T),
    Pending,
}

/// `Future::poll` on a future that may be moved. What comes back depends on what the future
/// waits for, so nothing is claimed of it. A future that is polled again after it was ready
/// may panic; the callers in this library drop a future as soon as it is ready.
#[verifier::external_body]
pub(crate) fn poll_unpin<Fut: Future + Unpin>(fut: &mut Fut, cx: &mut Context<'_>) -> Polled<
    Fut::Output,
> {
    match Pin::new(fut).poll(cx) {
        Poll::Ready(value) => Polled::Ready(value),
        Poll::Pending => Polled::Pending,
    }
}

} // verus!
