//! The body of a response, as a stream of chunks.
use crate::task::Polled;
use bytes::Bytes;
use std::task::Context;
use vstd::prelude::*;

verus! {

/// A chunk of a body: the `bytes` crate's buffer of bytes.
#[verifier::external_type_specification]
#[verifier::external_body]
pub struct ExBytes(Bytes);

/// The bytes that a chunk holds.
pub uninterp spec fn contents(chunk: Bytes) -> Seq<u8>;

/// `Bytes::len` gives the number of bytes that the chunk holds.
pub assume_specification[ Bytes::len ](chunk: &Bytes) -> (n: usize)
    ensures
        n == contents(*chunk).len(),
;

/// What is known of the size of a body before it is read.
#[derive(Clone, Copy, Debug)]
pub enum BodySize {
    /// There is no body.
    Absent,
    /// The body is there and holds nothing.
    Empty,
    Sized(usize),
    Sized64(u64),
    Stream,
}

/// A body that is read chunk by chunk.
pub trait MessageBody {
    /// Why the body could not be read on.
    type Error;

    /// Whether `size` is what `size` may report.
    open spec fn sized(&self, size: BodySize) -> bool {
        true
    }

    /// Whether `res` is what `poll_next_chunk` may report, and `after` the body that it
    /// leaves.
    open spec fn gives(
        &self,
        after: &Self,
        res: Polled<Option<Result<Bytes, Self::Error>>>,
    ) -> bool {
        true
    }

    fn size(&self) -> (size: BodySize)
        ensures
            self.sized(size),
    ;

    /// The next chunk; `None` after the last one.
    fn poll_next_chunk(&mut self, cx: &mut Context<'_>) -> (res: Polled<
        Option<Result<Bytes, Self::Error>>,
    >)
        ensures
            old(self).gives(final(self), res),
    ;
}

} // verus!
