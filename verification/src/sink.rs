//! The output sink that one rendering writes into.
//!
//! A sink models the error stream for the duration of a single rendering: a
//! byte buffer plus an availability flag.  A sink constructed as
//! `unavailable` refuses every write, standing for a dead stream; writes
//! into it are the failures that the orchestrator must swallow.

use vstd::prelude::*;
use crate::text::push_bytes;

verus! {

/// Error returned when the sink cannot accept bytes.
#[derive(Clone, Copy, PartialEq, Eq)]
pub struct SinkError;

/// An in-memory output sink scoped to one rendering.
pub struct Sink {
    /// The bytes written so far.
    pub data: Vec<u8>,
    /// Whether the underlying stream is unavailable.
    pub broken: bool,
}

/// What one segment write does to a sink: on a working sink exactly the
/// bytes `b` are appended and the call succeeds; on an unavailable sink
/// nothing is appended.  Availability never changes.
pub open spec fn wrote(pre: Sink, post: Sink, r: Result<(), SinkError>, b: Seq<u8>) -> bool {
    &&& post.broken == pre.broken
    &&& !pre.broken ==> post.data@ == pre.data@ + b && r is Ok
    &&& pre.broken ==> post.data@ == pre.data@
}

impl Sink {
    /// A fresh, working sink.
    pub fn new() -> (s: Sink)
        ensures
            s.data@ == Seq::<u8>::empty(),
            !s.broken,
    {
        Sink { data: Vec::new(), broken: false }
    }

    /// A sink whose stream is unavailable: every write fails and nothing is
    /// ever recorded.
    pub fn unavailable() -> (s: Sink)
        ensures
            s.data@ == Seq::<u8>::empty(),
            s.broken,
    {
        Sink { data: Vec::new(), broken: true }
    }

    /// Writes `b` into the sink, or fails if the stream is unavailable.
    pub fn write_bytes(&mut self, b: &[u8]) -> (r: Result<(), SinkError>)
        ensures
            wrote(*old(self), *final(self), r, b@),
            old(self).broken ==> r is Err,
    {
        if self.broken {
            Err(SinkError)
        } else {
            push_bytes(&mut self.data, b);
            Ok(())
        }
    }

    /// How many bytes have been written so far.
    pub fn len(&self) -> (n: usize)
        ensures
            n == self.data@.len(),
    {
        self.data.len()
    }

    /// Releases the sink, handing back everything written into it.
    pub fn into_bytes(self) -> (out: Vec<u8>)
        ensures
            out@ == self.data@,
    {
        self.data
    }
}

} // verus!
