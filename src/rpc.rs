use vstd::prelude::*;
use crate::framing::JsonlStream;

verus! {

/// JSON-RPC client over a JSON Lines stream.
pub struct RpcClient<S> {
    stream: JsonlStream<S>,
}

impl<S> RpcClient<S> {
    /// The stream the client talks through.
    pub closed spec fn spec_stream(&self) -> JsonlStream<S> {
        self.stream
    }

    /// Makes a new client over the transport `stream`, with empty buffers.
    pub fn new(stream: S) -> (r: Self)
        ensures
            r.spec_stream().wf(),
            r.spec_stream().transport() == stream,
            r.spec_stream().pending_read() == Seq::<u8>::empty(),
            r.spec_stream().pending_write() == Seq::<u8>::empty(),
    {
        RpcClient { stream: JsonlStream::new(stream) }
    }

    /// Returns a reference to the underlying JSON Lines stream.
    pub fn stream(&mut self) -> (r: &JsonlStream<S>)
        ensures
            *r == old(self).spec_stream(),
            *final(self) == *old(self),
    {
        &self.stream
    }

    /// Returns a mutable reference to the underlying JSON Lines stream.
    pub fn stream_mut(&mut self) -> (r: &mut JsonlStream<S>)
        ensures
            *r == old(self).spec_stream(),
            final(self).spec_stream() == *final(r),
    {
        &mut self.stream
    }

    /// Consumes the client and returns the underlying JSON Lines stream.
    pub fn into_stream(self) -> (r: JsonlStream<S>)
        ensures
            r == self.spec_stream(),
    {
        self.stream
    }
}

} // verus!
