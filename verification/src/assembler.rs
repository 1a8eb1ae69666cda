//! The chunk assembler: reconstructs a multi-chunk byte payload from
//! ordered, numbered socket replies. Arrival order is trusted to equal
//! sequence order; the assembler does not reorder.

use vstd::prelude::*;

use crate::b64::{b64_decode, b64_decode_of};
use crate::error::SDKError;

verus! {

/// The fields of one download chunk payload, as the codec found them:
/// `None` stands for a field that was absent or malformed.
pub struct ChunkPayload {
    /// The encoded text carrying this chunk's bytes.
    pub data: Option<String>,
    /// The sender's running count. The assembler keeps its own count and
    /// does not read this one.
    pub current: Option<u64>,
    /// The expected number of chunks.
    pub total: Option<u64>,
}

/// What one fed chunk did to the assembly.
pub enum FeedResult {
    /// The chunk was appended; more are expected.
    Continue,
    /// The chunk completed the payload; here are all its bytes.
    Done(Vec<u8>),
    /// The chunk was malformed; the assembly is abandoned with no output.
    Failed(SDKError),
}

/// An in-progress assembly: the bytes decoded so far and how many chunks
/// arrived.
pub struct ChunkAssembler {
    pub buf: Vec<u8>,
    pub received: u64,
}

/// How `feed` relates the assembler before and after one chunk, and what
/// it returns: a chunk with both a decodable data field and a total is
/// decoded and appended, completing the assembly when the count reaches
/// the total; any other chunk fails the assembly with
/// `ImproperDataFormat` and leaves no partial output.
pub open spec fn feed_spec(
    pre: ChunkAssembler,
    post: ChunkAssembler,
    chunk: ChunkPayload,
    r: FeedResult,
) -> bool {
    match (chunk.data, chunk.total) {
        (Some(d), Some(t)) => match b64_decode_of(d@) {
            Some(bytes) => {
                &&& post.received == pre.received + 1
                &&& if pre.received + 1 == t {
                    &&& r matches FeedResult::Done(out) && out@ == pre.buf@ + bytes
                    &&& post.buf@ == Seq::<u8>::empty()
                } else {
                    r is Continue && post.buf@ == pre.buf@ + bytes
                }
            },
            None => r matches FeedResult::Failed(e) && e is ImproperDataFormat && post == pre,
        },
        _ => r matches FeedResult::Failed(e) && e is ImproperDataFormat && post == pre,
    }
}

impl ChunkAssembler {
    /// An empty assembly: nothing received.
    pub fn new() -> (r: ChunkAssembler)
        ensures
            r.buf@ == Seq::<u8>::empty(),
            r.received == 0,
    {
        ChunkAssembler { buf: Vec::new(), received: 0 }
    }

    /// Feed the next chunk, in arrival order.
    pub fn feed(&mut self, chunk: &ChunkPayload) -> (r: FeedResult)
        requires
            old(self).received < u64::MAX,
        ensures
            feed_spec(*old(self), *final(self), *chunk, r),
    {
        let (d, t): (&String, u64) = match (&chunk.data, &chunk.total) {
            (Some(d), Some(t)) => (d, *t),
            _ => {
                return FeedResult::Failed(SDKError::ImproperDataFormat);
            },
        };
        let bytes = match b64_decode(d.as_str()) {
            Some(bytes) => bytes,
            None => {
                return FeedResult::Failed(SDKError::ImproperDataFormat);
            },
        };
        self.buf.append(&mut { bytes });
        self.received = self.received + 1;
        if self.received == t {
            let mut out: Vec<u8> = Vec::new();
            core::mem::swap(&mut out, &mut self.buf);
            FeedResult::Done(out)
        } else {
            FeedResult::Continue
        }
    }

    /// The stream ended (channel closed or connection dropped) before the
    /// assembly completed: nothing at all arrived is a mangled receive; a
    /// strict prefix is an improper data format.
    pub fn finish(&self) -> (r: SDKError)
        ensures
            self.received == 0 ==> r is MangledReceive,
            self.received > 0 ==> r is ImproperDataFormat,
    {
        if self.received == 0 {
            SDKError::MangledReceive
        } else {
            SDKError::ImproperDataFormat
        }
    }
}

} // verus!
