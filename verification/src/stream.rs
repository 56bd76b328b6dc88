//! Streams as the output scheduler sees them, and the order in which
//! streams with data to send are served: by priority, then by stream ID.

use vstd::prelude::*;
use core::cmp::Ordering;

verus! {

/// What the scheduler reads of a stream.
#[derive(Debug, Copy, Clone, PartialEq, Eq, Structural)]
pub struct StreamHead {
    pub stream_id: u64,
    pub stream_priority: u8,
}

/// `a` is served before `b`: lower priority value first, then lower
/// stream ID.
pub open spec fn stream_before(a: StreamHead, b: StreamHead) -> bool {
    a.stream_priority < b.stream_priority || (a.stream_priority == b.stream_priority && a.stream_id < b.stream_id)
}

/// Compare two streams for the output queue: by priority, then by
/// stream ID.
pub fn compare_stream_priority(stream: &StreamHead, other: &StreamHead) -> (r: Ordering)
    ensures
        stream_before(*stream, *other) ==> r == Ordering::Less,
        stream_before(*other, *stream) ==> r == Ordering::Greater,
        (stream.stream_priority == other.stream_priority && stream.stream_id == other.stream_id) ==> r
            == Ordering::Equal,
{
    if stream.stream_priority < other.stream_priority {
        Ordering::Less
    } else if stream.stream_priority > other.stream_priority {
        Ordering::Greater
    } else if stream.stream_id < other.stream_id {
        Ordering::Less
    } else if stream.stream_id > other.stream_id {
        Ordering::Greater
    } else {
        Ordering::Equal
    }
}

} // verus!
