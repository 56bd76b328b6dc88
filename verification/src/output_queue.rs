//! The queue of streams that have data to send, kept in serving order.

use vstd::prelude::*;
use crate::connection::Connection;
use crate::stream::{stream_before, StreamHead};

verus! {

/// Stream `token` goes before the queued stream `existing`; a token with
/// no stream goes last, and before a queued token with no stream.
pub open spec fn goes_before(streams: Seq<StreamHead>, token: usize, existing: usize) -> bool {
    if token >= streams.len() {
        false
    } else if existing >= streams.len() {
        true
    } else {
        stream_before(streams[token as int], streams[existing as int])
    }
}

/// Where `token` is inserted in `q`, from `k` on: before the first queued
/// stream it goes before, else at the end.
pub open spec fn insert_position(q: Seq<usize>, streams: Seq<StreamHead>, token: usize, k: int) -> int
    decreases q.len() - k,
{
    if k < 0 || k >= q.len() {
        q.len() as int
    } else if goes_before(streams, token, q[k]) {
        k
    } else {
        insert_position(q, streams, token, k + 1)
    }
}

/// The queue is in serving order (no stream is served before one queued
/// ahead of it; equal priority and ID may sit in either order) and names
/// only existing streams.
pub open spec fn queue_sorted(q: Seq<usize>, streams: Seq<StreamHead>) -> bool {
    &&& forall|i: int| 0 <= i < q.len() ==> #[trigger] q[i] < streams.len()
    &&& forall|i: int, j: int| 0 <= i < j < q.len() ==> !stream_before(streams[q[j] as int], streams[q[i] as int])
}

proof fn lemma_insert_position(q: Seq<usize>, streams: Seq<StreamHead>, token: usize, k: int)
    requires
        0 <= k <= q.len(),
    ensures
        k <= insert_position(q, streams, token, k) <= q.len(),
        forall|i: int| k <= i < insert_position(q, streams, token, k) ==> !goes_before(streams, token, #[trigger] q[i]),
        insert_position(q, streams, token, k) < q.len() ==> goes_before(
            streams,
            token,
            q[insert_position(q, streams, token, k)],
        ),
    decreases q.len() - k,
{
    if k < q.len() {
        lemma_insert_position(q, streams, token, k + 1);
    }
}

/// Queue stream `token` for output at its place in serving order, unless
/// it is queued already.
pub fn enqueue_output_stream_token(connection: &mut Connection, token: usize)
    ensures
        old(connection).output_streams@.contains(token) ==> *final(connection) == *old(connection),
        !old(connection).output_streams@.contains(token) ==> final(connection).output_streams@
            == old(connection).output_streams@.insert(
            insert_position(old(connection).output_streams@, old(connection).streams@, token, 0),
            token,
        ),
        *final(connection) == (Connection { output_streams: final(connection).output_streams, ..*old(connection) }),
{
    let n = connection.output_streams.len();
    let mut i: usize = 0;
    while i < n
        invariant
            n == connection.output_streams@.len(),
            i <= n,
            forall|j: int| 0 <= j < i ==> connection.output_streams@[j] != token,
        decreases n - i,
    {
        if connection.output_streams[i] == token {
            assert(connection.output_streams@[i as int] == token);
            return;
        }
        i = i + 1;
    }
    let mut pos: usize = 0;
    while pos < n && !goes_before_exec(&connection.streams, token, connection.output_streams[pos])
        invariant
            n == connection.output_streams@.len(),
            pos <= n,
            insert_position(connection.output_streams@, connection.streams@, token, 0) == insert_position(
                connection.output_streams@,
                connection.streams@,
                token,
                pos as int,
            ),
        decreases n - pos,
    {
        pos = pos + 1;
    }
    connection.output_streams.insert(pos, token);
}

/// Whether stream `token` goes before the queued stream `existing`.
fn goes_before_exec(streams: &Vec<StreamHead>, token: usize, existing: usize) -> (r: bool)
    ensures
        r == goes_before(streams@, token, existing),
{
    if token >= streams.len() {
        false
    } else if existing >= streams.len() {
        true
    } else {
        let l = streams[token];
        let r = streams[existing];
        l.stream_priority < r.stream_priority || (l.stream_priority == r.stream_priority && l.stream_id < r.stream_id)
    }
}

/// Queuing an existing stream keeps the output queue in serving order,
/// and, as a stream already queued is left where it is, a queue without
/// repeated streams gets none.
pub proof fn law_enqueue_keeps_order(q: Seq<usize>, streams: Seq<StreamHead>, token: usize)
    requires
        queue_sorted(q, streams),
        token < streams.len(),
    ensures
        queue_sorted(q.insert(insert_position(q, streams, token, 0), token), streams),
        q.no_duplicates() && !q.contains(token) ==> q.insert(insert_position(q, streams, token, 0), token).no_duplicates(),
{
    let p = insert_position(q, streams, token, 0);
    lemma_insert_position(q, streams, token, 0);
    let q2 = q.insert(p, token);
    assert forall|i: int| 0 <= i < q2.len() implies #[trigger] q2[i] < streams.len() by {
        if i < p {
            assert(q2[i] == q[i]);
        } else if i > p {
            assert(q2[i] == q[i - 1]);
        }
    }
    assert forall|i: int, j: int| 0 <= i < j < q2.len() implies !stream_before(
        streams[q2[j] as int],
        streams[q2[i] as int],
    ) by {
        if j < p {
            assert(q2[i] == q[i] && q2[j] == q[j]);
        } else if j == p {
            assert(q2[i] == q[i]);
            assert(!goes_before(streams, token, q[i]));
        } else if i < p {
            assert(q2[i] == q[i] && q2[j] == q[j - 1]);
        } else if i == p {
            assert(q2[j] == q[j - 1]);
            assert(goes_before(streams, token, q[p]));
            if j - 1 > p {
                assert(!stream_before(streams[q[j - 1] as int], streams[q[p] as int]));
            }
        } else {
            assert(q2[i] == q[i - 1] && q2[j] == q[j - 1]);
        }
    }
    if q.no_duplicates() && !q.contains(token) {
        assert forall|i: int, j: int| 0 <= i < q2.len() && 0 <= j < q2.len() && i != j implies q2[i] != q2[j] by {
            if i != p && j != p {
                let ii = if i < p { i } else { i - 1 };
                let jj = if j < p { j } else { j - 1 };
                assert(q2[i] == q[ii] && q2[j] == q[jj]);
            } else if i == p {
                let jj = if j < p { j } else { j - 1 };
                assert(q2[j] == q[jj]);
            } else {
                let ii = if i < p { i } else { i - 1 };
                assert(q2[i] == q[ii]);
            }
        }
    }
}

} // verus!
