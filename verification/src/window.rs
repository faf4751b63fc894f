//! The sliding window as mathematics.
//!
//! A window of capacity `c` over a stream of samples is the stream's last
//! `c` samples, or the whole stream while fewer than `c` have arrived. The
//! buffer maintains it one sample at a time, by evicting the oldest sample
//! of a full window and appending the new one. This module defines both
//! views and proves that they agree.

use vstd::math::min;
use vstd::prelude::*;

verus! {

/// The most recent `capacity` samples of `stream`, oldest first; all of
/// `stream` while it is no longer than `capacity`.
pub open spec fn recent(stream: Seq<u64>, capacity: nat) -> Seq<u64> {
    if stream.len() <= capacity {
        stream
    } else {
        stream.subrange(stream.len() - capacity, stream.len() as int)
    }
}

/// One arrival: a full window loses its oldest sample, then `sample` is
/// appended.
pub open spec fn slide(window: Seq<u64>, capacity: nat, sample: u64) -> Seq<u64>
    recommends
        0 < capacity,
        window.len() <= capacity,
{
    if window.len() < capacity {
        window.push(sample)
    } else {
        window.drop_first().push(sample)
    }
}

/// The window that results from sliding over all of `stream`, starting
/// empty.
pub open spec fn replay(stream: Seq<u64>, capacity: nat) -> Seq<u64>
    recommends
        0 < capacity,
    decreases stream.len(),
{
    if stream.len() == 0 {
        Seq::empty()
    } else {
        slide(replay(stream.drop_last(), capacity), capacity, stream.last())
    }
}

/// A window never outgrows its capacity: it holds `min(n, capacity)` of
/// the `n` samples that have arrived.
pub proof fn lemma_recent_len(stream: Seq<u64>, capacity: nat)
    ensures
        recent(stream, capacity).len() == min(stream.len() as int, capacity as int),
{
}

/// The window is a suffix of the stream: its `i`-th sample is the stream's
/// `(n - len + i)`-th. Once `capacity` samples have arrived, the oldest one
/// retained is therefore the one that arrived `capacity - 1` arrivals before
/// the newest, and nothing older is in the window.
pub proof fn lemma_recent_is_suffix(stream: Seq<u64>, capacity: nat)
    ensures
        forall|i: int|
            0 <= i < recent(stream, capacity).len() ==> #[trigger] recent(stream, capacity)[i]
                == stream[stream.len() - recent(stream, capacity).len() + i],
        0 < capacity <= stream.len() ==> recent(stream, capacity)[0] == stream[stream.len()
            - capacity],
        0 < stream.len() && 0 < capacity ==> recent(stream, capacity).last() == stream.last(),
{
}

/// Sliding the window of a stream by one sample gives the window of the
/// stream with that sample appended.
pub proof fn lemma_slide_recent(stream: Seq<u64>, capacity: nat, sample: u64)
    requires
        0 < capacity,
    ensures
        slide(recent(stream, capacity), capacity, sample) == recent(
            stream.push(sample),
            capacity,
        ),
{
    assert(slide(recent(stream, capacity), capacity, sample) =~= recent(
        stream.push(sample),
        capacity,
    ));
}

/// Sliding over a whole stream from the empty window leaves exactly the
/// stream's most recent samples, however long the stream is.
pub proof fn lemma_replay_is_recent(stream: Seq<u64>, capacity: nat)
    requires
        0 < capacity,
    ensures
        replay(stream, capacity) == recent(stream, capacity),
        replay(stream, capacity).len() == min(stream.len() as int, capacity as int),
        capacity <= stream.len() ==> replay(stream, capacity)[0] == stream[stream.len()
            - capacity],
    decreases stream.len(),
{
    if stream.len() == 0 {
        assert(replay(stream, capacity) =~= recent(stream, capacity));
    } else {
        let earlier = stream.drop_last();
        lemma_replay_is_recent(earlier, capacity);
        lemma_slide_recent(earlier, capacity, stream.last());
        assert(earlier.push(stream.last()) =~= stream);
    }
}

} // verus!
