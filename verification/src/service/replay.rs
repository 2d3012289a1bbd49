//! The most recent output of a terminal, addressed by its offset from the beginning.
use super::model::{RawReplay, RawReplayView};
use crate::error::Error;
use std::collections::VecDeque;
use vstd::prelude::*;

verus! {

/// The last bytes of a stream, up to a capacity, and where in the stream they stand.
pub struct ReplayBuffer {
    pub bytes: VecDeque<u8>,
    pub capacity: usize,
    pub head: u64,
    pub tail: u64,
}

/// A `ReplayBuffer` as a mathematical value.
#[verifier::ext_equal]
pub struct ReplayView {
    pub bytes: Seq<u8>,
    pub capacity: nat,
    pub head: u64,
    pub tail: u64,
}

/// The last `n` items of `s`, or all of them.
pub open spec fn last_of<T>(s: Seq<T>, n: nat) -> Seq<T> {
    if s.len() <= n {
        s
    } else {
        s.skip(s.len() - n)
    }
}

/// The sum of two offsets, held at the greatest one.
pub open spec fn saturating_end(start: u64, length: nat) -> u64 {
    if start + length > u64::MAX {
        u64::MAX
    } else {
        (start + length) as u64
    }
}

impl ReplayView {
    pub open spec fn valid(self) -> bool {
        &&& self.bytes.len() <= self.capacity <= u64::MAX
        &&& self.head + self.bytes.len() == self.tail
    }

    /// After `more` has been produced.
    pub open spec fn appended(self, more: Seq<u8>) -> ReplayView {
        let bytes = last_of(self.bytes + more, self.capacity);
        let tail = saturating_end(self.tail, more.len());
        ReplayView { bytes, capacity: self.capacity, head: (tail - bytes.len()) as u64, tail }
    }

    /// The output from `offset` on, as far as it is still there.
    pub open spec fn from_offset(self, offset: u64) -> RawReplayView {
        let available = if offset < self.head {
            self.head
        } else {
            offset
        };
        RawReplayView {
            requested_offset: offset,
            available_offset: available,
            end_offset: self.tail,
            truncated: offset < self.head,
            bytes: self.bytes.skip(available - self.head),
        }
    }

    /// The buffer holds the end of `history`, which is all that was ever produced.
    pub open spec fn records(self, history: Seq<u8>) -> bool {
        &&& self.tail == history.len()
        &&& self.bytes == last_of(history, self.capacity)
        &&& self.head == history.len() - self.bytes.len()
    }
}

/// `replay` is what `buffer` gives back from `offset` on: it begins at the offset, or at the oldest
/// byte that is left if that one is gone, it ends at the end of the output, and between the two it
/// has every byte.
pub open spec fn gives_back(buffer: ReplayView, offset: u64, replay: RawReplayView) -> bool {
    &&& offset <= buffer.tail
    &&& replay.requested_offset == offset
    &&& replay.available_offset >= offset
    &&& replay.available_offset >= buffer.head
    &&& replay.available_offset == offset || replay.available_offset == buffer.head
    &&& replay.end_offset == buffer.tail
    &&& replay.truncated <==> offset < buffer.head
    &&& replay.available_offset + replay.bytes.len() == replay.end_offset
    &&& forall|i: int|
        0 <= i < replay.bytes.len() ==> #[trigger] replay.bytes[i] == buffer.bytes[
            replay.available_offset - buffer.head + i]
}

impl View for ReplayBuffer {
    type V = ReplayView;

    open spec fn view(&self) -> ReplayView {
        ReplayView {
            bytes: self.bytes@,
            capacity: self.capacity as nat,
            head: self.head,
            tail: self.tail,
        }
    }
}

impl ReplayBuffer {
    pub open spec fn wf(self) -> bool {
        self@.valid()
    }

    /// A buffer of nothing yet.
    pub fn new(capacity: usize) -> (r: Self)
        ensures
            r.wf(),
            r@ == (ReplayView { bytes: Seq::empty(), capacity: capacity as nat, head: 0, tail: 0 }),
    {
        let initial: usize = if capacity < 65_536 {
            capacity
        } else {
            65_536
        };
        ReplayBuffer { bytes: VecDeque::with_capacity(initial), capacity, head: 0, tail: 0 }
    }

    /// Adds what was produced, and tells where in the stream it begins and ends.
    pub fn append(&mut self, bytes: &[u8]) -> (r: (u64, u64))
        requires
            old(self).wf(),
        ensures
            final(self).wf(),
            final(self)@ == old(self)@.appended(bytes@),
            r.0 == old(self)@.tail,
            r.1 == final(self)@.tail,
            final(self)@.tail == saturating_end(old(self)@.tail, bytes@.len()),
    {
        let start: u64 = self.tail;
        let length: u64 = bytes.len() as u64;
        self.tail = if length > u64::MAX - start {
            u64::MAX
        } else {
            start + length
        };
        let ghost held = self.bytes@;
        let mut i: usize = 0;
        while i < bytes.len()
            invariant
                i <= bytes@.len(),
                self.bytes@ == held + bytes@.take(i as int),
                self.capacity == old(self).capacity,
                self.head == old(self).head,
                self.tail == saturating_end(old(self).tail, bytes@.len()),
            decreases bytes@.len() - i,
        {
            self.bytes.push_back(bytes[i]);
            i += 1;
            assert(bytes@.take(i as int) =~= bytes@.take(i - 1).push(bytes@[i - 1]));
            assert(self.bytes@ =~= held + bytes@.take(i as int));
        }
        assert(bytes@.take(i as int) =~= bytes@);
        let ghost joined = self.bytes@;
        let ghost mut dropped: int = 0;
        while self.bytes.len() > self.capacity
            invariant
                0 <= dropped <= joined.len(),
                self.bytes@ == joined.skip(dropped),
                dropped > 0 ==> self.bytes@.len() >= self.capacity,
                self.capacity == old(self).capacity,
                self.head == old(self).head,
                self.tail == saturating_end(old(self).tail, bytes@.len()),
            decreases self.bytes@.len(),
        {
            self.bytes.pop_front();
            proof {
                dropped = dropped + 1;
            }
            assert(self.bytes@ =~= joined.skip(dropped));
        }
        assert(self.bytes@ =~= last_of(joined, self.capacity as nat));
        self.head = self.tail - self.bytes.len() as u64;
        (start, self.tail)
    }

    /// The output from `requested_offset` on, as far as it is still there.
    pub fn read_from(&self, requested_offset: u64) -> (r: Result<RawReplay, Error>)
        requires
            self.wf(),
        ensures
            match r {
                Ok(replay) => {
                    &&& requested_offset <= self@.tail
                    &&& replay@ == self@.from_offset(requested_offset)
                },
                Err(e) => {
                    &&& requested_offset > self@.tail
                    &&& e == (Error::BeyondTail { requested: requested_offset, tail: self@.tail })
                },
            },
    {
        if requested_offset > self.tail {
            return Err(Error::BeyondTail { requested: requested_offset, tail: self.tail });
        }
        let available_offset: u64 = if requested_offset < self.head {
            self.head
        } else {
            requested_offset
        };
        let skip: usize = (available_offset - self.head) as usize;
        let mut bytes: Vec<u8> = Vec::new();
        let mut i: usize = skip;
        while i < self.bytes.len()
            invariant
                skip <= i <= self.bytes@.len(),
                bytes@ == self.bytes@.subrange(skip as int, i as int),
            decreases self.bytes@.len() - i,
        {
            bytes.push(self.bytes[i]);
            i += 1;
            assert(bytes@ =~= self.bytes@.subrange(skip as int, i as int));
        }
        assert(bytes@ =~= self.bytes@.skip(skip as int));
        Ok(
            RawReplay {
                requested_offset,
                available_offset,
                end_offset: self.tail,
                truncated: requested_offset < self.head,
                bytes,
            },
        )
    }
}

/// Appending keeps a buffer valid and brings its end forward. Its beginning goes forward too,
/// as long as the output can be counted.
pub proof fn law_replay_stays_valid(buffer: ReplayView, more: Seq<u8>)
    requires
        buffer.valid(),
    ensures
        buffer.appended(more).valid(),
        buffer.appended(more).tail >= buffer.tail,
        buffer.appended(more).tail < u64::MAX ==> buffer.appended(more).head >= buffer.head,
{
}

/// A new buffer records the empty history.
pub proof fn law_replay_begins_empty(capacity: nat)
    ensures
        (ReplayView { bytes: Seq::empty(), capacity, head: 0, tail: 0 }).records(Seq::empty()),
{
}

/// A buffer that holds the end of a history holds the end of the longer history once the
/// addition has been appended.
pub proof fn law_replay_records_history(buffer: ReplayView, history: Seq<u8>, more: Seq<u8>)
    requires
        buffer.records(history),
        history.len() + more.len() <= u64::MAX,
    ensures
        buffer.appended(more).records(history + more),
{
    let held = buffer.bytes;
    let all = history + more;
    assert(last_of(held + more, buffer.capacity) =~= last_of(all, buffer.capacity));
}

/// A replay is the history from the available offset on, which is the requested one unless
/// that has been dropped; nothing is dropped that the capacity has room for.
pub proof fn law_replay_reads_history(buffer: ReplayView, history: Seq<u8>, offset: u64)
    requires
        buffer.records(history),
        offset <= buffer.tail,
    ensures
        ({
            let replay = buffer.from_offset(offset);
            &&& replay.bytes == history.skip(replay.available_offset as int)
            &&& replay.end_offset == replay.available_offset + replay.bytes.len()
            &&& replay.truncated <==> replay.available_offset != offset
            &&& replay.truncated <==> history.len() - offset > buffer.capacity
        }),
{
    let replay = buffer.from_offset(offset);
    assert(replay.bytes =~= history.skip(replay.available_offset as int));
}

/// What is read from a valid buffer is what it gives back.
pub proof fn law_replay_gives_back(buffer: ReplayView, offset: u64)
    requires
        buffer.valid(),
        offset <= buffer.tail,
    ensures
        gives_back(buffer, offset, buffer.from_offset(offset)),
{
}

/// There is only one thing that a buffer gives back from an offset, and of a history it is the
/// part from the available offset on.
pub proof fn law_replay_is_determined(
    buffer: ReplayView,
    offset: u64,
    one: RawReplayView,
    other: RawReplayView,
    history: Seq<u8>,
)
    requires
        buffer.records(history),
        gives_back(buffer, offset, one),
        gives_back(buffer, offset, other),
    ensures
        one == other,
        one.bytes == history.skip(one.available_offset as int),
        one.truncated ==> one.available_offset == history.len() - buffer.capacity,
{
    assert(one.bytes =~= other.bytes);
    assert(one.bytes =~= history.skip(one.available_offset as int));
}

/// A buffer holds the newest bytes of its history, as many as there are or as it has room for.
pub proof fn law_replay_holds_the_newest(buffer: ReplayView, history: Seq<u8>)
    requires
        buffer.records(history),
    ensures
        buffer.bytes.len() == if history.len() < buffer.capacity {
            history.len()
        } else {
            buffer.capacity
        },
        forall|i: int|
            0 <= i < buffer.bytes.len() ==> #[trigger] buffer.bytes[i] == history[history.len()
                - buffer.bytes.len() + i],
        buffer.head + buffer.bytes.len() == history.len(),
        buffer.tail == history.len(),
{
}

/// Replays are resumable: reading on from the end of one replay, after more was produced,
/// continues it without gap or overlap as long as the buffer still holds the addition.
pub proof fn law_replay_resumes(buffer: ReplayView, history: Seq<u8>, offset: u64, more: Seq<u8>)
    requires
        buffer.records(history),
        offset <= buffer.tail,
        history.len() + more.len() <= u64::MAX,
        more.len() <= buffer.capacity,
    ensures
        ({
            let first = buffer.from_offset(offset);
            let second = buffer.appended(more).from_offset(first.end_offset);
            &&& !second.truncated
            &&& first.bytes + second.bytes == (history + more).skip(first.available_offset as int)
        }),
{
    law_replay_records_history(buffer, history, more);
    law_replay_reads_history(buffer, history, offset);
    let first = buffer.from_offset(offset);
    law_replay_reads_history(buffer.appended(more), history + more, first.end_offset);
    let second = buffer.appended(more).from_offset(first.end_offset);
    assert(first.bytes + second.bytes =~= (history + more).skip(first.available_offset as int));
}

} // verus!
