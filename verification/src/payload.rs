//! The payload area of the ring: bytes stored and read in up to two pieces,
//! and the queue that the two cursors make of the area.

use crate::barrier::{acquire_barrier, release_barrier};
use crate::layout::{
    advance, advanced, distance, lemma_capacity_divides_word, lemma_slot_advance, least, slot,
    slot_of, span, valid_capacity, word, wrapped, ShmHeader,
};
use vstd::prelude::*;

verus! {

/// The buffer after `data` was stored from offset `from` on, wrapping at the
/// end of the buffer.
pub open spec fn written(buffer: Seq<u8>, from: int, data: Seq<u8>) -> Seq<u8> {
    Seq::new(
        buffer.len(),
        |at: int|
            if distance(from, at, buffer.len() as int) < data.len() {
                data[distance(from, at, buffer.len() as int)]
            } else {
                buffer[at]
            },
    )
}

/// The `n` bytes that stand in the buffer from offset `from` on, wrapping at
/// the end of the buffer.
pub open spec fn taken(buffer: Seq<u8>, from: int, n: int) -> Seq<u8> {
    Seq::new(n as nat, |i: int| buffer[wrapped(from, i, buffer.len() as int)])
}

/// The bytes between the two cursors, oldest first: written and not yet read.
pub open spec fn in_flight(buffer: Seq<u8>, read: u64, write: u64) -> Seq<u8> {
    taken(buffer, slot(read, buffer.len() as int), span(write, read))
}

/// Stores the first `n` bytes of `data` in `buffer` from offset `from` on, in
/// one piece where they fit before the end of the buffer and in two where they
/// do not: the second piece then starts at offset 0.
pub fn copy_in(buffer: &mut [u8], from: usize, data: &[u8], n: usize)
    requires
        from < old(buffer)@.len(),
        n <= old(buffer)@.len(),
        n <= data@.len(),
    ensures
        final(buffer)@ == written(old(buffer)@, from as int, data@.subrange(0, n as int)),
{
    let ghost before = buffer@;
    let capacity: usize = buffer.len();
    let room: usize = capacity - from;
    let first: usize = if n < room { n } else { room };
    let mut i: usize = 0;
    while i < first
        invariant
            i <= first,
            first <= n,
            first <= capacity - from,
            n <= data@.len(),
            capacity == before.len(),
            buffer@.len() == capacity,
            forall|at: int|
                0 <= at < capacity ==> buffer@[at] == if from <= at < from + i {
                    data@[at - from]
                } else {
                    before[at]
                },
        decreases first - i,
    {
        buffer[from + i] = data[i];
        i += 1;
    }
    let second: usize = n - first;
    let mut k: usize = 0;
    while k < second
        invariant
            k <= second,
            second == n - first,
            first <= n,
            second > 0 ==> first == capacity - from,
            n <= capacity,
            from < capacity,
            n <= data@.len(),
            capacity == before.len(),
            buffer@.len() == capacity,
            forall|at: int|
                0 <= at < capacity ==> buffer@[at] == if from <= at < from + first {
                    data@[at - from]
                } else if at < k {
                    data@[first + at]
                } else {
                    before[at]
                },
        decreases second - k,
    {
        buffer[k] = data[first + k];
        k += 1;
    }
}

/// Appends to `sink` the `n` bytes that stand in `buffer` from offset `from`
/// on, in one piece where they end before the end of the buffer and in two
/// where they do not.
pub fn copy_out(buffer: &[u8], from: usize, n: usize, sink: &mut Vec<u8>)
    requires
        from < buffer@.len(),
        n <= buffer@.len(),
    ensures
        final(sink)@ == old(sink)@ + taken(buffer@, from as int, n as int),
{
    let ghost before = sink@;
    let capacity: usize = buffer.len();
    let room: usize = capacity - from;
    let first: usize = if n < room { n } else { room };
    let mut i: usize = 0;
    while i < first
        invariant
            i <= first,
            first <= n,
            first <= capacity - from,
            capacity == buffer@.len(),
            sink@.len() == before.len() + i,
            forall|j: int| 0 <= j < before.len() ==> sink@[j] == before[j],
            forall|j: int|
                before.len() <= j < before.len() + i ==> sink@[j] == buffer@[from + j
                    - before.len()],
        decreases first - i,
    {
        sink.push(buffer[from + i]);
        i += 1;
    }
    let second: usize = n - first;
    let mut k: usize = 0;
    while k < second
        invariant
            k <= second,
            second == n - first,
            first <= n,
            second > 0 ==> first == capacity - from,
            n <= capacity,
            from < capacity,
            capacity == buffer@.len(),
            sink@.len() == before.len() + first + k,
            forall|j: int| 0 <= j < before.len() ==> sink@[j] == before[j],
            forall|j: int|
                before.len() <= j < before.len() + first ==> sink@[j] == buffer@[from + j
                    - before.len()],
            forall|j: int|
                before.len() + first <= j < before.len() + first + k ==> sink@[j] == buffer@[j
                    - before.len() - first],
        decreases second - k,
    {
        sink.push(buffer[k]);
        k += 1;
    }
}

/// Storing a chunk at the write cursor appends it to the bytes in flight:
/// none of them is overwritten while the chunk fits in the free space.
pub proof fn lemma_store_appends(buffer: Seq<u8>, read: u64, write: u64, data: Seq<u8>)
    requires
        valid_capacity(buffer.len() as int),
        buffer.len() < word(),
        span(write, read) + data.len() <= buffer.len(),
    ensures
        span(advance(write, data.len() as int), read) == span(write, read) + data.len(),
        in_flight(
            written(buffer, slot(write, buffer.len() as int), data),
            read,
            advance(write, data.len() as int),
        ) == in_flight(buffer, read, write) + data,
{
    // The write cursor stands `span(write, read)` bytes after the read cursor,
    // so does its offset: the chunk lands right behind the bytes in flight.
    lemma_slot_advance(read, span(write, read), buffer.len() as int);
}

/// Moving the read cursor on by `n` drops the `n` oldest bytes in flight and
/// leaves the others as they are.
pub proof fn lemma_release_drops(buffer: Seq<u8>, read: u64, write: u64, n: int)
    requires
        valid_capacity(buffer.len() as int),
        buffer.len() < word(),
        0 <= n <= span(write, read) <= buffer.len(),
    ensures
        span(write, advance(read, n)) == span(write, read) - n,
        taken(buffer, slot(read, buffer.len() as int), n) == in_flight(buffer, read, write).subrange(
            0,
            n,
        ),
        in_flight(buffer, advance(read, n), write) == in_flight(buffer, read, write).subrange(
            n,
            span(write, read),
        ),
{
    // The new read cursor stands `n` bytes after the old one, so does its
    // offset: what is left in flight starts `n` bytes further on.
    lemma_slot_advance(read, n, buffer.len() as int);
}

impl ShmHeader {
    /// Stores as much of `chunk` as the free space and `limit` allow and
    /// moves the write cursor past it. Returns the number of bytes stored.
    ///
    /// The bytes are stored between an acquire barrier and a release barrier:
    /// after the caller's load of the read cursor, and before its store of the
    /// write cursor.
    pub fn push(&mut self, buffer: &mut [u8], chunk: &[u8], limit: u64) -> (n: usize)
        requires
            old(self).consistent(old(buffer)@.len() as int),
        ensures
            n == least(
                old(buffer)@.len() - old(self).used(),
                least(limit as int, chunk@.len() as int),
            ),
            *final(self) == (ShmHeader {
                end_index: advance(old(self).end_index, n as int),
                ..*old(self)
            }),
            final(self).consistent(old(buffer)@.len() as int),
            final(buffer)@ == written(
                old(buffer)@,
                slot(old(self).end_index, old(buffer)@.len() as int),
                chunk@.subrange(0, n as int),
            ),
            in_flight(final(buffer)@, final(self).start_index, final(self).end_index) == in_flight(
                old(buffer)@,
                old(self).start_index,
                old(self).end_index,
            ) + chunk@.subrange(0, n as int),
    {
        acquire_barrier();
        let capacity: usize = buffer.len();
        let free: usize = self.unused(capacity);
        let wanted: usize = if (chunk.len() as u64) <= limit {
            chunk.len()
        } else {
            limit as usize
        };
        let n: usize = if wanted < free {
            wanted
        } else {
            free
        };
        proof {
            lemma_capacity_divides_word(capacity as int);
        }
        let from: usize = slot_of(self.end_index, capacity);
        proof {
            lemma_store_appends(
                buffer@,
                self.start_index,
                self.end_index,
                chunk@.subrange(0, n as int),
            );
        }
        copy_in(buffer, from, chunk, n);
        release_barrier();
        self.end_index = advanced(self.end_index, n);
        n
    }

    /// Appends to `sink` as many of the oldest bytes in flight as `limit`
    /// allows and moves the read cursor past them. Returns their number.
    ///
    /// The bytes are read between an acquire barrier and a release barrier:
    /// after the caller's load of the write cursor, and before its store of
    /// the read cursor.
    pub fn pop(&mut self, buffer: &[u8], sink: &mut Vec<u8>, limit: u64) -> (n: usize)
        requires
            old(self).consistent(buffer@.len() as int),
        ensures
            n == least(old(self).used(), limit as int),
            *final(self) == (ShmHeader {
                start_index: advance(old(self).start_index, n as int),
                ..*old(self)
            }),
            final(self).consistent(buffer@.len() as int),
            final(sink)@ == old(sink)@ + in_flight(
                buffer@,
                old(self).start_index,
                old(self).end_index,
            ).subrange(0, n as int),
            in_flight(buffer@, final(self).start_index, final(self).end_index) == in_flight(
                buffer@,
                old(self).start_index,
                old(self).end_index,
            ).subrange(n as int, old(self).used()),
    {
        acquire_barrier();
        let capacity: usize = buffer.len();
        let ready: u64 = self.available();
        let n: usize = if ready <= limit {
            ready as usize
        } else {
            limit as usize
        };
        proof {
            lemma_capacity_divides_word(capacity as int);
        }
        let from: usize = slot_of(self.start_index, capacity);
        proof {
            lemma_release_drops(buffer@, self.start_index, self.end_index, n as int);
        }
        copy_out(buffer, from, n, sink);
        release_barrier();
        self.start_index = advanced(self.start_index, n);
        n
    }
}

} // verus!
