//! What holds of a ring channel over every run of moves of its two roles, in
//! any interleaving: the bounds on the cursors, the order of the bytes, and
//! that the end of the payload area does not show.

use crate::payload::{lemma_release_drops, lemma_store_appends};
use crate::ring::{ChannelView, Move};
use vstd::prelude::*;

verus! {

impl ChannelView {
    /// The channel after a run of moves.
    pub open spec fn run(self, moves: Seq<Move>) -> ChannelView
        decreases moves.len(),
    {
        if moves.len() == 0 {
            self
        } else {
            self.run(moves.drop_last()).apply(moves.last())
        }
    }

    /// All bytes the producer stored over a run, in the order of storing.
    pub open spec fn sent(self, moves: Seq<Move>) -> Seq<u8>
        decreases moves.len(),
    {
        if moves.len() == 0 {
            Seq::empty()
        } else {
            self.sent(moves.drop_last()) + self.run(moves.drop_last()).absorbs(moves.last())
        }
    }

    /// All bytes the consumer took out over a run, in the order of taking.
    pub open spec fn received(self, moves: Seq<Move>) -> Seq<u8>
        decreases moves.len(),
    {
        if moves.len() == 0 {
            Seq::empty()
        } else {
            self.received(moves.drop_last()) + self.run(moves.drop_last()).yields(moves.last())
        }
    }
}

/// A move keeps the channel within its bounds: afterwards the write cursor
/// is still ahead of the read cursor by no more than the capacity, and the
/// capacity is what it was.
pub proof fn lemma_move_keeps_bounds(v: ChannelView, m: Move)
    requires
        v.wf(),
    ensures
        v.apply(m).wf(),
        v.apply(m).capacity() == v.capacity(),
        0 <= v.apply(m).occupancy() <= v.capacity(),
{
    if v.admits(m) {
        match m {
            Move::Store(data) => {
                lemma_store_appends(v.area, v.control.read_pos, v.control.write_pos, data);
            },
            Move::Release(n) => {
                lemma_release_drops(v.area, v.control.read_pos, v.control.write_pos, n as int);
            },
            Move::Finish => {},
        }
    }
}

/// A move treats the bytes as a queue: what it hands out, followed by what
/// is pending after it, is what was pending before it, followed by what it
/// took in.
pub proof fn lemma_move_is_fifo(v: ChannelView, m: Move)
    requires
        v.wf(),
    ensures
        v.yields(m) + v.apply(m).pending() == v.pending() + v.absorbs(m),
{
    if v.admits(m) {
        match m {
            Move::Store(data) => {
                lemma_store_appends(v.area, v.control.read_pos, v.control.write_pos, data);
            },
            Move::Release(n) => {
                lemma_release_drops(v.area, v.control.read_pos, v.control.write_pos, n as int);
            },
            Move::Finish => {},
        }
    }
}

/// After every run of moves of the two roles, in any interleaving, the read
/// cursor is not ahead of the write cursor and the write cursor is ahead of
/// the read cursor by no more than the capacity: nothing is overrun, nothing
/// is read before it was written.
pub proof fn lemma_run_keeps_bounds(v: ChannelView, moves: Seq<Move>)
    requires
        v.wf(),
    ensures
        v.run(moves).wf(),
        v.run(moves).capacity() == v.capacity(),
        0 <= v.run(moves).occupancy() <= v.capacity(),
    decreases moves.len(),
{
    if moves.len() > 0 {
        lemma_run_keeps_bounds(v, moves.drop_last());
        lemma_move_keeps_bounds(v.run(moves.drop_last()), moves.last());
    }
}

/// Over every run of moves the channel is a queue: the bytes taken out,
/// followed by the bytes still pending, are the bytes that were pending at
/// the start, followed by the bytes stored, whatever the sizes of the chunks
/// and wherever they met the end of the payload area. In counts: the consumer
/// is never ahead of the producer, and the producer is ahead of it by no more
/// than the capacity.
pub proof fn lemma_run_round_trip(v: ChannelView, moves: Seq<Move>)
    requires
        v.wf(),
    ensures
        v.received(moves) + v.run(moves).pending() == v.pending() + v.sent(moves),
        v.received(moves).len() <= v.pending().len() + v.sent(moves).len(),
        v.pending().len() + v.sent(moves).len() <= v.received(moves).len() + v.capacity(),
    decreases moves.len(),
{
    if moves.len() > 0 {
        let before = moves.drop_last();
        let m = moves.last();
        let mid = v.run(before);
        lemma_run_round_trip(v, before);
        lemma_run_keeps_bounds(v, before);
        lemma_move_is_fifo(mid, m);
        // (received + yields) + pending' == received + (pending + absorbs)
        assert(v.received(before) + (mid.pending() + mid.absorbs(m)) =~= (v.received(before)
            + mid.pending()) + mid.absorbs(m));
    }
    lemma_run_keeps_bounds(v, moves);
}

/// On a channel that starts empty, the byte the consumer finds at offset `k`
/// of what it took out is the byte the producer put at offset `k` of what it
/// stored, for every offset the consumer has reached.
pub proof fn lemma_bytes_arrive_in_place(v: ChannelView, moves: Seq<Move>, k: int)
    requires
        v.wf(),
        v.occupancy() == 0,
        0 <= k < v.received(moves).len(),
    ensures
        k < v.sent(moves).len(),
        v.received(moves)[k] == v.sent(moves)[k],
{
    lemma_run_round_trip(v, moves);
    assert((v.received(moves) + v.run(moves).pending())[k] == v.received(moves)[k]);
    assert((v.pending() + v.sent(moves))[k] == v.sent(moves)[k]);
}

/// Where the cursors stand in the payload area does not show: two channels
/// of one capacity that hold the same bytes pending, one about to wrap and
/// one not, admit the same moves, hand out the same bytes and hold the same
/// bytes pending afterwards.
pub proof fn lemma_wrap_is_invisible(a: ChannelView, b: ChannelView, m: Move)
    requires
        a.wf(),
        b.wf(),
        a.capacity() == b.capacity(),
        a.pending() == b.pending(),
    ensures
        a.admits(m) == b.admits(m),
        a.yields(m) == b.yields(m),
        a.apply(m).pending() == b.apply(m).pending(),
{
    assert(a.occupancy() == a.pending().len());
    assert(b.occupancy() == b.pending().len());
    if a.admits(m) {
        match m {
            Move::Store(data) => {
                lemma_store_appends(a.area, a.control.read_pos, a.control.write_pos, data);
                lemma_store_appends(b.area, b.control.read_pos, b.control.write_pos, data);
            },
            Move::Release(n) => {
                lemma_release_drops(a.area, a.control.read_pos, a.control.write_pos, n as int);
                lemma_release_drops(b.area, b.control.read_pos, b.control.write_pos, n as int);
            },
            Move::Finish => {},
        }
    }
}

} // verus!
