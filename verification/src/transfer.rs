//! A whole transfer: the channel together with its producer and its
//! consumer, and what holds of every run of their steps, in any interleaving.

use crate::layout::lemma_capacity_divides_word;
use crate::ring::{
    ChannelState, ChannelView, Consumer, ConsumerAction, Producer, ProducerAction, Shared,
};
use crate::runs::{lemma_move_is_fifo, lemma_move_keeps_bounds};
use crate::wait::WaitStrategy;
use vstd::prelude::*;

verus! {

/// A transfer at one moment.
pub struct Transfer {
    /// The channel.
    pub channel: ChannelView,
    /// The producer's count.
    pub producer: Producer,
    /// The consumer's count.
    pub consumer: Consumer,
    /// All bytes the producer has stored, in order.
    pub source: Seq<u8>,
    /// All bytes the consumer has collected, in order.
    pub sink: Seq<u8>,
}

/// Which role takes the next step, and with what.
pub enum Turn {
    /// The producer steps and offers this chunk.
    Produce(Seq<u8>),
    /// The consumer steps and takes at most this many bytes.
    Consume(nat),
}

impl Transfer {
    /// A transfer of `total_bytes` right after the producer set the channel
    /// up over the payload area `area`.
    pub open spec fn fresh(area: Seq<u8>, total_bytes: u64) -> Transfer {
        Transfer {
            channel: ChannelView {
                control: Shared {
                    total_bytes,
                    read_pos: 0,
                    write_pos: 0,
                    state: ChannelState::Running,
                },
                area,
            },
            producer: Producer { total: total_bytes, produced: 0 },
            consumer: Consumer { total: total_bytes, consumed: 0 },
            source: Seq::empty(),
            sink: Seq::empty(),
        }
    }

    /// What the roles keep true of a transfer between their steps.
    pub open spec fn inv(self) -> bool {
        &&& self.channel.wf()
        &&& self.producer.wf()
        &&& self.consumer.wf()
        &&& self.producer.total == self.channel.control.total_bytes
        &&& self.consumer.total == self.channel.control.total_bytes
        &&& self.source.len() == self.producer.produced
        &&& self.sink.len() == self.consumer.consumed
        &&& self.channel.occupancy() == self.producer.produced - self.consumer.consumed
        &&& self.sink + self.channel.pending() == self.source
        &&& self.channel.control.state != ChannelState::Aborted
        &&& self.channel.control.state == ChannelState::Done ==> self.producer.produced
            == self.producer.total
    }

    /// The transfer after one step of one role.
    pub open spec fn step(self, turn: Turn, strategy: WaitStrategy) -> Transfer {
        match turn {
            Turn::Produce(chunk) => {
                let action = self.producer.plan(self.channel, chunk.len() as int, strategy);
                Transfer {
                    channel: self.channel.after(action.effect(chunk)),
                    producer: self.producer.after(action),
                    source: self.source + self.channel.taken_in(action.effect(chunk)),
                    ..self
                }
            },
            Turn::Consume(limit) => {
                let action = self.consumer.plan(self.channel, limit as int, strategy);
                Transfer {
                    channel: self.channel.after(action.effect()),
                    consumer: self.consumer.after(action),
                    sink: self.sink + self.channel.handed_out(action.effect()),
                    ..self
                }
            },
        }
    }

    /// The transfer after a run of steps.
    pub open spec fn run(self, turns: Seq<Turn>, strategy: WaitStrategy) -> Transfer
        decreases turns.len(),
    {
        if turns.len() == 0 {
            self
        } else {
            self.run(turns.drop_last(), strategy).step(turns.last(), strategy)
        }
    }
}

/// A fresh transfer over a payload area of valid size is in order.
pub proof fn lemma_fresh_is_in_order(area: Seq<u8>, total_bytes: u64)
    requires
        Transfer::fresh(area, total_bytes).channel.wf(),
    ensures
        Transfer::fresh(area, total_bytes).inv(),
{
    let t = Transfer::fresh(area, total_bytes);
    assert(t.sink + t.channel.pending() =~= t.source);
}

/// A step of either role keeps the transfer in order. In particular the
/// consumer has never taken more than the producer has stored, the producer
/// is never ahead of the consumer by more than the capacity, and neither
/// count ever goes back.
pub proof fn lemma_step_keeps_order(t: Transfer, turn: Turn, strategy: WaitStrategy)
    requires
        t.inv(),
    ensures
        t.step(turn, strategy).inv(),
        t.step(turn, strategy).channel.capacity() == t.channel.capacity(),
        t.step(turn, strategy).channel.control.total_bytes == t.channel.control.total_bytes,
        t.step(turn, strategy).producer.produced >= t.producer.produced,
        t.step(turn, strategy).consumer.consumed >= t.consumer.consumed,
        t.step(turn, strategy).consumer.consumed <= t.step(turn, strategy).producer.produced,
        t.step(turn, strategy).producer.produced <= t.step(turn, strategy).consumer.consumed
            + t.channel.capacity(),
{
    let after = t.step(turn, strategy);
    match turn {
        Turn::Produce(chunk) => {
            let action = t.producer.plan(t.channel, chunk.len() as int, strategy);
            match action.effect(chunk) {
                Some(m) => {
                    lemma_move_keeps_bounds(t.channel, m);
                    lemma_move_is_fifo(t.channel, m);
                    assert(after.channel.pending() =~= t.channel.pending() + t.channel.absorbs(m));
                    assert(after.sink + after.channel.pending() =~= after.source);
                },
                None => {
                    assert(after.source =~= t.source);
                },
            }
        },
        Turn::Consume(limit) => {
            let action = t.consumer.plan(t.channel, limit as int, strategy);
            match action.effect() {
                Some(m) => {
                    lemma_move_keeps_bounds(t.channel, m);
                    lemma_move_is_fifo(t.channel, m);
                    assert(t.channel.yields(m) + after.channel.pending() =~= t.channel.pending());
                    assert(after.sink + after.channel.pending() =~= t.sink + (t.channel.yields(m)
                        + after.channel.pending()));
                },
                None => {
                    assert(after.sink =~= t.sink);
                },
            }
        },
    }
}

/// After every run of steps of the two roles, in any interleaving, the
/// transfer is in order: the consumer has taken no more than the producer
/// has stored, the producer is ahead of it by no more than the capacity,
/// neither count has gone back, and the byte at every offset of what the
/// consumer collected is the byte at that offset of what the producer stored,
/// whatever the sizes of the chunks.
pub proof fn lemma_run_keeps_order(t: Transfer, turns: Seq<Turn>, strategy: WaitStrategy)
    requires
        t.inv(),
    ensures
        t.run(turns, strategy).inv(),
        t.run(turns, strategy).channel.capacity() == t.channel.capacity(),
        t.run(turns, strategy).channel.control.total_bytes == t.channel.control.total_bytes,
        t.run(turns, strategy).producer.produced >= t.producer.produced,
        t.run(turns, strategy).consumer.consumed >= t.consumer.consumed,
        t.run(turns, strategy).consumer.consumed <= t.run(turns, strategy).producer.produced,
        t.run(turns, strategy).producer.produced <= t.run(turns, strategy).consumer.consumed
            + t.channel.capacity(),
        t.run(turns, strategy).sink.len() <= t.run(turns, strategy).source.len(),
        forall|k: int|
            0 <= k < t.run(turns, strategy).sink.len() ==> t.run(turns, strategy).sink[k]
                == t.run(turns, strategy).source[k],
    decreases turns.len(),
{
    if turns.len() > 0 {
        lemma_run_keeps_order(t, turns.drop_last(), strategy);
        lemma_step_keeps_order(t.run(turns.drop_last(), strategy), turns.last(), strategy);
    }
    let end = t.run(turns, strategy);
    assert forall|k: int| 0 <= k < end.sink.len() implies end.sink[k] == end.source[k] by {
        assert((end.sink + end.channel.pending())[k] == end.sink[k]);
    }
}

/// In a transfer that is in order the consumer never stops short: it
/// reports the end only with the whole transfer in its hands, and then what
/// it collected is what the producer stored, byte for byte.
pub proof fn lemma_consumer_stops_complete(t: Transfer, limit: nat, strategy: WaitStrategy)
    requires
        t.inv(),
    ensures
        t.consumer.plan(t.channel, limit as int, strategy) matches ConsumerAction::Finished {
            consumed,
            outcome,
        } ==> {
            &&& outcome == ChannelState::Done
            &&& consumed == t.channel.control.total_bytes
            &&& t.sink == t.source
        },
{
    if t.consumer.consumed == t.consumer.total {
        assert(t.sink + t.channel.pending() =~= t.sink);
    }
}

/// In a transfer that is in order and not yet complete the two roles never
/// wait for each other: where one of them has to wait, the next step of the
/// other moves at least one byte, given a chunk or a limit that is not empty.
pub proof fn lemma_waits_are_resolved(
    t: Transfer,
    chunk: Seq<u8>,
    limit: nat,
    strategy: WaitStrategy,
)
    requires
        t.inv(),
        chunk.len() > 0,
        limit > 0,
    ensures
        t.producer.plan(t.channel, chunk.len() as int, strategy) is Wait ==> (t.consumer.plan(
            t.channel,
            limit as int,
            strategy,
        ) matches ConsumerAction::Release { n, read_pos, wake } && n > 0),
        t.consumer.plan(t.channel, limit as int, strategy) is Wait ==> (t.producer.plan(
            t.channel,
            chunk.len() as int,
            strategy,
        ) matches ProducerAction::Publish { n, write_pos, wake } && n > 0),
{
    lemma_capacity_divides_word(t.channel.capacity() as int);
}

} // verus!
