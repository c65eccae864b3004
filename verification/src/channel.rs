//! The ring channel as one value: the control words together with a payload
//! area of its own.

use crate::layout::valid_capacity;
use crate::ring::{
    consumer_step, init_shared, producer_step, wait_for_total_bytes, ChannelState, ChannelView,
    Consumer, ConsumerAction, Move, Producer, ProducerAction, Shared,
};
use crate::wait::WaitStrategy;
use vstd::prelude::*;

verus! {

/// A ring channel of fixed capacity.
pub struct RingChannel {
    shared: Shared,
    buffer: Vec<u8>,
}

impl View for RingChannel {
    type V = ChannelView;

    closed spec fn view(&self) -> ChannelView {
        self.shared.over(self.buffer@)
    }
}

/// A channel of `capacity` bytes with everything at zero: no size published,
/// nothing stored.
pub fn new_ring_channel(capacity: usize) -> (channel: RingChannel)
    requires
        valid_capacity(capacity as int),
    ensures
        channel@ == (ChannelView {
            control: Shared {
                total_bytes: 0,
                read_pos: 0,
                write_pos: 0,
                state: ChannelState::Running,
            },
            area: Seq::new(capacity as nat, |i: int| 0u8),
        }),
        channel@.wf(),
{
    let mut buffer: Vec<u8> = Vec::new();
    let mut i: usize = 0;
    while i < capacity
        invariant
            i <= capacity,
            buffer@.len() == i,
            forall|j: int| 0 <= j < i ==> buffer@[j] == 0u8,
        decreases capacity - i,
    {
        buffer.push(0);
        i += 1;
    }
    assert(buffer@ =~= Seq::new(capacity as nat, |i: int| 0u8));
    RingChannel { shared: Shared::new(), buffer }
}

impl RingChannel {
    /// The capacity in bytes.
    pub fn capacity(&self) -> (capacity: usize)
        ensures
            capacity == self@.capacity(),
    {
        self.buffer.len()
    }

    /// The control words as they stand.
    pub fn shared(&self) -> (shm: Shared)
        ensures
            shm == self@.control,
    {
        self.shared
    }

    /// Number of bytes stored and not yet taken out.
    pub fn len(&self) -> (n: usize)
        requires
            self@.wf(),
        ensures
            n == self@.occupancy(),
    {
        self.shared.occupancy() as usize
    }

    /// The byte that stands at `offset` of the payload area, whether or not
    /// it is in flight; `None` past the end of the area.
    pub fn raw_byte(&self, offset: usize) -> (byte: Option<u8>)
        ensures
            byte == if offset < self@.capacity() {
                Some(self@.area[offset as int])
            } else {
                None
            },
    {
        if offset < self.buffer.len() {
            Some(self.buffer[offset])
        } else {
            None
        }
    }

    /// The producer sets the channel up for a transfer of `total_bytes`:
    /// cursors at zero, state running, the size published. The payload area
    /// keeps its bytes; none of them is in flight.
    pub fn init(&mut self, total_bytes: u64)
        requires
            old(self)@.wf(),
        ensures
            final(self)@ == (ChannelView {
                control: Shared {
                    total_bytes,
                    read_pos: 0,
                    write_pos: 0,
                    state: ChannelState::Running,
                },
                area: old(self)@.area,
            }),
            final(self)@.wf(),
            final(self)@.pending() == Seq::<u8>::empty(),
    {
        init_shared(&mut self.shared, total_bytes);
    }

    /// One look of the consumer at the size of the transfer: the size once
    /// it is published, `None` before.
    pub fn published_total(&self) -> (published: Option<u64>)
        ensures
            published == if self@.control.total_bytes != 0 {
                Some(self@.control.total_bytes)
            } else {
                None
            },
    {
        wait_for_total_bytes(&self.shared)
    }

    /// One step of the producer on this channel: see
    /// [`producer_step`](crate::ring::producer_step).
    pub fn producer_step(
        &mut self,
        producer: &mut Producer,
        chunk: &[u8],
        strategy: WaitStrategy,
    ) -> (action: ProducerAction)
        requires
            old(self)@.wf(),
            old(producer).wf(),
        ensures
            action == old(producer).plan(old(self)@, chunk@.len() as int, strategy),
            final(self)@ == old(self)@.after(action.effect(chunk@)),
            *final(producer) == old(producer).after(action),
            final(self)@.wf(),
            final(producer).wf(),
            action matches ProducerAction::Publish { n, write_pos, wake } ==> {
                &&& old(self)@.admits(Move::Store(chunk@.subrange(0, n as int)))
                &&& final(self)@.pending() == old(self)@.pending() + chunk@.subrange(0, n as int)
            },
    {
        producer_step(&mut self.shared, self.buffer.as_mut_slice(), producer, chunk, strategy)
    }

    /// One step of the consumer on this channel: see
    /// [`consumer_step`](crate::ring::consumer_step).
    pub fn consumer_step(
        &mut self,
        consumer: &mut Consumer,
        sink: &mut Vec<u8>,
        limit: usize,
        strategy: WaitStrategy,
    ) -> (action: ConsumerAction)
        requires
            old(self)@.wf(),
            old(consumer).wf(),
        ensures
            action == old(consumer).plan(old(self)@, limit as int, strategy),
            final(self)@ == old(self)@.after(action.effect()),
            final(sink)@ == old(sink)@ + old(self)@.handed_out(action.effect()),
            *final(consumer) == old(consumer).after(action),
            final(self)@.wf(),
            final(consumer).wf(),
            action matches ConsumerAction::Release { n, read_pos, wake } ==> {
                &&& old(self)@.admits(Move::Release(n as nat))
                &&& final(sink)@ == old(sink)@ + old(self)@.pending().subrange(0, n as int)
                &&& final(self)@.pending() == old(self)@.pending().subrange(
                    n as int,
                    old(self)@.occupancy(),
                )
            },
    {
        consumer_step(&mut self.shared, self.buffer.as_slice(), consumer, sink, limit, strategy)
    }
}

} // verus!
