//! The transfer over the ring: the control words of the shared record, the
//! two roles, and one step of each.
//!
//! A step works on the control words as its caller loaded them and on the
//! payload area as a byte slice, changes only what its role owns, and returns
//! the action that makes the change visible to the other side: which word to
//! store, and the wake or the wait that goes with it.
//!
//! The order of the accesses is shared between a step and its caller:
//!
//! * The producer's caller loads the read cursor before the step. The step
//!   issues an acquire barrier, stores the payload and issues a release
//!   barrier; the caller stores the write cursor after `Publish`, so the
//!   payload is visible before the cursor that covers it. Before `Finish` the
//!   step issues a release barrier; the caller stores the state after it, so
//!   the state is visible only after the last write cursor.
//! * The consumer's caller loads the write cursor before the step, and the
//!   state no earlier than that write cursor: a state `Done` then means that
//!   nothing follows the bytes it sees. The step issues an acquire barrier,
//!   reads the payload and issues a release barrier; the caller stores the
//!   read cursor after `Release`, so the space is not handed back before its
//!   bytes were read.

use crate::barrier::{acquire_barrier, release_barrier, spin_hint};
use crate::layout::{advance, least, slot, span, valid_capacity, ShmHeader};
use crate::payload::{in_flight, lemma_release_drops, taken, written};
use crate::wait::{WaitAction, WaitStrategy, WakeAction};
use vstd::prelude::*;
use vstd::slice::axiom_spec_len;

verus! {

/// Where a transfer stands.
#[derive(Clone, Copy, Debug, PartialEq, Eq, Structural)]
pub enum ChannelState {
    /// The producer may still publish bytes.
    Running,
    /// The producer has published all it had: nothing follows the bytes in
    /// flight.
    Done,
    /// The transfer ended short of its size.
    Aborted,
}

impl ChannelState {
    /// The word that stands for the state in the shared block: 0 while the
    /// transfer runs, 1 once it is done, -1 where it was aborted.
    pub open spec fn encoding(self) -> i32 {
        match self {
            ChannelState::Running => 0i32,
            ChannelState::Done => 1i32,
            ChannelState::Aborted => -1i32,
        }
    }

    /// The word that stands for the state in the shared block.
    pub fn code(self) -> (code: i32)
        ensures
            code == self.encoding(),
    {
        match self {
            ChannelState::Running => 0,
            ChannelState::Done => 1,
            ChannelState::Aborted => -1,
        }
    }

    /// The state a word of the shared block stands for, if any.
    pub fn from_code(code: i32) -> (state: Option<ChannelState>)
        ensures
            state == if code == 0 {
                Some(ChannelState::Running)
            } else if code == 1 {
                Some(ChannelState::Done)
            } else if code == -1 {
                Some(ChannelState::Aborted)
            } else {
                None
            },
    {
        if code == 0 {
            Some(ChannelState::Running)
        } else if code == 1 {
            Some(ChannelState::Done)
        } else if code == -1 {
            Some(ChannelState::Aborted)
        } else {
            None
        }
    }
}

/// The control words of the shared record, as one participant observed them.
///
/// `total_bytes` and `state` are written by the producer, `total_bytes` once;
/// `write_pos` by the producer only, `read_pos` by the consumer only. The
/// payload area is not part of this value: the steps take it as a slice.
#[derive(Clone, Copy, Debug, PartialEq, Eq, Structural)]
pub struct Shared {
    /// Size of the transfer; 0 until the producer publishes it.
    pub total_bytes: u64,
    /// Bytes read so far, modulo the machine word.
    pub read_pos: u64,
    /// Bytes written so far, modulo the machine word.
    pub write_pos: u64,
    /// Where the transfer stands.
    pub state: ChannelState,
}

/// A ring channel as a whole: the control words and the payload area.
pub struct ChannelView {
    /// The control words.
    pub control: Shared,
    /// The payload area, byte by byte.
    pub area: Seq<u8>,
}

/// One change of a channel by one of the two roles.
pub enum Move {
    /// The producer stores these bytes at the write cursor and moves the
    /// cursor past them.
    Store(Seq<u8>),
    /// The consumer takes out this many bytes at the read cursor and moves
    /// the cursor past them.
    Release(nat),
    /// The producer declares the transfer done.
    Finish,
}

impl Shared {
    /// Bytes written and not yet read.
    pub open spec fn used(&self) -> int {
        span(self.write_pos, self.read_pos)
    }

    /// The two cursors as a header.
    spec fn cursors(&self) -> ShmHeader {
        ShmHeader { start_index: self.read_pos, end_index: self.write_pos, transfer_started: 0 }
    }

    /// The channel these control words make with a payload area.
    pub open spec fn over(&self, area: Seq<u8>) -> ChannelView {
        ChannelView { control: *self, area }
    }

    /// The cursors fit a ring of `capacity` bytes: the capacity is a power of
    /// two and no more than that many bytes are in flight.
    pub open spec fn consistent(&self, capacity: int) -> bool {
        &&& valid_capacity(capacity)
        &&& self.used() <= capacity
    }

    /// The control words of a block that was just zeroed.
    pub fn new() -> (shm: Self)
        ensures
            shm == (Shared {
                total_bytes: 0,
                read_pos: 0,
                write_pos: 0,
                state: ChannelState::Running,
            }),
    {
        Shared { total_bytes: 0, read_pos: 0, write_pos: 0, state: ChannelState::Running }
    }

    /// Number of bytes written and not yet read.
    pub fn occupancy(&self) -> (n: u64)
        ensures
            n == self.used(),
    {
        self.header().available()
    }

    /// Tells whether the cursors fit a ring of `capacity` bytes.
    pub fn is_consistent(&self, capacity: usize) -> (ok: bool)
        ensures
            ok == self.consistent(capacity as int),
    {
        self.header().is_consistent(capacity)
    }

    fn header(&self) -> (header: ShmHeader)
        ensures
            header == self.cursors(),
    {
        ShmHeader { start_index: self.read_pos, end_index: self.write_pos, transfer_started: 0 }
    }
}

impl ChannelView {
    /// Length of the payload area.
    pub open spec fn capacity(self) -> nat {
        self.area.len()
    }

    /// Number of bytes stored and not yet taken out.
    pub open spec fn occupancy(self) -> int {
        self.control.used()
    }

    /// The bytes stored and not yet taken out, oldest first.
    pub open spec fn pending(self) -> Seq<u8> {
        in_flight(self.area, self.control.read_pos, self.control.write_pos)
    }

    /// The capacity is a power of two that the machine can address, and the
    /// write cursor is ahead of the read cursor by no more than the capacity.
    pub open spec fn wf(self) -> bool {
        &&& self.capacity() <= usize::MAX
        &&& self.control.consistent(self.capacity() as int)
    }

    /// The move respects the bounds: a store fits in the free space, a
    /// release takes no more than is stored.
    pub open spec fn admits(self, m: Move) -> bool {
        match m {
            Move::Store(data) => self.occupancy() + data.len() <= self.capacity(),
            Move::Release(n) => n <= self.occupancy(),
            Move::Finish => true,
        }
    }

    /// The channel after a move; a move that the channel does not admit is
    /// not made.
    pub open spec fn apply(self, m: Move) -> ChannelView {
        if !self.admits(m) {
            self
        } else {
            match m {
                Move::Store(data) => ChannelView {
                    control: Shared {
                        write_pos: advance(self.control.write_pos, data.len() as int),
                        ..self.control
                    },
                    area: written(
                        self.area,
                        slot(self.control.write_pos, self.capacity() as int),
                        data,
                    ),
                },
                Move::Release(n) => ChannelView {
                    control: Shared {
                        read_pos: advance(self.control.read_pos, n as int),
                        ..self.control
                    },
                    area: self.area,
                },
                Move::Finish => ChannelView {
                    control: Shared { state: ChannelState::Done, ..self.control },
                    area: self.area,
                },
            }
        }
    }

    /// The bytes a move hands to the consumer.
    pub open spec fn yields(self, m: Move) -> Seq<u8> {
        match m {
            Move::Release(n) if self.admits(m) => taken(
                self.area,
                slot(self.control.read_pos, self.capacity() as int),
                n as int,
            ),
            _ => Seq::empty(),
        }
    }

    /// The bytes a move takes from the producer.
    pub open spec fn absorbs(self, m: Move) -> Seq<u8> {
        match m {
            Move::Store(data) if self.admits(m) => data,
            _ => Seq::empty(),
        }
    }
}

/// The producer sets the record up for a transfer of `total_bytes`: cursors
/// at zero, state running, and the size last, since the size is what the
/// consumer waits for. The caller stores the size after the other words and
/// after a release barrier.
pub fn init_shared(shm: &mut Shared, total_bytes: u64)
    ensures
        *final(shm) == (Shared {
            total_bytes,
            read_pos: 0,
            write_pos: 0,
            state: ChannelState::Running,
        }),
{
    shm.read_pos = 0;
    shm.write_pos = 0;
    shm.state = ChannelState::Running;
    shm.total_bytes = total_bytes;
}

/// One look of the consumer at the size of the transfer: the size once it is
/// published, `None` while the word is still 0. Before `None` the processor
/// gets its hint, and the caller loads again; before `Some` an acquire barrier
/// is issued, so that what the producer set up before it published the size
/// is seen with the size.
pub fn wait_for_total_bytes(shm: &Shared) -> (published: Option<u64>)
    ensures
        published == if shm.total_bytes != 0 {
            Some(shm.total_bytes)
        } else {
            None
        },
{
    if shm.total_bytes != 0 {
        acquire_barrier();
        Some(shm.total_bytes)
    } else {
        spin_hint();
        None
    }
}

/// The producer's own count of the transfer.
#[derive(Clone, Copy, Debug, PartialEq, Eq, Structural)]
pub struct Producer {
    /// Size of the transfer.
    pub total: u64,
    /// Bytes published so far.
    pub produced: u64,
}

/// The consumer's own count of the transfer.
#[derive(Clone, Copy, Debug, PartialEq, Eq, Structural)]
pub struct Consumer {
    /// Size of the transfer.
    pub total: u64,
    /// Bytes taken out so far.
    pub consumed: u64,
}

/// What the producer's step asks of its caller.
#[derive(Debug, PartialEq, Eq)]
pub enum ProducerAction {
    /// The ring is full: wait for the read cursor to move, then step again.
    Wait(WaitAction<u64>),
    /// `n` bytes of the chunk stand in the payload area and the release
    /// barrier is issued. Store `write_pos` as the write cursor, then perform
    /// `wake` on the write cursor.
    Publish { n: usize, write_pos: u64, wake: WakeAction },
    /// All bytes are published and the release barrier is issued. Store the
    /// state `Done`, then perform `wake` on the write cursor.
    Finish { wake: WakeAction },
    /// The transfer is over: there is nothing to do.
    Stopped,
}

/// What the consumer's step asks of its caller.
#[derive(Debug, PartialEq, Eq)]
pub enum ConsumerAction {
    /// The ring is empty and the producer still runs: wait for the write
    /// cursor to move, then step again.
    Wait(WaitAction<u64>),
    /// `n` bytes were appended to the sink and the release barrier is
    /// issued. Store `read_pos` as the read cursor, then perform `wake` on the
    /// read cursor.
    Release { n: usize, read_pos: u64, wake: WakeAction },
    /// The consumer stops with `consumed` bytes: `Done` where that is the
    /// whole transfer, `Aborted` where the producer ended it short.
    Finished { consumed: u64, outcome: ChannelState },
}

impl Producer {
    /// The count never passes the size.
    pub open spec fn wf(&self) -> bool {
        self.produced <= self.total
    }

    /// Bytes still to publish.
    pub open spec fn remaining(&self) -> int {
        self.total - self.produced
    }

    /// Bytes the next step stores of a chunk of `offered` bytes: what the
    /// free space, the rest of the transfer and the chunk all allow.
    pub open spec fn share(&self, channel: ChannelView, offered: int) -> int {
        least(channel.capacity() - channel.occupancy(), least(self.remaining(), offered))
    }

    /// What the next step does, given the channel and the length of the
    /// chunk on offer.
    pub open spec fn plan(&self, channel: ChannelView, offered: int, strategy: WaitStrategy)
        -> ProducerAction {
        if channel.control.state != ChannelState::Running {
            ProducerAction::Stopped
        } else if self.produced == self.total {
            ProducerAction::Finish { wake: strategy.notify(1) }
        } else if channel.occupancy() == channel.capacity() {
            ProducerAction::Wait(strategy.poll(channel.control.read_pos, true))
        } else {
            ProducerAction::Publish {
                n: self.share(channel, offered) as usize,
                write_pos: advance(channel.control.write_pos, self.share(channel, offered)),
                wake: strategy.notify(1),
            }
        }
    }

    /// The producer itself after a step with the given outcome.
    pub open spec fn after(&self, action: ProducerAction) -> Producer {
        match action {
            ProducerAction::Publish { n, write_pos, wake } => Producer {
                produced: (self.produced + n) as u64,
                ..*self
            },
            _ => *self,
        }
    }

    /// The producer of a transfer of `total_bytes`, before its first byte.
    pub fn new(total_bytes: u64) -> (producer: Self)
        ensures
            producer == (Producer { total: total_bytes, produced: 0 }),
    {
        Producer { total: total_bytes, produced: 0 }
    }
}

impl Consumer {
    /// The count never passes the size.
    pub open spec fn wf(&self) -> bool {
        self.consumed <= self.total
    }

    /// Bytes still to take out.
    pub open spec fn remaining(&self) -> int {
        self.total - self.consumed
    }

    /// Bytes the next step takes out: what is in flight, the rest of the
    /// transfer and the caller's `limit` all allow.
    pub open spec fn share(&self, channel: ChannelView, limit: int) -> int {
        least(channel.occupancy(), least(self.remaining(), limit))
    }

    /// What the next step does, given the channel and the caller's limit on
    /// one step.
    pub open spec fn plan(&self, channel: ChannelView, limit: int, strategy: WaitStrategy)
        -> ConsumerAction {
        if self.consumed == self.total {
            ConsumerAction::Finished { consumed: self.consumed, outcome: ChannelState::Done }
        } else if channel.occupancy() == 0 {
            if channel.control.state != ChannelState::Running {
                ConsumerAction::Finished { consumed: self.consumed, outcome: ChannelState::Aborted }
            } else {
                ConsumerAction::Wait(strategy.poll(channel.control.write_pos, true))
            }
        } else {
            ConsumerAction::Release {
                n: self.share(channel, limit) as usize,
                read_pos: advance(channel.control.read_pos, self.share(channel, limit)),
                wake: strategy.notify(1),
            }
        }
    }

    /// The consumer itself after a step with the given outcome.
    pub open spec fn after(&self, action: ConsumerAction) -> Consumer {
        match action {
            ConsumerAction::Release { n, read_pos, wake } => Consumer {
                consumed: (self.consumed + n) as u64,
                ..*self
            },
            _ => *self,
        }
    }

    /// The consumer of a transfer of `total_bytes`, before its first byte.
    pub fn new(total_bytes: u64) -> (consumer: Self)
        ensures
            consumer == (Consumer { total: total_bytes, consumed: 0 }),
    {
        Consumer { total: total_bytes, consumed: 0 }
    }
}

impl ProducerAction {
    /// The change of the channel that goes with the action, for a step that
    /// was offered `chunk`.
    pub open spec fn effect(self, chunk: Seq<u8>) -> Option<Move> {
        match self {
            ProducerAction::Publish { n, write_pos, wake } => Some(
                Move::Store(chunk.subrange(0, n as int)),
            ),
            ProducerAction::Finish { wake } => Some(Move::Finish),
            _ => None,
        }
    }
}

impl ConsumerAction {
    /// The change of the channel that goes with the action.
    pub open spec fn effect(self) -> Option<Move> {
        match self {
            ConsumerAction::Release { n, read_pos, wake } => Some(Move::Release(n as nat)),
            _ => None,
        }
    }
}

impl ChannelView {
    /// The channel after the change, if any, that goes with a step.
    pub open spec fn after(self, effect: Option<Move>) -> ChannelView {
        match effect {
            Some(m) => self.apply(m),
            None => self,
        }
    }

    /// The bytes that the change, if any, hands to the consumer.
    pub open spec fn handed_out(self, effect: Option<Move>) -> Seq<u8> {
        match effect {
            Some(m) => self.yields(m),
            None => Seq::empty(),
        }
    }

    /// The bytes that the change, if any, takes from the producer.
    pub open spec fn taken_in(self, effect: Option<Move>) -> Seq<u8> {
        match effect {
            Some(m) => self.absorbs(m),
            None => Seq::empty(),
        }
    }
}

/// One step of the producer.
///
/// With room in the ring it stores the start of `chunk` at the write cursor,
/// as many bytes as the free space, the rest of the transfer and the chunk
/// allow, in two pieces where they reach past the end of the payload area,
/// and moves the write cursor. With no room it asks to wait for the read
/// cursor. Once the whole transfer is published it sets the state to done.
/// It never touches the read cursor or the size.
pub fn producer_step(
    shm: &mut Shared,
    buffer: &mut [u8],
    producer: &mut Producer,
    chunk: &[u8],
    strategy: WaitStrategy,
) -> (action: ProducerAction)
    requires
        old(shm).consistent(old(buffer)@.len() as int),
        old(producer).wf(),
    ensures
        action == old(producer).plan(old(shm).over(old(buffer)@), chunk@.len() as int, strategy),
        final(shm).over(final(buffer)@) == old(shm).over(old(buffer)@).after(
            action.effect(chunk@),
        ),
        *final(producer) == old(producer).after(action),
        final(shm).consistent(final(buffer)@.len() as int),
        final(producer).wf(),
        final(shm).read_pos == old(shm).read_pos,
        final(shm).total_bytes == old(shm).total_bytes,
        action matches ProducerAction::Publish { n, write_pos, wake } ==> {
            &&& old(shm).over(old(buffer)@).admits(Move::Store(chunk@.subrange(0, n as int)))
            &&& final(shm).over(final(buffer)@).pending() == old(shm).over(
                old(buffer)@,
            ).pending() + chunk@.subrange(0, n as int)
        },
{
    match shm.state {
        ChannelState::Running => {},
        _ => {
            return ProducerAction::Stopped;
        },
    }
    if producer.produced == producer.total {
        release_barrier();
        shm.state = ChannelState::Done;
        return ProducerAction::Finish { wake: strategy.wake(1) };
    }
    let mut header = shm.header();
    if header.unused(buffer.len()) == 0 {
        return ProducerAction::Wait(strategy.wait_while(shm.read_pos, true));
    }
    let n: usize = header.push(buffer, chunk, producer.total - producer.produced);
    shm.write_pos = header.end_index;
    producer.produced = producer.produced + n as u64;
    ProducerAction::Publish { n, write_pos: shm.write_pos, wake: strategy.wake(1) }
}

/// One step of the consumer.
///
/// With bytes in flight it appends the oldest of them to `sink`, as many as
/// are there, as the rest of the transfer and as `limit` allow, reading in two
/// pieces where they reach past the end of the payload area, and moves the
/// read cursor. With none in flight it asks to wait for the write cursor
/// while the producer runs, and stops short where the producer is done. It
/// never touches the write cursor, the state, the size or the payload.
pub fn consumer_step(
    shm: &mut Shared,
    buffer: &[u8],
    consumer: &mut Consumer,
    sink: &mut Vec<u8>,
    limit: usize,
    strategy: WaitStrategy,
) -> (action: ConsumerAction)
    requires
        old(shm).consistent(buffer@.len() as int),
        old(consumer).wf(),
    ensures
        action == old(consumer).plan(old(shm).over(buffer@), limit as int, strategy),
        final(shm).over(buffer@) == old(shm).over(buffer@).after(action.effect()),
        final(sink)@ == old(sink)@ + old(shm).over(buffer@).handed_out(action.effect()),
        *final(consumer) == old(consumer).after(action),
        final(shm).consistent(buffer@.len() as int),
        final(consumer).wf(),
        final(shm).write_pos == old(shm).write_pos,
        final(shm).state == old(shm).state,
        final(shm).total_bytes == old(shm).total_bytes,
        action matches ConsumerAction::Release { n, read_pos, wake } ==> {
            &&& old(shm).over(buffer@).admits(Move::Release(n as nat))
            &&& final(sink)@ == old(sink)@ + old(shm).over(buffer@).pending().subrange(0, n as int)
            &&& final(shm).over(buffer@).pending() == old(shm).over(buffer@).pending().subrange(
                n as int,
                old(shm).used(),
            )
        },
{
    if consumer.consumed == consumer.total {
        return ConsumerAction::Finished {
            consumed: consumer.consumed,
            outcome: ChannelState::Done,
        };
    }
    let mut header = shm.header();
    if header.available() == 0 {
        return match shm.state {
            ChannelState::Running => ConsumerAction::Wait(
                strategy.wait_while(shm.write_pos, true),
            ),
            _ => ConsumerAction::Finished {
                consumed: consumer.consumed,
                outcome: ChannelState::Aborted,
            },
        };
    }
    let rest: u64 = consumer.total - consumer.consumed;
    let most: u64 = if (limit as u64) < rest {
        limit as u64
    } else {
        rest
    };
    proof {
        assert(buffer@.len() <= usize::MAX) by {
            axiom_spec_len(buffer);
        }
        lemma_release_drops(
            buffer@,
            shm.read_pos,
            shm.write_pos,
            consumer.share(shm.over(buffer@), limit as int),
        );
    }
    let n: usize = header.pop(buffer, sink, most);
    shm.read_pos = header.start_index;
    consumer.consumed = consumer.consumed + n as u64;
    ConsumerAction::Release { n, read_pos: shm.read_pos, wake: strategy.wake(1) }
}

} // verus!
