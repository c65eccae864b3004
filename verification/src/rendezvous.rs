//! The rendezvous token: one shared counter whose parity says whose turn it
//! is, passed back and forth between two participants.
//!
//! The token is handled as the pair of values one participant observed. A
//! participant is a small state machine: it waits for its turn, is active
//! while it holds the turn, and passes the turn on by counting one up.

use crate::wait::{WaitAction, WaitStrategy, WakeAction};
use vstd::prelude::*;

verus! {

/// One of the two participants.
#[derive(Clone, Copy, Debug, PartialEq, Eq, Structural)]
pub enum Side {
    /// The driver: owns the even values of the counter and sets `done`.
    Left,
    /// The partner: owns the odd values of the counter.
    Right,
}

/// Where a participant stands in the exchange.
#[derive(Clone, Copy, Debug, PartialEq, Eq, Structural)]
pub enum Phase {
    /// It waits for the counter to take its parity.
    WaitingForTurn,
    /// It holds the turn and has not passed it on yet.
    Active,
    /// It has left the exchange.
    Finished,
}

/// The counter after one more handoff: one more, wrapping at the machine
/// word, which keeps the parities alternating.
pub open spec fn next_count(counter: i32) -> i32 {
    if counter == i32::MAX {
        i32::MIN
    } else {
        (counter + 1) as i32
    }
}

/// The side that owns the given value of the counter.
pub open spec fn owner(counter: i32) -> Side {
    if counter % 2 == 0 {
        Side::Left
    } else {
        Side::Right
    }
}

impl Side {
    /// The other participant.
    pub open spec fn opposite(self) -> Side {
        match self {
            Side::Left => Side::Right,
            Side::Right => Side::Left,
        }
    }

    /// The other participant.
    pub fn other(self) -> (side: Side)
        ensures
            side == self.opposite(),
    {
        match self {
            Side::Left => Side::Right,
            Side::Right => Side::Left,
        }
    }
}

/// The token as one participant observed it in the shared block.
#[derive(Clone, Copy, Debug, PartialEq, Eq, Structural)]
pub struct RendezvousToken {
    /// Number of handoffs so far; its parity is the turn.
    pub counter: i32,
    /// Set once by the driver, before its last handoff.
    pub done: bool,
}

/// The token of a block that was just zeroed: no handoff yet, the turn is
/// with the left side.
pub fn new_rendezvous() -> (token: RendezvousToken)
    ensures
        token == (RendezvousToken { counter: 0, done: false }),
{
    RendezvousToken { counter: 0, done: false }
}

impl RendezvousToken {
    /// The side whose turn it is.
    pub open spec fn holder(&self) -> Side {
        owner(self.counter)
    }

    /// The token after the holder passed the turn.
    pub open spec fn passed(&self) -> RendezvousToken {
        RendezvousToken { counter: next_count(self.counter), done: self.done }
    }

    /// The token after the driver ended the exchange: `done` is set and the
    /// turn was passed once more.
    pub open spec fn ended(&self) -> RendezvousToken {
        RendezvousToken { counter: next_count(self.counter), done: true }
    }

    /// The side whose turn it is.
    pub fn turn(&self) -> (side: Side)
        ensures
            side == self.holder(),
    {
        if self.counter % 2 == 0 {
            Side::Left
        } else {
            Side::Right
        }
    }
}

/// One participant of the exchange and where it stands.
#[derive(Clone, Copy, Debug, PartialEq, Eq, Structural)]
pub struct Participant {
    pub side: Side,
    pub phase: Phase,
}

impl Participant {
    /// The participant is active and the token says that the turn is its own:
    /// the condition under which it may count up.
    pub open spec fn holds_turn(&self, token: &RendezvousToken) -> bool {
        self.phase == Phase::Active && token.holder() == self.side
    }

    /// The participant after a look at the token: a waiting one whose turn
    /// has come becomes active, or leaves where `done` is set; any other stays
    /// as it is.
    pub open spec fn after_look(&self, token: &RendezvousToken) -> Participant {
        Participant {
            side: self.side,
            phase: if self.phase != Phase::WaitingForTurn || token.holder() != self.side {
                self.phase
            } else if token.done {
                Phase::Finished
            } else {
                Phase::Active
            },
        }
    }

    /// The participant still has to wait after a look at the token.
    pub open spec fn must_wait(&self, token: &RendezvousToken) -> bool {
        self.phase == Phase::WaitingForTurn && token.holder() != self.side
    }

    /// A participant at the start of an exchange over a fresh token: the left
    /// side holds the turn, the right side waits for it.
    pub fn new(side: Side) -> (participant: Self)
        ensures
            participant.side == side,
            participant.phase == match side {
                Side::Left => Phase::Active,
                Side::Right => Phase::WaitingForTurn,
            },
    {
        match side {
            Side::Left => Participant { side, phase: Phase::Active },
            Side::Right => Participant { side, phase: Phase::WaitingForTurn },
        }
    }

    /// Tells whether the participant may count up now.
    pub fn may_pass(&self, token: &RendezvousToken) -> (yes: bool)
        ensures
            yes == self.holds_turn(token),
    {
        match (self.phase, token.turn(), self.side) {
            (Phase::Active, Side::Left, Side::Left) => true,
            (Phase::Active, Side::Right, Side::Right) => true,
            _ => false,
        }
    }

    /// A waiting participant looks at the token.
    ///
    /// While the turn is with the other side it keeps waiting, on the counter
    /// value it saw. Once the turn is its own it becomes active, or leaves
    /// where `done` is set: `done` counts only together with its own turn, so
    /// the driver's last handoff shows it both. A participant that is not
    /// waiting has nothing to wait for and stays as it is.
    pub fn await_turn(&mut self, token: &RendezvousToken, strategy: WaitStrategy) -> (action:
        WaitAction<i32>)
        ensures
            *final(self) == old(self).after_look(token),
            action == strategy.poll(token.counter, old(self).must_wait(token)),
    {
        let waiting: bool = match self.phase {
            Phase::WaitingForTurn => true,
            _ => false,
        };
        let mine: bool = match (token.turn(), self.side) {
            (Side::Left, Side::Left) => true,
            (Side::Right, Side::Right) => true,
            _ => false,
        };
        if waiting && mine {
            if token.done {
                self.phase = Phase::Finished;
            } else {
                self.phase = Phase::Active;
            }
        }
        strategy.wait_while(token.counter, waiting && !mine)
    }

    /// The active participant passes the turn: the counter goes up by one,
    /// which flips its parity, and the other side is to be woken. The count
    /// and the wake are one action: the caller stores the counter and then
    /// performs the returned wake, in that order and on every path.
    pub fn pass_turn(&mut self, token: &mut RendezvousToken, strategy: WaitStrategy) -> (wake:
        WakeAction)
        requires
            old(self).holds_turn(old(token)),
        ensures
            *final(self) == (Participant { side: old(self).side, phase: Phase::WaitingForTurn }),
            *final(token) == old(token).passed(),
            wake == strategy.notify(1),
    {
        token.counter = token.counter.wrapping_add(1);
        self.phase = Phase::WaitingForTurn;
        strategy.wake(1)
    }

    /// The driver ends the exchange: it sets `done`, then hands the turn over
    /// once more, so that the partner, which waits on the counter, sees its
    /// turn and `done` together. The caller stores `done` before the counter
    /// and performs the returned wake last.
    pub fn terminate(&mut self, token: &mut RendezvousToken, strategy: WaitStrategy) -> (wake:
        WakeAction)
        requires
            old(self).side == Side::Left,
            old(self).holds_turn(old(token)),
        ensures
            *final(self) == (Participant { side: Side::Left, phase: Phase::Finished }),
            *final(token) == old(token).ended(),
            wake == strategy.notify(1),
    {
        token.done = true;
        token.counter = token.counter.wrapping_add(1);
        self.phase = Phase::Finished;
        strategy.wake(1)
    }
}

/// The counter after `n` handoffs that started from a fresh token.
pub open spec fn count_after(n: nat) -> i32
    decreases n,
{
    if n == 0 {
        0
    } else {
        next_count(count_after((n - 1) as nat))
    }
}

/// Every handoff moves the turn to the other side, also where the counter
/// wraps: nobody can count up twice without the other side counting between.
pub proof fn lemma_handoff_flips_turn(token: RendezvousToken)
    ensures
        token.passed().holder() == token.holder().opposite(),
        token.ended().holder() == token.holder().opposite(),
{
}

/// Over `n` handoffs from a fresh token the counter takes the values
/// 0, 1, 2, ..., `n` in this order, and the handoff that leaves the value `k`
/// is made by the side that owns `k`: the left side for even `k`, the right
/// side for odd `k`.
pub proof fn lemma_handoffs_count_up(n: nat)
    requires
        n <= i32::MAX,
    ensures
        forall|k: nat| k <= n ==> #[trigger] count_after(k) == k,
        forall|k: nat|
            k < n ==> owner(#[trigger] count_after(k)) == if k % 2 == 0 {
                Side::Left
            } else {
                Side::Right
            },
    decreases n,
{
    if n > 0 {
        lemma_handoffs_count_up((n - 1) as nat);
        assert(count_after(n) == next_count(count_after((n - 1) as nat)));
    }
}

} // verus!
