//! A whole exchange: the token together with its two participants, and what
//! holds of every run of their steps, in any interleaving.

use crate::rendezvous::{
    count_after, lemma_handoffs_count_up, next_count, owner, Participant, Phase, RendezvousToken,
    Side,
};
use crate::wait::{WaitAction, WaitStrategy, WakeAction};
use vstd::prelude::*;

verus! {

/// An exchange at one moment.
pub struct Exchange {
    /// The token.
    pub token: RendezvousToken,
    /// The driver.
    pub left: Participant,
    /// The partner.
    pub right: Participant,
    /// Number of handoffs made so far.
    pub handoffs: nat,
}

/// One step of one participant.
pub enum Act {
    /// The waiting participant of this side looks at the token.
    Look(Side),
    /// The active participant of this side passes the turn.
    Pass(Side),
    /// The driver ends the exchange.
    End,
}

impl Act {
    /// The act is a handoff made by `side`.
    pub open spec fn hands_over(self, side: Side) -> bool {
        match self {
            Act::Look(s) => false,
            Act::Pass(s) => s == side,
            Act::End => side == Side::Left,
        }
    }
}

impl Exchange {
    /// An exchange over a token that was just zeroed.
    pub open spec fn fresh() -> Exchange {
        Exchange {
            token: RendezvousToken { counter: 0, done: false },
            left: Participant { side: Side::Left, phase: Phase::Active },
            right: Participant { side: Side::Right, phase: Phase::WaitingForTurn },
            handoffs: 0,
        }
    }

    /// The participant of a side.
    pub open spec fn of(self, side: Side) -> Participant {
        match side {
            Side::Left => self.left,
            Side::Right => self.right,
        }
    }

    /// The participant may take the step: it meets what the step requires.
    pub open spec fn enabled(self, act: Act) -> bool {
        match act {
            Act::Look(side) => self.of(side).phase == Phase::WaitingForTurn,
            Act::Pass(side) => self.of(side).holds_turn(&self.token),
            Act::End => self.left.holds_turn(&self.token),
        }
    }

    /// The exchange after a step; a step that is not enabled is not taken.
    pub open spec fn step(self, act: Act) -> Exchange {
        if !self.enabled(act) {
            self
        } else {
            match act {
                Act::Look(Side::Left) => Exchange {
                    left: self.left.after_look(&self.token),
                    ..self
                },
                Act::Look(Side::Right) => Exchange {
                    right: self.right.after_look(&self.token),
                    ..self
                },
                Act::Pass(Side::Left) => Exchange {
                    token: self.token.passed(),
                    left: Participant { side: Side::Left, phase: Phase::WaitingForTurn },
                    handoffs: self.handoffs + 1,
                    ..self
                },
                Act::Pass(Side::Right) => Exchange {
                    token: self.token.passed(),
                    right: Participant { side: Side::Right, phase: Phase::WaitingForTurn },
                    handoffs: self.handoffs + 1,
                    ..self
                },
                Act::End => Exchange {
                    token: self.token.ended(),
                    left: Participant { side: Side::Left, phase: Phase::Finished },
                    handoffs: self.handoffs + 1,
                    ..self
                },
            }
        }
    }

    /// The exchange after a run of steps.
    pub open spec fn run(self, acts: Seq<Act>) -> Exchange
        decreases acts.len(),
    {
        if acts.len() == 0 {
            self
        } else {
            self.run(acts.drop_last()).step(acts.last())
        }
    }

    /// What the participants keep true of an exchange between their steps.
    pub open spec fn inv(self) -> bool {
        &&& self.left.side == Side::Left
        &&& self.right.side == Side::Right
        &&& self.left.phase == Phase::Active ==> self.token.holder() == Side::Left
        &&& self.right.phase == Phase::Active ==> self.token.holder() == Side::Right
        &&& self.token.done <==> self.left.phase == Phase::Finished
        &&& self.token.done ==> self.token.holder() == Side::Right
        &&& self.token.done ==> self.right.phase != Phase::Active
        &&& self.right.phase == Phase::Finished ==> self.token.done
        &&& self.token.counter == count_after(self.handoffs)
    }
}

/// A fresh exchange is in order.
pub proof fn lemma_fresh_exchange_is_in_order()
    ensures
        Exchange::fresh().inv(),
{
}

/// A step of either participant keeps the exchange in order.
pub proof fn lemma_act_keeps_order(e: Exchange, act: Act)
    requires
        e.inv(),
    ensures
        e.step(act).inv(),
{
}

/// After every run of steps of the two participants, in any interleaving,
/// the exchange is in order.
pub proof fn lemma_exchange_stays_in_order(e: Exchange, acts: Seq<Act>)
    requires
        e.inv(),
    ensures
        e.run(acts).inv(),
    decreases acts.len(),
{
    if acts.len() > 0 {
        lemma_exchange_stays_in_order(e, acts.drop_last());
        lemma_act_keeps_order(e.run(acts.drop_last()), acts.last());
    }
}

/// In an exchange that is in order the two participants are never active at
/// once, and never both entitled to a handoff.
pub proof fn lemma_one_side_at_a_time(e: Exchange)
    requires
        e.inv(),
    ensures
        !(e.left.phase == Phase::Active && e.right.phase == Phase::Active),
        !(e.enabled(Act::Pass(Side::Left)) && e.enabled(Act::Pass(Side::Right))),
        !(e.enabled(Act::End) && e.enabled(Act::Pass(Side::Right))),
{
}

/// Strict alternation: once a participant has made a handoff, it can make no
/// other before the other side has made one, whatever else happens between.
pub proof fn lemma_no_second_handoff(e: Exchange, first: Act, side: Side, acts: Seq<Act>)
    requires
        e.inv(),
        e.enabled(first),
        first.hands_over(side),
        forall|i: int| 0 <= i < acts.len() ==> !(#[trigger] acts[i]).hands_over(side.opposite()),
    ensures
        e.step(first).run(acts).token.holder() == side.opposite(),
        forall|next: Act|
            next.hands_over(side) ==> !(#[trigger] e.step(first).run(acts).enabled(next)),
    decreases acts.len(),
{
    let start = e.step(first);
    lemma_act_keeps_order(e, first);
    if acts.len() > 0 {
        let before = acts.drop_last();
        lemma_no_second_handoff(e, first, side, before);
        lemma_exchange_stays_in_order(start, before);
    }
}

/// From a fresh token the counter counts the handoffs: handoff number `k`,
/// counting from 0, finds the value `k` and leaves `k + 1`, and it is made by
/// the left side for even `k` and by the right side for odd `k`.
pub proof fn lemma_handoff_by_owner(e: Exchange, act: Act, side: Side)
    requires
        e.inv(),
        e.enabled(act),
        act.hands_over(side),
        e.handoffs < i32::MAX,
    ensures
        e.token.counter == e.handoffs,
        e.step(act).token.counter == e.handoffs + 1,
        e.step(act).handoffs == e.handoffs + 1,
        side == owner(e.token.counter),
        side == if e.handoffs % 2 == 0 {
            Side::Left
        } else {
            Side::Right
        },
{
    lemma_handoffs_count_up(e.handoffs + 1);
    lemma_act_keeps_order(e, act);
}

/// When the driver ends the exchange, the partner is waiting, and its next
/// look at the token ends its wait and makes it leave: it finds its turn and
/// `done` together. Under the blocking strategy the driver's step carries the
/// wake that ends the partner's parking.
pub proof fn lemma_end_reaches_partner(e: Exchange, strategy: WaitStrategy)
    requires
        e.inv(),
        e.enabled(Act::End),
    ensures
        ({
            let ended = e.step(Act::End);
            let left_alone = ended.step(Act::Look(Side::Right));
            &&& ended.enabled(Act::Look(Side::Right))
            &&& strategy.poll(ended.token.counter, ended.right.must_wait(&ended.token))
                == WaitAction::<i32>::Proceed
            &&& left_alone.right.phase == Phase::Finished
            &&& left_alone.left.phase == Phase::Finished
            &&& strategy == WaitStrategy::Block ==> strategy.notify(1) == (WakeAction::Notify {
                count: 1,
            })
        }),
{
}

/// Unless both participants have left, the one whose turn it is can take a
/// step that changes the exchange: nobody waits for a step that cannot come.
pub proof fn lemma_holder_can_move(e: Exchange)
    requires
        e.inv(),
        !(e.left.phase == Phase::Finished && e.right.phase == Phase::Finished),
    ensures
        ({
            let side = e.token.holder();
            ||| (e.enabled(Act::Look(side)) && e.step(Act::Look(side)).of(side).phase
                != Phase::WaitingForTurn)
            ||| e.enabled(Act::Pass(side))
        }),
{
}

} // verus!
