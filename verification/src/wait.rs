//! Waiting for a shared word to change, by spinning or by parking.
//!
//! A wait is a loop around a load, and a loop that ends only when another
//! participant acts cannot be given a bound. So the loop is the caller's, and
//! this module does each round of it: [`WaitStrategy::wait_while`] takes the
//! value that was loaded and the outcome of the predicate on it, gives the
//! processor its hint where the strategy spins, and says what the caller does
//! before it loads again.

use crate::barrier::spin_hint;
use vstd::prelude::*;

verus! {

/// How a participant waits for the other side, and whether a change has to
/// be announced to it.
#[derive(Clone, Copy, Debug, PartialEq, Eq, Structural)]
pub enum WaitStrategy {
    /// Poll the word again and again; never suspend.
    Spin,
    /// Suspend until the other side announces a change of the word.
    Block,
}

/// What a waiter does after one look at the watched word.
#[derive(Debug, PartialEq, Eq)]
pub enum WaitAction<T> {
    /// The predicate is false: the wait is over.
    Proceed,
    /// The predicate holds and the processor has had its hint: load and ask
    /// again.
    Again,
    /// The predicate holds: park for as long as the word still holds
    /// `expected`, then load and ask again, whatever ended the parking.
    Park { expected: T },
}

/// What a participant does right after it changed a watched word.
#[derive(Clone, Copy, Debug, PartialEq, Eq, Structural)]
pub enum WakeAction {
    /// Nobody parks on the word.
    Nothing,
    /// Wake up to `count` participants parked on the word.
    Notify { count: u32 },
}

impl WaitStrategy {
    /// The decision of one round of a wait: `observed` is the value loaded
    /// from the word, `holds` the predicate on that value.
    pub open spec fn poll<T>(self, observed: T, holds: bool) -> WaitAction<T> {
        if !holds {
            WaitAction::Proceed
        } else {
            match self {
                WaitStrategy::Spin => WaitAction::Again,
                WaitStrategy::Block => WaitAction::Park { expected: observed },
            }
        }
    }

    /// What follows a change of a word that up to `count` others may watch.
    pub open spec fn notify(self, count: u32) -> WakeAction {
        match self {
            WaitStrategy::Spin => WakeAction::Nothing,
            WaitStrategy::Block => WakeAction::Notify { count },
        }
    }

    /// Picks the strategy: parking where `blocking` is set, spinning where not.
    pub fn new(blocking: bool) -> (strategy: Self)
        ensures
            strategy == if blocking {
                WaitStrategy::Block
            } else {
                WaitStrategy::Spin
            },
    {
        if blocking {
            WaitStrategy::Block
        } else {
            WaitStrategy::Spin
        }
    }

    /// One round of "wait while the predicate holds of the word".
    ///
    /// With a false predicate it returns at once and does nothing. With a
    /// true one it hints the processor where the strategy spins, and never
    /// suspends; where the strategy blocks it names the value to park on,
    /// which is the very value the predicate was asked about, so that a change
    /// between the check and the parking ends the parking at once.
    pub fn wait_while<T>(self, observed: T, holds: bool) -> (action: WaitAction<T>)
        ensures
            action == self.poll(observed, holds),
    {
        if !holds {
            WaitAction::Proceed
        } else {
            match self {
                WaitStrategy::Spin => {
                    spin_hint();
                    WaitAction::Again
                },
                WaitStrategy::Block => WaitAction::Park { expected: observed },
            }
        }
    }

    /// What to do after changing a word that up to `count` others may watch:
    /// nothing when they spin, a notification when they park.
    pub fn wake(self, count: u32) -> (action: WakeAction)
        ensures
            action == self.notify(count),
    {
        match self {
            WaitStrategy::Spin => WakeAction::Nothing,
            WaitStrategy::Block => WakeAction::Notify { count },
        }
    }
}

/// A wait on a predicate that is already false ends in its first round,
/// under either strategy and however often it is asked.
pub proof fn lemma_false_predicate_proceeds<T>(strategy: WaitStrategy, first: T, second: T)
    ensures
        strategy.poll(first, false) == WaitAction::<T>::Proceed,
        strategy.poll(second, false) == strategy.poll(first, false),
{
}

} // verus!
