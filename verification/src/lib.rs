//! Shared-memory communication primitives: a bounded single-producer,
//! single-consumer byte ring, a turn-passing rendezvous token, and the wait
//! strategy both are driven with.
//!
//! Two processes attach one block of memory and talk through it alone. What
//! is shared are a few words (two cursors and a state for the ring, a counter
//! and a flag for the token) and, for the ring, a payload area. Every function
//! here works on plain values: the words as one participant loaded them, and
//! the payload area as a byte slice. A step changes what its role owns and
//! returns the action that publishes the change; the caller stores the word
//! the action names, wakes or waits as it says, and loads again.
//!
//! * [`layout`]: cursor arithmetic and the cursor header.
//! * [`payload`]: stores and reads that wrap at the end of the payload area.
//! * [`wait`]: spinning and parking.
//! * [`ring`]: the control words, the two roles and their steps.
//! * [`channel`]: a ring channel that owns its payload area.
//! * [`rendezvous`]: the token and the participants' steps.
//! * [`runs`], [`transfer`], [`exchange`]: what holds over every run of steps.
//! * [`pattern`]: the bytes a benchmark sends.

mod barrier;
pub mod channel;
pub mod exchange;
pub mod layout;
pub mod pattern;
pub mod payload;
pub mod rendezvous;
pub mod ring;
pub mod runs;
pub mod transfer;
pub mod wait;
