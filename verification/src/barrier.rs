//! The memory barriers of the protocol and the hint of a busy wait.
//!
//! The steps of the ring touch the payload area themselves, so they issue the
//! barriers themselves: an acquire barrier before the first access to the
//! payload, which orders it after the caller's loads of the cursors, and a
//! release barrier after the last access, which orders it before the caller's
//! store of a cursor.

use std::sync::atomic::Ordering;
use vstd::prelude::*;

verus! {

/// `std::sync::atomic::fence`: a barrier of the given ordering. It changes no
/// value, so nothing is claimed of it; it panics on the relaxed ordering,
/// which is left out.
pub assume_specification[ std::sync::atomic::fence ](order: Ordering)
    requires
        !(order is Relaxed),
;

/// `std::hint::spin_loop`: tells the processor that the caller is in a busy
/// wait. It changes no value, so nothing is claimed of it.
pub assume_specification[ std::hint::spin_loop ]();

/// Orders what follows after the loads that came before.
pub(crate) fn acquire_barrier() {
    std::sync::atomic::fence(Ordering::Acquire);
}

/// Orders what came before ahead of the stores that follow.
pub(crate) fn release_barrier() {
    std::sync::atomic::fence(Ordering::Release);
}

/// Hints the processor between two looks at a word.
pub(crate) fn spin_hint() {
    std::hint::spin_loop();
}

} // verus!
