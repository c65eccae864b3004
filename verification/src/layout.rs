//! Cursor arithmetic of the ring: distances between cursors that wrap at the
//! machine word, and buffer offsets that wrap at the capacity.

use vstd::arithmetic::div_mod::{
    lemma_fundamental_div_mod, lemma_fundamental_div_mod_converse_mod, lemma_mod_mod,
    lemma_mod_multiples_basic, lemma_mod_sub_multiples_vanish, lemma_small_mod,
};
use vstd::arithmetic::power2::is_pow2;
use vstd::prelude::*;

verus! {

/// Capacity of the ring where the caller has no reason to pick another.
pub const BUF_SIZE: usize = 4 * 1024 * 1024;

/// Number of values a cursor can take: cursors count modulo this.
pub open spec fn word() -> int {
    0x1_0000_0000_0000_0000
}

/// A capacity the ring accepts: a power of two, in bytes.
pub open spec fn valid_capacity(capacity: int) -> bool {
    is_pow2(capacity)
}

/// Distance from `read` up to `write`, counted modulo the machine word.
pub open spec fn span(write: u64, read: u64) -> int {
    if write >= read {
        write - read
    } else {
        write - read + word()
    }
}

/// The cursor `n` bytes after `cursor`, counted modulo the machine word.
pub open spec fn advance(cursor: u64, n: int) -> u64 {
    if cursor + n >= word() {
        (cursor + n - word()) as u64
    } else {
        (cursor + n) as u64
    }
}

/// The smaller of two numbers.
pub open spec fn least(a: int, b: int) -> int {
    if a <= b {
        a
    } else {
        b
    }
}

/// Buffer offset a cursor stands for.
pub open spec fn slot(cursor: u64, capacity: int) -> int {
    (cursor as int) % capacity
}

/// Buffer offset `i` bytes after offset `from`, continuing at 0 past the end
/// (for an offset inside the buffer and at most `capacity` bytes).
pub open spec fn wrapped(from: int, i: int, capacity: int) -> int {
    if from + i >= capacity {
        from + i - capacity
    } else {
        from + i
    }
}

/// How many bytes after offset `from` the offset `at` lies, going round
/// through 0 where `at` is below `from`.
pub open spec fn distance(from: int, at: int, capacity: int) -> int {
    if at >= from {
        at - from
    } else {
        at - from + capacity
    }
}

spec fn two_to(k: nat) -> int
    decreases k,
{
    if k == 0 {
        1
    } else {
        2 * two_to((k - 1) as nat)
    }
}

proof fn lemma_two_to_64()
    ensures
        two_to(64) == word(),
{
    reveal_with_fuel(two_to, 65);
}

proof fn lemma_pow2_divides_rec(capacity: int, k: nat)
    requires
        is_pow2(capacity),
        capacity <= two_to(k),
    ensures
        capacity > 0,
        two_to(k) % capacity == 0,
    decreases k,
{
    reveal(is_pow2);
    if capacity == 1 {
    } else if k == 0 {
    } else {
        let half = capacity / 2;
        let rest = two_to((k - 1) as nat);
        lemma_pow2_divides_rec(half, (k - 1) as nat);
        lemma_fundamental_div_mod(rest, half);
        let q = rest / half;
        assert(two_to(k) == capacity * q) by (nonlinear_arith)
            requires
                two_to(k) == 2 * rest,
                rest == half * q,
                capacity == 2 * half,
        ;
        lemma_multiple_mod(capacity, q);
    }
}

proof fn lemma_multiple_mod(d: int, q: int)
    requires
        d > 0,
    ensures
        (d * q) % d == 0,
{
    lemma_mod_multiples_basic(q, d);
    assert(d * q == q * d) by (nonlinear_arith);
}

/// A capacity the ring accepts divides the number of values of a cursor, so
/// offsets go on evenly where a cursor wraps.
pub proof fn lemma_capacity_divides_word(capacity: int)
    requires
        valid_capacity(capacity),
        capacity <= word(),
    ensures
        capacity > 0,
        word() % capacity == 0,
{
    lemma_two_to_64();
    lemma_pow2_divides_rec(capacity, 64);
}

/// Advancing a cursor advances its buffer offset by the same amount,
/// wrapping at the capacity: the wrap of the cursor at the machine word is
/// not seen in the offsets.
pub proof fn lemma_slot_advance(cursor: u64, n: int, capacity: int)
    requires
        valid_capacity(capacity),
        capacity <= word(),
        0 <= n <= capacity,
    ensures
        0 <= slot(cursor, capacity) < capacity,
        slot(advance(cursor, n), capacity) == wrapped(slot(cursor, capacity), n, capacity),
{
    lemma_capacity_divides_word(capacity);
    let w = word();
    let q = w / capacity;
    lemma_fundamental_div_mod(w, capacity);
    let sum = cursor as int + n;
    // The cursor after the step is the sum modulo the word,
    assert(advance(cursor, n) as int == sum % w) by {
        if sum >= w {
            lemma_small_mod((sum - w) as nat, w as nat);
            lemma_mod_sub_multiples_vanish(sum, w);
        } else {
            lemma_small_mod(sum as nat, w as nat);
        }
    }
    assert(q > 0) by (nonlinear_arith)
        requires
            w == capacity * q,
            w > 0,
            capacity > 0,
    ;
    // the word is a multiple of the capacity, so the offset is the sum modulo
    // the capacity,
    lemma_mod_mod(sum, capacity, q);
    // and the sum is the old offset plus `n`, up to full turns of the buffer.
    let at = slot(cursor, capacity);
    lemma_fundamental_div_mod(cursor as int, capacity);
    let turns = cursor as int / capacity;
    if at + n >= capacity {
        assert(sum == capacity * (turns + 1) + (at + n - capacity)) by (nonlinear_arith)
            requires
                sum == capacity * turns + (at + n),
        ;
        lemma_fundamental_div_mod_converse_mod(sum, capacity, turns + 1, at + n - capacity);
    } else {
        lemma_fundamental_div_mod_converse_mod(sum, capacity, turns, at + n);
    }
}

/// The default capacity is one the ring accepts.
pub proof fn lemma_buf_size_is_valid()
    ensures
        valid_capacity(BUF_SIZE as int),
{
    reveal_with_fuel(is_pow2, 24);
}

/// Tells whether `capacity` is a power of two.
pub fn is_valid_capacity(capacity: usize) -> (ok: bool)
    ensures
        ok == valid_capacity(capacity as int),
{
    if capacity == 0 {
        proof {
            reveal(is_pow2);
        }
        return false;
    }
    let mut rest: usize = capacity;
    while rest % 2 == 0
        invariant
            rest >= 1,
            is_pow2(rest as int) == is_pow2(capacity as int),
        decreases rest,
    {
        proof {
            reveal(is_pow2);
        }
        rest = rest / 2;
    }
    proof {
        reveal(is_pow2);
    }
    rest == 1
}

/// Distance from `read` up to `write`: the bytes written and not yet read.
pub fn occupied(write: u64, read: u64) -> (used: u64)
    ensures
        used == span(write, read),
{
    write.wrapping_sub(read)
}

/// The cursor `n` bytes after `cursor`.
pub fn advanced(cursor: u64, n: usize) -> (next: u64)
    ensures
        next == advance(cursor, n as int),
{
    cursor.wrapping_add(n as u64)
}

/// Buffer offset a cursor stands for.
pub fn slot_of(cursor: u64, capacity: usize) -> (at: usize)
    requires
        capacity > 0,
    ensures
        at == slot(cursor, capacity as int),
        at < capacity,
{
    (cursor % (capacity as u64)) as usize
}

/// The two cursors of a ring and its start flag, as one participant observed
/// them in the shared block.
///
/// `start_index` is the read cursor and belongs to the consumer; `end_index`
/// is the write cursor and belongs to the producer. Both count bytes since the
/// ring was set up and wrap only at the machine word.
#[derive(Clone, Copy, Debug, PartialEq, Eq, Structural)]
pub struct ShmHeader {
    pub start_index: u64,
    pub end_index: u64,
    pub transfer_started: u32,
}

impl ShmHeader {
    /// The header of a block that was just zeroed.
    pub fn new() -> (header: Self)
        ensures
            header == (ShmHeader { start_index: 0, end_index: 0, transfer_started: 0 }),
    {
        ShmHeader { start_index: 0, end_index: 0, transfer_started: 0 }
    }

    /// Bytes written and not yet read.
    pub open spec fn used(&self) -> int {
        span(self.end_index, self.start_index)
    }

    /// The cursors fit a ring of `capacity` bytes: the capacity is a power of
    /// two and no more than that many bytes are in flight.
    pub open spec fn consistent(&self, capacity: int) -> bool {
        &&& valid_capacity(capacity)
        &&& self.used() <= capacity
    }

    /// Whether the consumer has asked for the transfer to begin.
    pub fn started(&self) -> (yes: bool)
        ensures
            yes == (self.transfer_started != 0),
    {
        self.transfer_started != 0
    }

    /// Bytes that can be read.
    pub fn available(&self) -> (n: u64)
        ensures
            n == self.used(),
    {
        occupied(self.end_index, self.start_index)
    }

    /// Tells whether the cursors fit a ring of `capacity` bytes.
    pub fn is_consistent(&self, capacity: usize) -> (ok: bool)
        ensures
            ok == self.consistent(capacity as int),
    {
        is_valid_capacity(capacity) && self.available() <= capacity as u64
    }

    /// Bytes that can be written.
    pub fn unused(&self, capacity: usize) -> (n: usize)
        requires
            self.consistent(capacity as int),
        ensures
            n == capacity - self.used(),
    {
        capacity - (self.available() as usize)
    }
}

} // verus!
