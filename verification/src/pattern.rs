//! The bytes a benchmark sends: a fill pattern for its chunk, and the check
//! value that both sides keep of the stream they saw.

use vstd::prelude::*;

verus! {

/// Byte number `i` of the fill pattern: 1, 2, ..., 255, 1, 2, ...
pub open spec fn pattern_byte(i: int) -> u8 {
    ((i % 255) + 1) as u8
}

/// The exclusive-or of all bytes of a sequence.
pub open spec fn xor_of(bytes: Seq<u8>) -> u8
    decreases bytes.len(),
{
    if bytes.len() == 0 {
        0
    } else {
        xor_of(bytes.drop_last()) ^ bytes.last()
    }
}

/// A chunk of `len` bytes that holds the fill pattern, which has no zero
/// byte.
pub fn fill_pattern(len: usize) -> (chunk: Vec<u8>)
    ensures
        chunk@.len() == len,
        forall|i: int| 0 <= i < len ==> chunk@[i] == pattern_byte(i),
{
    let mut chunk: Vec<u8> = Vec::new();
    let mut i: usize = 0;
    while i < len
        invariant
            i <= len,
            chunk@.len() == i,
            forall|j: int| 0 <= j < i ==> chunk@[j] == pattern_byte(j),
        decreases len - i,
    {
        chunk.push(((i % 255) + 1) as u8);
        i += 1;
    }
    chunk
}

/// Folds `bytes` into a running exclusive-or: the check value both sides
/// keep of the stream they saw.
pub fn xor_into(running: u8, bytes: &[u8]) -> (check: u8)
    ensures
        check == running ^ xor_of(bytes@),
{
    let mut check: u8 = running;
    let mut i: usize = 0;
    proof {
        assert(running ^ 0u8 == running) by (bit_vector);
    }
    while i < bytes.len()
        invariant
            i <= bytes@.len(),
            check == running ^ xor_of(bytes@.subrange(0, i as int)),
        decreases bytes@.len() - i,
    {
        proof {
            let upto = bytes@.subrange(0, i as int);
            let next = bytes@.subrange(0, i + 1);
            let b = bytes@[i as int];
            assert(next.drop_last() =~= upto);
            let x = xor_of(upto);
            assert((running ^ x) ^ b == running ^ (x ^ b)) by (bit_vector);
        }
        check = check ^ bytes[i];
        i += 1;
    }
    proof {
        assert(bytes@.subrange(0, i as int) =~= bytes@);
    }
    check
}

} // verus!
