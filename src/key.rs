//! The byte that a one-byte read of a descriptor yields.

use vstd::prelude::*;

verus! {

/// What a one-byte read yields: the byte read, when the read returned at
/// least one byte; zero when it reached end of input or failed.
pub open spec fn key_of(count: int, byte: u8) -> u8 {
    if count > 0 {
        byte
    } else {
        0
    }
}

/// Turns the outcome of a one-byte read into the key it stands for.
///
/// `count` is what the read call returned (bytes read, zero at end of input,
/// negative on failure), and `byte` is the buffer it read into. A failed or
/// empty read gives zero, indistinguishable from a zero byte that was read.
pub fn key_from_read(count: isize, byte: u8) -> (r: u8)
    ensures
        r == key_of(count as int, byte),
{
    if count > 0 {
        byte
    } else {
        0
    }
}

} // verus!
