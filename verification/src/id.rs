//! Random 64-bit and 128-bit identifiers.

use scrypt::password_hash::rand_core::{OsRng, RngCore};
use vstd::prelude::*;

verus! {

/// A source of identifiers. Nothing is promised of the values: a caller must
/// be correct whatever is drawn, and the record store rejects a repeat.
pub trait IdGenerator {
    fn new_u64(&self) -> u64;

    fn new_u128(&self) -> u128;
}

/// Draws identifiers from the operating system's secure random source. It
/// keeps no state between calls.
#[derive(Clone, Copy)]
pub struct DefaultIdGenerator {}

/// Calls `OsRng.next_u64()` of rand_core: eight bytes from the operating
/// system's random source. Nothing is claimed of the value. Where the system
/// yields no entropy the call ends the process.
#[verifier::external_body]
fn os_random_u64() -> u64 {
    OsRng.next_u64()
}

/// The 128-bit value whose upper half is `hi` and whose lower half is `lo`.
pub open spec fn joined(hi: u64, lo: u64) -> int {
    hi as int * 0x1_0000_0000_0000_0000 + lo as int
}

/// Puts two 64-bit halves together into one 128-bit value.
pub fn join_u64(hi: u64, lo: u64) -> (r: u128)
    ensures
        r as int == joined(hi, lo),
{
    let sm: u128 = hi as u128;
    assert(sm << 64 == sm * 0x1_0000_0000_0000_0000) by (bit_vector)
        requires
            sm <= 0xffff_ffff_ffff_ffff,
    ;
    let lg: u128 = sm << 64;
    lg + (lo as u128)
}

/// Both halves can be read back from the joined value, so distinct pairs of
/// halves give distinct values.
pub proof fn lemma_joined_halves(hi: u64, lo: u64)
    ensures
        joined(hi, lo) / 0x1_0000_0000_0000_0000 == hi,
        joined(hi, lo) % 0x1_0000_0000_0000_0000 == lo,
        0 <= joined(hi, lo) <= u128::MAX,
{
}

impl IdGenerator for DefaultIdGenerator {
    fn new_u64(&self) -> u64 {
        os_random_u64()
    }

    fn new_u128(&self) -> u128 {
        let hi = os_random_u64();
        let lo = os_random_u64();
        join_u64(hi, lo)
    }
}

impl DefaultIdGenerator {
    pub fn init() -> Self {
        Self {  }
    }
}

} // verus!
