//! Plain-value forms of the chain quantities the engine works with.
//!
//! A 256-bit word is held as two 128-bit halves and a 160-bit address as a
//! 32-bit half over a 128-bit half, so equality and contracts stay over
//! machine integers.

use vstd::prelude::*;

verus! {

/// A 160-bit account address, big-endian: `hi` holds the top 32 bits.
#[derive(Clone, Copy, PartialEq, Eq, Structural, Debug)]
pub struct Address {
    pub hi: u32,
    pub lo: u128,
}

/// A 256-bit word (balance, call value, storage slot key or value),
/// big-endian: `hi` holds the top 128 bits.
#[derive(Clone, Copy, PartialEq, Eq, Structural, Debug)]
pub struct U256 {
    pub hi: u128,
    pub lo: u128,
}

impl U256 {
    /// The value of the word as an unbounded natural number.
    pub open spec fn as_nat(self) -> nat {
        self.hi as nat * 0x100000000000000000000000000000000 + self.lo as nat
    }

    pub open spec fn spec_zero() -> U256 {
        U256 { hi: 0, lo: 0 }
    }

    pub fn zero() -> (r: U256)
        ensures
            r == U256::spec_zero(),
    {
        U256 { hi: 0, lo: 0 }
    }

    pub fn from_u64(v: u64) -> (r: U256)
        ensures
            r == (U256 { hi: 0, lo: v as u128 }),
            r.as_nat() == v,
    {
        U256 { hi: 0, lo: v as u128 }
    }
}

} // verus!
