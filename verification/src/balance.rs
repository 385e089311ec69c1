//! Wallet balances, carried bit for bit.

use vstd::prelude::*;

verus! {

/// A balance as the provider reported it: the IEEE 754 binary64 bit pattern
/// of the amount. The library never does arithmetic on a balance, so the
/// pattern is all it needs, and carrying it as an integer makes "copied
/// as-is" a statement about equality of integers.
#[derive(Clone, Copy, Debug, PartialEq, Eq, Structural)]
pub struct Balance {
    bits: u64,
}

impl View for Balance {
    type V = u64;

    closed spec fn view(&self) -> u64 {
        self.bits
    }
}

impl Balance {
    /// Wraps a binary64 bit pattern.
    pub fn from_bits(bits: u64) -> (balance: Balance)
        ensures
            balance@ == bits,
    {
        Balance { bits }
    }

    /// The binary64 bit pattern of this balance.
    pub fn to_bits(&self) -> (bits: u64)
        ensures
            bits == self@,
    {
        self.bits
    }
}

} // verus!
