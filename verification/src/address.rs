//! Account and contract addresses as plain values.

use vstd::prelude::*;

verus! {

/// A Stellar address: a 32-byte key, split into two big-endian halves, and
/// whether it names a contract (`true`) or an account (`false`).
#[derive(Clone, Copy, Debug, PartialEq, Eq, Structural)]
pub struct Address {
    pub contract: bool,
    pub key_hi: u128,
    pub key_lo: u128,
}

impl View for Address {
    type V = Address;

    open spec fn view(&self) -> Address {
        *self
    }
}

impl Address {
    /// An account address built from the two halves of its key.
    pub fn account(key_hi: u128, key_lo: u128) -> (a: Address)
        ensures
            a == (Address { contract: false, key_hi, key_lo }),
    {
        Address { contract: false, key_hi, key_lo }
    }

    /// Whether every byte of the key is zero.
    pub open spec fn spec_is_zero(&self) -> bool {
        self.key_hi == 0 && self.key_lo == 0
    }

    /// Whether every byte of the key is zero.
    pub fn is_zero(&self) -> (b: bool)
        ensures
            b == self.spec_is_zero(),
    {
        self.key_hi == 0 && self.key_lo == 0
    }

    /// Equality of two addresses.
    pub fn same(&self, other: &Address) -> (b: bool)
        ensures
            b == (*self == *other),
    {
        self.contract == other.contract && self.key_hi == other.key_hi && self.key_lo == other.key_lo
    }
}

} // verus!
