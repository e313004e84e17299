//! Plain values that stand for the chain's primitive types.

use vstd::prelude::*;

verus! {

/// A 20-byte account address.
#[derive(Clone, Copy, Debug, PartialEq, Eq)]
pub struct Address {
    pub bytes: [u8; 20],
}

impl View for Address {
    type V = Seq<u8>;

    open spec fn view(&self) -> Seq<u8> {
        self.bytes@
    }
}

impl Address {
    /// Whether every byte of the address is zero.
    pub open spec fn spec_is_zero(&self) -> bool {
        forall|i: int| 0 <= i < 20 ==> self.bytes[i] == 0u8
    }

    /// Builds an address from its 20 bytes.
    pub fn new(bytes: [u8; 20]) -> (a: Address)
        ensures
            a.bytes == bytes,
    {
        Address { bytes }
    }

    /// The zero address.
    pub fn zero() -> (a: Address)
        ensures
            a.spec_is_zero(),
    {
        Address { bytes: [0u8; 20] }
    }

    /// Tells whether this is the zero address.
    pub fn is_zero(&self) -> (r: bool)
        ensures
            r == self.spec_is_zero(),
    {
        let mut i: usize = 0;
        while i < 20
            invariant
                i <= 20,
                forall|j: int| 0 <= j < i ==> self.bytes[j] == 0u8,
            decreases 20 - i,
        {
            if self.bytes[i] != 0 {
                return false;
            }
            i = i + 1;
        }
        true
    }
}

/// A 32-byte transaction hash.
#[derive(Clone, Copy, Debug, PartialEq, Eq)]
pub struct TxHash {
    pub bytes: [u8; 32],
}

impl TxHash {
    /// Builds a hash from its 32 bytes.
    pub fn new(bytes: [u8; 32]) -> (h: TxHash)
        ensures
            h.bytes == bytes,
    {
        TxHash { bytes }
    }
}

/// An unsigned 256-bit number, held as four 64-bit limbs, least significant first.
#[derive(Clone, Copy, Debug, PartialEq, Eq)]
pub struct U256 {
    pub limbs: [u64; 4],
}

impl View for U256 {
    type V = nat;

    /// The number that the four limbs spell in base 2^64.
    open spec fn view(&self) -> nat {
        (self.limbs[0] as nat) + (self.limbs[1] as nat) * 0x1_0000_0000_0000_0000
            + (self.limbs[2] as nat) * 0x1_0000_0000_0000_0000_0000_0000_0000_0000
            + (self.limbs[3] as nat)
            * 0x1_0000_0000_0000_0000_0000_0000_0000_0000_0000_0000_0000_0000
    }
}

impl U256 {
    /// The number zero.
    pub fn zero() -> (n: U256)
        ensures
            n@ == 0,
    {
        U256 { limbs: [0u64; 4] }
    }

    /// Builds a number from its limbs, least significant first.
    pub fn from_limbs(limbs: [u64; 4]) -> (n: U256)
        ensures
            n.limbs == limbs,
    {
        U256 { limbs }
    }

    /// Tells whether the number is zero.
    pub fn is_zero(&self) -> (r: bool)
        ensures
            r == (self@ == 0),
    {
        self.limbs[0] == 0 && self.limbs[1] == 0 && self.limbs[2] == 0 && self.limbs[3] == 0
    }
}

impl From<u64> for U256 {
    fn from(value: u64) -> (n: U256) {
        U256 { limbs: [value, 0, 0, 0] }
    }
}

impl vstd::std_specs::convert::FromSpecImpl<u64> for U256 {
    open spec fn obeys_from_spec() -> bool {
        true
    }

    open spec fn from_spec(value: u64) -> U256 {
        U256 { limbs: [value, 0, 0, 0] }
    }
}

/// A number made from 64 bits has that value.
pub proof fn value_from_u64(value: u64)
    ensures
        <U256 as vstd::std_specs::convert::FromSpec<u64>>::from_spec(value)@ == value,
{
}

/// Where a transaction goes: to a new contract, or to an existing account.
#[derive(Clone, Copy, Debug, PartialEq, Eq)]
pub enum TxKind {
    /// The transaction creates a contract.
    Create,
    /// The transaction calls the account at this address.
    Call(Address),
}

} // verus!
