//! Addresses as they cross the boundary to the engine.

use vstd::prelude::*;

verus! {

/// The address of something the engine owns, as a plain number.
///
/// Address zero is null: the engine's uniform answer for "no value was
/// produced" (a failed lookup, a failed compile, a pending exception).
#[derive(Clone, Copy, PartialEq, Eq, Structural, Debug)]
pub struct Address(pub usize);

impl Address {
    /// The null address.
    pub open spec fn spec_null() -> Address {
        Address(0)
    }

    /// Whether this is the null address.
    pub open spec fn spec_is_null(self) -> bool {
        self.0 == 0
    }

    /// The address with the given numeric value.
    pub fn new(raw: usize) -> (a: Address)
        ensures
            a == Address(raw),
    {
        Address(raw)
    }

    /// The null address.
    #[verifier::when_used_as_spec(spec_null)]
    pub fn null() -> (a: Address)
        ensures
            a == Address::spec_null(),
    {
        Address(0)
    }

    /// Whether this is the null address.
    #[verifier::when_used_as_spec(spec_is_null)]
    pub fn is_null(self) -> (b: bool)
        ensures
            b == self.spec_is_null(),
    {
        self.0 == 0
    }

    /// The numeric value of the address.
    pub fn raw(self) -> (raw: usize)
        ensures
            raw == self.0,
    {
        self.0
    }
}

/// How often `address` occurs in `addresses`.
pub open spec fn occurrences(addresses: Seq<Address>, address: Address) -> nat
    decreases addresses.len(),
{
    if addresses.len() == 0 {
        0
    } else {
        occurrences(addresses.drop_last(), address) + if addresses.last() == address {
            1nat
        } else {
            0nat
        }
    }
}

} // verus!
