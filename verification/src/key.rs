//! The keys of a store.

use vstd::prelude::*;

verus! {

/// A universally unique identifier: the key of an entry.
#[derive(Copy, Clone, Debug, PartialEq, Eq, Hash, Structural)]
pub struct Uuid {
    pub bits: u128,
}

/// Whether `bits` carry the version number 4 and the variant of RFC 9562, as every randomly
/// generated identifier does.
pub open spec fn is_random_uuid(bits: u128) -> bool {
    &&& (bits >> 76) & 0xf == 4
    &&& (bits >> 62) & 0x3 == 2
}

impl Uuid {
    /// The identifier with the given 128 bits, the most significant first.
    pub fn from_u128(bits: u128) -> (key: Self)
        ensures
            key.bits == bits,
    {
        Uuid { bits }
    }

    /// The 128 bits of the identifier.
    pub fn as_u128(&self) -> (bits: u128)
        ensures
            bits == self.bits,
    {
        self.bits
    }

    /// Whether the identifier can have been drawn from the source of random ones.
    pub closed spec fn is_drawn(self) -> bool {
        call_ensures(random_uuid, (), self.bits)
    }

    /// Generates a random identifier. That it was not generated before is left to chance.
    pub fn new_v4() -> (key: Self)
        ensures
            key.is_drawn(),
            is_random_uuid(key.bits),
    {
        Uuid { bits: random_uuid() }
    }
}

/// `uuid::Uuid::new_v4`, read as a number by `as_u128`. All but six bits are random; the
/// contract claims those six, the version and the variant, which the call sets in every
/// identifier it makes.
#[verifier::external_body]
fn random_uuid() -> (bits: u128)
    ensures
        is_random_uuid(bits),
{
    uuid::Uuid::new_v4().as_u128()
}

} // verus!
