//! Identity and identifier value types.
//!
//! A `Address` stands for an authenticated principal: the core never
//! inspects one beyond equality, so it carries a single opaque numeric id.
//! A `Bytes32` stands for a 32-byte opaque value (a request id, an external
//! reference hash, a settlement reference), held as two 128-bit halves so
//! that equality is plain field equality.
use vstd::prelude::*;

verus! {

/// An authenticated principal (admin, operator, merchant, backend, owner,
/// or a plain recipient). Opaque: only compared for equality.
#[derive(Clone, Copy, Debug, PartialEq, Eq, Structural, Hash)]
pub struct Address {
    pub id: u64,
}

impl Address {
    pub fn new(id: u64) -> (r: Address)
        ensures
            r.id == id,
    {
        Address { id }
    }
}

/// A 32-byte opaque identifier, held as two 128-bit halves.
/// Used for request ids, reference hashes and settlement references;
/// the core only compares such values for equality.
#[derive(Clone, Copy, Debug, PartialEq, Eq, Structural, Hash)]
pub struct Bytes32 {
    pub lo: u128,
    pub hi: u128,
}

impl Bytes32 {
    pub fn new(lo: u128, hi: u128) -> (r: Bytes32)
        ensures
            r.lo == lo,
            r.hi == hi,
    {
        Bytes32 { lo, hi }
    }

    /// The identifier whose 32 bytes all hold the same value, handy in tests.
    pub fn splat(byte: u8) -> (r: Bytes32)
        ensures
            r == Bytes32::splat_spec(byte),
    {
        let half = Bytes32::half_of(byte);
        Bytes32 { lo: half, hi: half }
    }

    pub open spec fn splat_spec(byte: u8) -> Bytes32 {
        Bytes32 { lo: Bytes32::half_spec(byte), hi: Bytes32::half_spec(byte) }
    }

    /// Sixteen copies of `byte`, one per byte of a 128-bit half.
    pub open spec fn half_spec(byte: u8) -> u128 {
        ((byte as u128) * 0x01010101010101010101010101010101u128) as u128
    }

    fn half_of(byte: u8) -> (r: u128)
        ensures
            r == Bytes32::half_spec(byte),
    {
        (byte as u128) * 0x01010101010101010101010101010101u128
    }
}

} // verus!
