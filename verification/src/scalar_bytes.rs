use vstd::prelude::*;

use crate::traits::ScalarPrimitive;
use crate::util::slice_as_array;

verus! {

/// The number that `bytes` encode with the least significant byte first.
pub open spec fn little_endian_value(bytes: Seq<u8>) -> nat
    decreases bytes.len(),
{
    if bytes.len() == 0 {
        0
    } else {
        (bytes[0] + 256 * little_endian_value(bytes.drop_first())) as nat
    }
}

/// The number that `bytes` encode with the most significant byte first.
pub open spec fn big_endian_value(bytes: Seq<u8>) -> nat {
    little_endian_value(bytes.reverse())
}

/// `value` is what `bytes` encode in one of the two byte orders a machine can have.
pub open spec fn native_endian_value(bytes: Seq<u8>, value: nat) -> bool {
    value == little_endian_value(bytes) || value == big_endian_value(bytes)
}

/// A scalar that can be read from its memory representation.
pub trait ScalarFromBytes: ScalarPrimitive {
    /// The number of bytes of the scalar.
    spec fn spec_size() -> nat;

    /// `value` is what `bytes` encode in the machine's byte order.
    spec fn spec_decodes(bytes: Seq<u8>, value: Self) -> bool;

    /// The number of bytes of the scalar.
    fn size() -> (size: usize)
        ensures
            size == Self::spec_size(),
            size > 0,
    ;

    /// The scalar whose memory representation, in the machine's byte order, is `bytes`.
    fn from_ne_bytes(bytes: &[u8]) -> (value: Self)
        requires
            bytes@.len() == Self::spec_size(),
        ensures
            Self::spec_decodes(bytes@, value),
    ;
}

/// Calls `<u8 as num_traits::FromBytes>::from_ne_bytes`; the contract claims that a single byte is its own value.
#[verifier::external_body]
fn u8_from_ne_bytes(bytes: &[u8; 1]) -> (value: u8)
    ensures
        value == bytes@[0],
{
    <u8 as num_traits::FromBytes>::from_ne_bytes(bytes)
}

/// Calls `<u16 as num_traits::FromBytes>::from_ne_bytes`; the contract claims that the result is what the bytes encode in one of the two byte orders (which one depends on the machine).
#[verifier::external_body]
fn u16_from_ne_bytes(bytes: &[u8; 2]) -> (value: u16)
    ensures
        native_endian_value(bytes@, value as nat),
{
    <u16 as num_traits::FromBytes>::from_ne_bytes(bytes)
}

/// Calls `<u32 as num_traits::FromBytes>::from_ne_bytes`; the contract claims that the result is what the bytes encode in one of the two byte orders (which one depends on the machine).
#[verifier::external_body]
fn u32_from_ne_bytes(bytes: &[u8; 4]) -> (value: u32)
    ensures
        native_endian_value(bytes@, value as nat),
{
    <u32 as num_traits::FromBytes>::from_ne_bytes(bytes)
}

/// Calls `<u64 as num_traits::FromBytes>::from_ne_bytes`; the contract claims that the result is what the bytes encode in one of the two byte orders (which one depends on the machine).
#[verifier::external_body]
fn u64_from_ne_bytes(bytes: &[u8; 8]) -> (value: u64)
    ensures
        native_endian_value(bytes@, value as nat),
{
    <u64 as num_traits::FromBytes>::from_ne_bytes(bytes)
}

impl ScalarFromBytes for u8 {
    open spec fn spec_size() -> nat {
        1
    }

    open spec fn spec_decodes(bytes: Seq<u8>, value: Self) -> bool {
        value == bytes[0]
    }

    fn size() -> (size: usize) {
        1
    }

    fn from_ne_bytes(bytes: &[u8]) -> (value: Self) {
        u8_from_ne_bytes(slice_as_array(bytes))
    }
}

impl ScalarFromBytes for u16 {
    open spec fn spec_size() -> nat {
        2
    }

    open spec fn spec_decodes(bytes: Seq<u8>, value: Self) -> bool {
        native_endian_value(bytes, value as nat)
    }

    fn size() -> (size: usize) {
        2
    }

    fn from_ne_bytes(bytes: &[u8]) -> (value: Self) {
        u16_from_ne_bytes(slice_as_array(bytes))
    }
}

impl ScalarFromBytes for u32 {
    open spec fn spec_size() -> nat {
        4
    }

    open spec fn spec_decodes(bytes: Seq<u8>, value: Self) -> bool {
        native_endian_value(bytes, value as nat)
    }

    fn size() -> (size: usize) {
        4
    }

    fn from_ne_bytes(bytes: &[u8]) -> (value: Self) {
        u32_from_ne_bytes(slice_as_array(bytes))
    }
}

impl ScalarFromBytes for u64 {
    open spec fn spec_size() -> nat {
        8
    }

    open spec fn spec_decodes(bytes: Seq<u8>, value: Self) -> bool {
        native_endian_value(bytes, value as nat)
    }

    fn size() -> (size: usize) {
        8
    }

    fn from_ne_bytes(bytes: &[u8]) -> (value: Self) {
        u64_from_ne_bytes(slice_as_array(bytes))
    }
}

} // verus!
