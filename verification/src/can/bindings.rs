//! What this library takes on trust from the crates it calls.
//!
//! Nothing in this file is proved. Each item states, of one function or type
//! of `embedded_can`, `bit_field` or `heapless`, what the rest of the library
//! relies on.

use bit_field::BitField;
use embedded_can::{ExtendedId, Id, StandardId};
use vstd::prelude::*;

verus! {

/// `embedded_can::StandardId`, an 11-bit identifier. The library never looks
/// inside one.
#[verifier::external_type_specification]
#[verifier::external_body]
pub struct ExStandardId(StandardId);

/// `embedded_can::ExtendedId`, a 29-bit identifier. Its contents are known
/// only as `extended_raw`.
#[verifier::external_type_specification]
#[verifier::external_body]
pub struct ExExtendedId(ExtendedId);

/// `embedded_can::Id`: an enum of two variants, `Standard` holding a
/// `StandardId` and `Extended` holding an `ExtendedId`. It is declared with
/// its variants, which are read from the crate itself, so that the library
/// can match on it and nothing is assumed of which variant a value is.
#[verifier::external_type_specification]
pub struct ExId(Id);

/// `heapless::Vec`, a vector of at most `N` items held in place.
#[verifier::external_type_specification]
#[verifier::external_body]
#[verifier::reject_recursive_types(T)]
pub struct ExHeaplessVec<T, const N: usize>(heapless::Vec<T, N>);

/// The number an extended identifier holds: what `ExtendedId::as_raw` returns.
pub uninterp spec fn extended_raw(id: ExtendedId) -> u32;

/// The bytes an eight-byte `heapless::Vec` holds, first to last.
pub uninterp spec fn payload_bytes(payload: heapless::Vec<u8, 8>) -> Seq<u8>;

/// `ExtendedId::as_raw` hands back the number the identifier holds.
pub assume_specification[ ExtendedId::as_raw ](id: &ExtendedId) -> (raw: u32)
    ensures
        raw == extended_raw(*id),
;

/// `ExtendedId::new` accepts exactly the numbers of at most 29 bits, and the
/// identifier it makes holds the number given.
pub assume_specification[ ExtendedId::new ](raw: u32) -> (id: Option<ExtendedId>)
    ensures
        raw <= 0x1FFF_FFFF ==> id.is_some() && extended_raw(id.unwrap()) == raw,
        raw > 0x1FFF_FFFF ==> id.is_none(),
;

/// Bits `low ..= high` of `raw`, moved down to bit 0: the bits above `high`
/// are shifted out at the top, then the bits below `low` at the bottom.
pub open spec fn bit_range(raw: u32, low: u32, high: u32) -> u32 {
    ((raw << ((31 - high) as u32)) >> ((31 - high) as u32)) >> low
}

/// `BitField::get_bits` on a `u32` with the inclusive range `low ..= high`.
/// It panics on a range that leaves the 32 bits or is empty, so those are
/// left out; on the others it returns the bits of the range, moved down.
#[verifier::external_body]
pub(crate) fn get_bits(raw: u32, low: u32, high: u32) -> (bits: u32)
    requires
        low <= high < 32,
    ensures
        bits == bit_range(raw, low, high),
{
    raw.get_bits(low as usize..=high as usize)
}

/// `heapless::Vec::new` makes a vector that holds nothing.
#[verifier::external_body]
pub(crate) fn payload_new() -> (payload: heapless::Vec<u8, 8>)
    ensures
        payload_bytes(payload) == Seq::<u8>::empty(),
{
    heapless::Vec::new()
}

/// `heapless::Vec::from_iter` over the bytes of a slice. It panics when the
/// items do not fit, so longer slices are left out; otherwise the vector holds
/// the items in the order they came.
#[verifier::external_body]
pub(crate) fn payload_from(bytes: &[u8]) -> (payload: heapless::Vec<u8, 8>)
    requires
        bytes@.len() <= 8,
    ensures
        payload_bytes(payload) == bytes@,
{
    heapless::Vec::from_iter(bytes.iter().copied())
}

} // verus!
