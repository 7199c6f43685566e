use vstd::prelude::*;

verus! {

/// `heapless_bytes::Bytes`, a byte string of bounded length kept in place.
#[verifier::external_type_specification]
#[verifier::external_body]
pub struct ExBytes<const N: usize>(heapless_bytes::Bytes<N>);

/// The most bytes a label or a secret may have.
pub const SHORT_DATA_CAPACITY: usize = 128;

/// A byte string of at most `SHORT_DATA_CAPACITY` bytes.
pub type ShortData = heapless_bytes::Bytes<128>;

/// The bytes that a `ShortData` holds, in order.
pub uninterp spec fn short_data_bytes(data: heapless_bytes::Bytes<128>) -> Seq<u8>;

/// `Clone::clone` of `heapless_bytes::Bytes`. Nothing is claimed of the copy.
pub assume_specification<const N: usize>[ <heapless_bytes::Bytes<N> as Clone>::clone ](
    data: &heapless_bytes::Bytes<N>,
) -> heapless_bytes::Bytes<N>;

/// `heapless_bytes::Bytes::from_slice` at capacity 128: a copy of the slice
/// where it fits, that is where it has at most 128 bytes, and an error
/// otherwise.
#[verifier::external_body]
pub(crate) fn short_data_from_slice(slice: &[u8]) -> (result: Result<ShortData, ()>)
    ensures
        result is Ok <==> slice@.len() <= SHORT_DATA_CAPACITY,
        result matches Ok(data) ==> short_data_bytes(data) == slice@,
{
    heapless_bytes::Bytes::<128>::from_slice(slice)
}

} // verus!
