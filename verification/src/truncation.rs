use vstd::prelude::*;
use crate::algorithm::Algorithm;

verus! {

/// Where the four-byte window starts: the low four bits of the last byte.
pub open spec fn window_offset(digest: Seq<u8>) -> int
    recommends
        digest.len() > 0,
{
    digest.last() as int % 16
}

/// Whether the four-byte window lies inside the digest.
pub open spec fn window_fits(digest: Seq<u8>) -> bool {
    digest.len() >= 4 && window_offset(digest) + 4 <= digest.len()
}

/// The four bytes that truncation reads.
pub open spec fn window(digest: Seq<u8>) -> Seq<u8>
    recommends
        window_fits(digest),
{
    digest.subrange(window_offset(digest), window_offset(digest) + 4)
}

/// The number that four bytes spell, most significant byte first.
pub open spec fn be_value(b0: u8, b1: u8, b2: u8, b3: u8) -> int {
    b0 as int * 0x100_0000 + b1 as int * 0x1_0000 + b2 as int * 0x100 + b3 as int
}

/// The 31-bit value that dynamic truncation assigns to a digest.
pub open spec fn truncated(digest: Seq<u8>) -> int
    recommends
        window_fits(digest),
{
    let at = window_offset(digest);
    be_value(digest[at], digest[at + 1], digest[at + 2], digest[at + 3]) % 0x8000_0000
}

/// The four bytes that spell `value`, most significant byte first.
pub open spec fn be_bytes(value: int) -> Seq<u8> {
    seq![
        (value / 0x100_0000 % 0x100) as u8,
        (value / 0x1_0000 % 0x100) as u8,
        (value / 0x100 % 0x100) as u8,
        (value % 0x100) as u8,
    ]
}

/// Reads four bytes as a big-endian number and clears its top bit.
fn masked_be_u32(b0: u8, b1: u8, b2: u8, b3: u8) -> (p: u32)
    ensures
        p == be_value(b0, b1, b2, b3) % 0x8000_0000,
{
    let p: u32 = ((b0 as u32) << 24) | ((b1 as u32) << 16) | ((b2 as u32) << 8) | (b3 as u32);
    let masked: u32 = p & 0x7fff_ffff;
    assert(masked == (b0 as int * 0x100_0000 + b1 as int * 0x1_0000 + b2 as int * 0x100
        + b3 as int) % 0x8000_0000) by (bit_vector)
        requires
            masked == (((b0 as u32) << 24) | ((b1 as u32) << 16) | ((b2 as u32) << 8) | (
            b3 as u32)) & 0x7fff_ffff,
    ;
    masked
}

/// Dynamic truncation: the four bytes that start at the offset named by the
/// digest's last byte, read big-endian, with the top bit cleared.
pub fn dynamic_truncation(digest: &[u8]) -> (value: u32)
    requires
        window_fits(digest@),
    ensures
        value == truncated(digest@),
        value <= 0x7fff_ffff,
{
    let last: u8 = digest[digest.len() - 1];
    let low: u8 = last & 0x0f;
    assert(low == last % 16) by (bit_vector)
        requires
            low == last & 0x0f,
    ;
    let at: usize = low as usize;
    masked_be_u32(digest[at], digest[at + 1], digest[at + 2], digest[at + 3])
}

/// Dynamic truncation of any digest: `None` where the four-byte window would
/// reach past the digest's end.
pub fn checked_truncation(digest: &[u8]) -> (value: Option<u32>)
    ensures
        window_fits(digest@) ==> value == Some(truncated(digest@) as u32),
        !window_fits(digest@) ==> value.is_none(),
{
    let len: usize = digest.len();
    if len < 4 {
        return None;
    }
    let last: u8 = digest[len - 1];
    let low: u8 = last & 0x0f;
    assert(low == last % 16) by (bit_vector)
        requires
            low == last & 0x0f,
    ;
    if low as usize + 4 > len {
        return None;
    }
    Some(dynamic_truncation(digest))
}

/// The big-endian encoding of a 32-bit value.
pub fn to_be_bytes(value: u32) -> (bytes: [u8; 4])
    ensures
        bytes@ == be_bytes(value as int),
{
    let b0: u8 = (value >> 24) as u8;
    let b1: u8 = ((value >> 16) & 0xff) as u8;
    let b2: u8 = ((value >> 8) & 0xff) as u8;
    let b3: u8 = (value & 0xff) as u8;
    assert(b0 == (value as int / 0x100_0000 % 0x100) as u8 && b1 == (value as int / 0x1_0000 % 0x100) as u8
        && b2 == (value as int / 0x100 % 0x100) as u8 && b3 == (value as int % 0x100) as u8) by (bit_vector)
        requires
            b0 == (value >> 24) as u8,
            b1 == ((value >> 16) & 0xff) as u8,
            b2 == ((value >> 8) & 0xff) as u8,
            b3 == (value & 0xff) as u8,
    ;
    let bytes: [u8; 4] = [b0, b1, b2, b3];
    assert(bytes@ =~= be_bytes(value as int));
    bytes
}

/// A digest of nineteen bytes or more always holds its window: the offset
/// is at most fifteen. Every digest of HMAC-SHA1, HMAC-SHA256 and HMAC-SHA512
/// is that long.
pub proof fn lemma_long_digest_fits(digest: Seq<u8>)
    requires
        digest.len() >= 19,
    ensures
        window_fits(digest),
        0 <= window_offset(digest) <= 15,
{
}

/// Whatever the algorithm, a digest of its length holds its window.
pub proof fn lemma_digest_of_algorithm_fits(algorithm: Algorithm, digest: Seq<u8>)
    requires
        digest.len() == algorithm.digest_size(),
    ensures
        window_fits(digest),
{
}

/// The truncated value has its top bit clear: it lies between 0 and 2^31 - 1.
pub proof fn lemma_truncated_range(digest: Seq<u8>)
    requires
        window_fits(digest),
    ensures
        0 <= truncated(digest) <= 0x7fff_ffff,
{
}

/// The truncated value is a function of the digest's bytes and of nothing
/// else; of those, it reads the four bytes of the window. Two digests with
/// the same window have the same value, wherever the window lies in each.
pub proof fn lemma_truncated_reads_window(a: Seq<u8>, b: Seq<u8>)
    requires
        window_fits(a),
        window_fits(b),
        window(a) == window(b),
    ensures
        truncated(a) == truncated(b),
{
    let wa = window(a);
    let wb = window(b);
    assert(a[window_offset(a)] == wa[0] && b[window_offset(b)] == wb[0]);
    assert(a[window_offset(a) + 1] == wa[1] && b[window_offset(b) + 1] == wb[1]);
    assert(a[window_offset(a) + 2] == wa[2] && b[window_offset(b) + 2] == wb[2]);
    assert(a[window_offset(a) + 3] == wa[3] && b[window_offset(b) + 3] == wb[3]);
}

/// The four bytes of the encoding spell the value they encode.
pub proof fn lemma_be_bytes_spell(value: int)
    requires
        0 <= value < 0x1_0000_0000,
    ensures
        be_bytes(value).len() == 4,
        be_value(be_bytes(value)[0], be_bytes(value)[1], be_bytes(value)[2], be_bytes(value)[3])
            == value,
{
}

} // verus!
