//! Trusted bindings to the digest functions used for storage-key derivation,
//! and to the hex rendering of derived keys.
//!
//! Each digest is a pure function of its input bytes alone, so its value is
//! given a name (an uninterpreted spec function); the contracts below state
//! only what the bound crates' sources show: the digest widths, and that the
//! concatenating variants append the unmodified input after the digest.

use vstd::prelude::*;

verus! {

/// The 16-byte BLAKE2b digest of the data.
pub uninterp spec fn blake2_128_of(data: Seq<u8>) -> Seq<u8>;

/// The 32-byte BLAKE2b digest of the data.
pub uninterp spec fn blake2_256_of(data: Seq<u8>) -> Seq<u8>;

/// The 8-byte XX digest of the data.
pub uninterp spec fn twox64_of(data: Seq<u8>) -> Seq<u8>;

/// The 16-byte XX digest of the data.
pub uninterp spec fn twox128_of(data: Seq<u8>) -> Seq<u8>;

/// The 32-byte XX digest of the data.
pub uninterp spec fn twox256_of(data: Seq<u8>) -> Seq<u8>;

/// Relies on subhasher::blake2_128: a 16-byte BLAKE2b digest of the data alone.
#[verifier::external_body]
pub(crate) fn blake2_128(data: &[u8]) -> (r: Vec<u8>)
    ensures
        r@ == blake2_128_of(data@),
        r@.len() == 16,
{
    subhasher::blake2_128(data).to_vec()
}

/// Relies on subhasher::blake2_256: a 32-byte BLAKE2b digest of the data alone.
#[verifier::external_body]
pub(crate) fn blake2_256(data: &[u8]) -> (r: Vec<u8>)
    ensures
        r@ == blake2_256_of(data@),
        r@.len() == 32,
{
    subhasher::blake2_256(data).to_vec()
}

/// Relies on subhasher::blake2_128_concat: the 16-byte BLAKE2b digest of the
/// data, followed by the unmodified data.
#[verifier::external_body]
pub(crate) fn blake2_128_concat(data: &[u8]) -> (r: Vec<u8>)
    ensures
        r@ == blake2_128_of(data@) + data@,
        r@.len() == 16 + data@.len(),
{
    subhasher::blake2_128_concat(data)
}

/// Relies on subhasher::twox64_concat: the 8-byte XX digest of the data,
/// followed by the unmodified data.
#[verifier::external_body]
pub(crate) fn twox64_concat(data: &[u8]) -> (r: Vec<u8>)
    ensures
        r@ == twox64_of(data@) + data@,
        r@.len() == 8 + data@.len(),
{
    subhasher::twox64_concat(data)
}

/// Relies on subhasher::twox128: a 16-byte XX digest of the data alone.
#[verifier::external_body]
pub(crate) fn twox128(data: &[u8]) -> (r: Vec<u8>)
    ensures
        r@ == twox128_of(data@),
        r@.len() == 16,
{
    subhasher::twox128(data).to_vec()
}

/// Relies on subhasher::twox256: a 32-byte XX digest of the data alone.
#[verifier::external_body]
pub(crate) fn twox256(data: &[u8]) -> (r: Vec<u8>)
    ensures
        r@ == twox256_of(data@),
        r@.len() == 32,
{
    subhasher::twox256(data).to_vec()
}

/// The lowercase hex digit for a value below 16.
pub open spec fn hex_digit(n: u8) -> char {
    if n < 10 {
        (n + 48) as char
    } else {
        (n + 87) as char
    }
}

/// The lowercase hex rendering of a byte sequence, two digits per byte.
pub open spec fn hex_chars(bs: Seq<u8>) -> Seq<char>
    decreases bs.len(),
{
    if bs.len() == 0 {
        Seq::empty()
    } else {
        hex_chars(bs.drop_last()) + seq![
            hex_digit(bs.last() / 16),
            hex_digit(bs.last() % 16),
        ]
    }
}

/// Relies on array_bytes::Hexify::hexify_prefixed for byte slices: "0x"
/// followed by two lowercase hex digits per byte, in order.
#[verifier::external_body]
pub(crate) fn hexify_prefixed(bytes: &[u8]) -> (r: String)
    ensures
        r@ == seq!['0', 'x'] + hex_chars(bytes@),
{
    array_bytes::Hexify::hexify_prefixed(bytes)
}

} // verus!
