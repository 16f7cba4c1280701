//! Hashing, comparison and wiping primitives taken from outside crates.
use vstd::prelude::*;
use sha3::Digest;
use zeroize::Zeroize;

verus! {

/// The 32-byte BLAKE3 digest of a byte string.
pub uninterp spec fn blake3_of(data: Seq<u8>) -> Seq<u8>;

/// The 32-byte SHA3-256 digest of a byte string.
pub uninterp spec fn sha3_256_of(data: Seq<u8>) -> Seq<u8>;

/// Relies on blake3::hash: the 32-byte BLAKE3 digest of the input, a
/// function of the input alone.
#[verifier::external_body]
pub(crate) fn blake3_digest(data: &[u8]) -> (r: [u8; 32])
    ensures
        r@ == blake3_of(data@),
{
    *blake3::hash(data).as_bytes()
}

/// Relies on sha3::Sha3_256::digest: the 32-byte SHA3-256 digest of the
/// input, a function of the input alone.
#[verifier::external_body]
pub(crate) fn sha3_256_digest(data: &[u8]) -> (r: [u8; 32])
    ensures
        r@ == sha3_256_of(data@),
{
    sha3::Sha3_256::digest(data).into()
}

/// Relies on constant_time_eq::constant_time_eq: true exactly when both byte
/// strings have the same length and the same bytes.
#[verifier::external_body]
pub(crate) fn ct_eq(a: &[u8], b: &[u8]) -> (r: bool)
    ensures
        r == (a@ == b@),
{
    constant_time_eq::constant_time_eq(a, b)
}

/// Relies on zeroize's `Zeroize` for `[u8; N]`: every byte is overwritten
/// with zero through volatile writes.
#[verifier::external_body]
pub(crate) fn wipe_bytes<const N: usize>(buf: &mut [u8; N])
    ensures
        final(buf)@ == Seq::new(N as nat, |i: int| 0u8),
{
    buf.zeroize()
}

} // verus!
