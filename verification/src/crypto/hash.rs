//! Hash functions with 256-bit output: SHA-256 and BLAKE2b-256.

use vstd::prelude::*;
use vstd::slice::slice_to_vec;
use crate::crypto::random::array32;
use crate::crypto::traits::Hasher;

verus! {

/// The SHA-256 digest of `data`, as the `sha2` crate computes it.
pub uninterp spec fn sha256_digest(data: Seq<u8>) -> Seq<u8>;

/// The BLAKE2b digest of `data` with 32 bytes of output, as the `blake2`
/// crate computes it.
pub uninterp spec fn blake2b256_digest(data: Seq<u8>) -> Seq<u8>;

/// Calls `Sha256::digest` of the `sha2` crate. The result is the SHA-256
/// digest of the data, 32 bytes long.
#[verifier::external_body]
fn sha256_raw(data: &[u8]) -> (r: [u8; 32])
    ensures
        r@ == sha256_digest(data@),
{
    <sha2::Sha256 as sha2::Digest>::digest(data).into()
}

/// Calls `Blake2b::<U32>::digest` of the `blake2` crate. The result is
/// the BLAKE2b digest of the data, 32 bytes long.
#[verifier::external_body]
fn blake2b256_raw(data: &[u8]) -> (r: [u8; 32])
    ensures
        r@ == blake2b256_digest(data@),
{
    <blake2::Blake2b<blake2::digest::consts::U32> as blake2::Digest>::digest(data).into()
}

/// SHA-256 hasher.
#[derive(Clone, Copy, Debug)]
pub struct Sha256Hasher;

impl Hasher for Sha256Hasher {
    open spec fn digest(&self, data: Seq<u8>) -> Seq<u8> {
        sha256_digest(data)
    }

    fn hash(&self, data: &[u8]) -> (r: Vec<u8>)
        ensures
            r@.len() == 32,
    {
        let d = sha256_raw(data);
        slice_to_vec(d.as_slice())
    }
}

/// BLAKE2b-256 hasher.
#[derive(Clone, Copy, Debug)]
pub struct Blake2b256Hasher;

impl Hasher for Blake2b256Hasher {
    open spec fn digest(&self, data: Seq<u8>) -> Seq<u8> {
        blake2b256_digest(data)
    }

    fn hash(&self, data: &[u8]) -> (r: Vec<u8>)
        ensures
            r@.len() == 32,
    {
        let d = blake2b256_raw(data);
        slice_to_vec(d.as_slice())
    }
}

/// SHA-256 of `data` as a 32-byte array.
pub fn sha256(data: &[u8]) -> (r: [u8; 32])
    ensures
        r@ == sha256_digest(data@),
{
    let digest = Sha256Hasher.hash(data);
    let r = array32(digest.as_slice());
    assert(digest@.subrange(0, 32) =~= digest@);
    r
}

/// BLAKE2b-256 of `data` as a 32-byte array.
pub fn blake2b256(data: &[u8]) -> (r: [u8; 32])
    ensures
        r@ == blake2b256_digest(data@),
{
    let digest = Blake2b256Hasher.hash(data);
    let r = array32(digest.as_slice());
    assert(digest@.subrange(0, 32) =~= digest@);
    r
}

} // verus!
