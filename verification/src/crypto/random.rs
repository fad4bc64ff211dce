//! Random bytes from the operating system.

use vstd::prelude::*;
use crate::crypto::error::CryptoError;
use crate::crypto::traits::Randomness;

verus! {

/// Fills a fresh buffer of `len` bytes from the operating system's
/// entropy source, with `OsRng::try_fill_bytes`. `None` reports that the
/// source failed. Of the bytes only their number is known.
#[verifier::external_body]
pub(crate) fn os_random(len: usize) -> (r: Option<Vec<u8>>)
    ensures
        r matches Some(bytes) ==> bytes@.len() == len,
{
    let mut buf = vec![0u8; len];
    rand::RngCore::try_fill_bytes(&mut rand::rngs::OsRng, &mut buf).ok().map(|_| buf)
}

/// Copies the first 32 bytes of a slice into an array.
pub(crate) fn array32(bytes: &[u8]) -> (r: [u8; 32])
    requires
        bytes@.len() >= 32,
    ensures
        r@ == bytes@.subrange(0, 32),
{
    let mut out: [u8; 32] = [0u8; 32];
    let mut i: usize = 0;
    while i < 32
        invariant
            i <= 32,
            bytes@.len() >= 32,
            forall|j: int| 0 <= j < i ==> out@[j] == bytes@[j],
        decreases 32 - i,
    {
        out[i] = bytes[i];
        i = i + 1;
    }
    assert(out@ =~= bytes@.subrange(0, 32));
    out
}

/// `len` cryptographically secure random bytes, or the failure of the
/// entropy source.
pub fn bytes(len: usize) -> (r: Result<Vec<u8>, CryptoError>)
    ensures
        match r {
            Ok(buf) => buf@.len() == len,
            Err(e) => e is RandomnessFailure,
        },
{
    match os_random(len) {
        Some(buf) => Ok(buf),
        None => Err(CryptoError::RandomnessFailure),
    }
}

/// The operating system's entropy source.
#[derive(Clone, Copy, Debug)]
pub struct SystemRandomness;

impl Randomness for SystemRandomness {
    /// A draw yields `len` bytes of the operating system's choosing, or
    /// the error that says the entropy source failed.
    open spec fn draws(
        &self,
        len: usize,
        after: &Self,
        outcome: Result<Seq<u8>, CryptoError>,
    ) -> bool {
        match outcome {
            Ok(bytes) => bytes.len() == len,
            Err(e) => e is RandomnessFailure,
        }
    }

    /// Whether the draw succeeds is for the entropy source to decide; a
    /// failure is reported as a randomness failure.
    fn fill_bytes(&mut self, len: usize) -> (r: Result<Vec<u8>, CryptoError>)
        ensures
            match r {
                Ok(buf) => buf@.len() == len,
                Err(e) => e is RandomnessFailure,
            },
    {
        bytes(len)
    }
}

} // verus!
