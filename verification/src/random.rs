//! Deterministic pseudo-random sources: SHA-256 for reseeding and a
//! ChaCha20 stream, keyed by a 32-byte seed, for draws and shuffles.

use vstd::prelude::*;
use rand::seq::SliceRandom;
use rand::{RngCore, SeedableRng};
use rand_chacha::ChaCha20Rng;
use sha2::{Digest, Sha256};

verus! {

/// The SHA-256 digest of a byte string.
pub uninterp spec fn sha256_digest(data: Seq<u8>) -> Seq<u8>;

/// Trusted: `Sha256::digest` of the `sha2` crate returns the 32-byte
/// SHA-256 digest, which depends on the bytes alone.
#[verifier::external_body]
pub(crate) fn sha256(data: &Vec<u8>) -> (out: [u8; 32])
    ensures
        out@ == sha256_digest(data@),
{
    Sha256::digest(data).into()
}

/// The first 32-bit word of the ChaCha20 stream keyed by `key`.
pub uninterp spec fn chacha20_first_word(key: Seq<u8>) -> u32;

/// Trusted: a `ChaCha20Rng` of the `rand_chacha` crate, seeded with `key`
/// by `from_seed`, yields as its first `next_u32` a word that depends on
/// the key alone.
#[verifier::external_body]
pub(crate) fn chacha20_draw(key: &[u8; 32]) -> (word: u32)
    ensures
        word == chacha20_first_word(key@),
{
    let mut rng = ChaCha20Rng::from_seed(*key);
    rng.next_u32()
}

/// The order in which the `rand` crate's slice shuffle, driven by the
/// ChaCha20 stream keyed by `key`, leaves `items`.
pub uninterp spec fn chacha20_shuffled(key: Seq<u8>, items: Seq<u128>) -> Seq<u128>;

/// Trusted: `SliceRandom::shuffle` of the `rand` crate only swaps
/// elements of the slice, so what comes out is a rearrangement of what
/// went in; driven by a `ChaCha20Rng` freshly seeded with `key`, the
/// arrangement depends on the key and the items alone.
#[verifier::external_body]
pub(crate) fn chacha20_shuffle(key: &[u8; 32], items: Vec<u128>) -> (out: Vec<u128>)
    ensures
        out@ == chacha20_shuffled(key@, items@),
        out@.to_multiset() == items@.to_multiset(),
{
    let mut items = items;
    let mut rng = ChaCha20Rng::from_seed(*key);
    items.shuffle(&mut rng);
    items
}

/// A ChaCha20 stream, identified by the seed that keys it.
#[derive(Debug, Clone, Copy, PartialEq, Eq)]
pub struct RandomStream {
    pub key: [u8; 32],
}

impl RandomStream {
    /// The stream keyed by `key`.
    pub fn from_seed(key: [u8; 32]) -> (r: RandomStream)
        ensures
            r.key == key,
    {
        RandomStream { key }
    }

    /// The first 32-bit word of the stream.
    pub fn first_u32(&self) -> (word: u32)
        ensures
            word == chacha20_first_word(self.key@),
    {
        chacha20_draw(&self.key)
    }

    /// Rearranges `items` by a shuffle that consumes the stream from its
    /// start. The result holds exactly the items that went in.
    pub fn shuffle(&self, items: Vec<u128>) -> (out: Vec<u128>)
        ensures
            out@ == chacha20_shuffled(self.key@, items@),
            out@.to_multiset() == items@.to_multiset(),
            out@.len() == items@.len(),
    {
        let ghost before = items@;
        let out = chacha20_shuffle(&self.key, items);
        proof {
            before.to_multiset_ensures();
            out@.to_multiset_ensures();
        }
        out
    }
}

} // verus!
