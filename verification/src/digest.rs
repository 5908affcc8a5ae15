//! SHA-256 digests, computed by the `ring` cryptography crate.
//!
//! The digest value itself is named, not restated: `sha256_of` stands for
//! whatever `ring` computes, a function of the input bytes alone, and every
//! contract here speaks of that name.

use vstd::prelude::*;

verus! {

/// The SHA-256 digest of the bytes, as `ring` computes it: a function of
/// the input alone.
pub uninterp spec fn sha256_of(data: Seq<u8>) -> Seq<u8>;

/// The longest input SHA-256 is defined for: its bit length must fit in a
/// 64-bit word, so at most `2^61 - 1` bytes.
pub const MAX_DIGEST_INPUT_LEN: u64 = 0x1fffffffffffffff;

/// A computed digest.
pub struct Digest {
    /// The digest bytes.
    pub bytes: Vec<u8>,
}

impl Digest {
    /// The digest bytes.
    pub fn as_bytes(&self) -> (r: &Vec<u8>)
        ensures
            r@ == self.bytes@,
    {
        &self.bytes
    }
}

/// Relies on ring::digest::digest with SHA256: the digest is 32 bytes and
/// depends on the input bytes alone. The call is only defined (and
/// panic-free) while the input's bit length fits in 64 bits, so inputs
/// beyond that are excluded.
#[verifier::external_body]
fn sha256_ring(data: &[u8]) -> (r: Vec<u8>)
    requires
        data@.len() <= MAX_DIGEST_INPUT_LEN,
    ensures
        r@ == sha256_of(data@),
        r@.len() == 32,
{
    ring::digest::digest(&ring::digest::SHA256, data).as_ref().to_vec()
}

/// Single-step sha256 digest computation.
pub fn sha256(data: &[u8]) -> (r: Digest)
    requires
        data@.len() <= MAX_DIGEST_INPUT_LEN,
    ensures
        r.bytes@ == sha256_of(data@),
        r.bytes@.len() == 32,
{
    Digest { bytes: sha256_ring(data) }
}

/// Incremental sha256 computation: feeds chunks and digests their
/// concatenation.
pub struct Sha256 {
    /// The bytes fed so far.
    pub data: Vec<u8>,
}

impl Sha256 {
    /// An empty computation.
    pub fn new() -> (r: Sha256)
        ensures
            r.data@ == Seq::<u8>::empty(),
    {
        Sha256 { data: Vec::new() }
    }

    /// Feeds a chunk.
    pub fn update(&mut self, data: &[u8])
        ensures
            final(self).data@ == old(self).data@ + data@,
    {
        let mut i: usize = 0;
        while i < data.len()
            invariant
                i <= data@.len(),
                self.data@ == old(self).data@ + data@.subrange(0, i as int),
            decreases data@.len() - i,
        {
            self.data.push(data[i]);
            proof {
                assert(self.data@ =~= old(self).data@ + data@.subrange(0, i as int + 1));
            }
            i += 1;
        }
        proof {
            assert(data@.subrange(0, data@.len() as int) == data@);
        }
    }

    /// The digest of everything fed so far.
    pub fn finish(self) -> (r: Digest)
        requires
            self.data@.len() <= MAX_DIGEST_INPUT_LEN,
        ensures
            r.bytes@ == sha256_of(self.data@),
            r.bytes@.len() == 32,
    {
        sha256(self.data.as_slice())
    }
}

} // verus!
