//! Content hash of application bundles.
//!
//! The install/update lifecycle detects whether a bundle has changed by
//! comparing a deterministic digest of its bytes against the digest recorded
//! in the installed-app index. The digest is a 64-bit
//! Fowler-Noll-Vo fold over the bundle's bytes, defined exactly by
//! [`content_hash_spec`], so that everything the lifecycle claims about hash
//! equality is a theorem about this definition.

use vstd::prelude::*;

verus! {

/// Offset basis of the 64-bit fold.
pub const HASH_BASIS: u64 = 0xcbf29ce484222325;

/// Multiplicative constant of the 64-bit fold.
pub const HASH_PRIME: u64 = 0x100000001b3;

/// One step of the fold: mix a byte into the running hash.
pub open spec fn hash_step(h: u64, b: u8) -> u64 {
    vstd::wrapping::u64_specs::wrapping_mul(h ^ (b as u64), HASH_PRIME)
}

/// The digest of a byte sequence: the fold of [`hash_step`] over the bytes,
/// starting from [`HASH_BASIS`].
pub open spec fn content_hash_spec(bytes: Seq<u8>) -> u64
    decreases bytes.len(),
{
    if bytes.len() == 0 {
        HASH_BASIS
    } else {
        hash_step(content_hash_spec(bytes.drop_last()), bytes.last())
    }
}

/// Computes the content digest of a bundle's bytes.
pub fn content_hash(bytes: &Vec<u8>) -> (h: u64)
    ensures
        h == content_hash_spec(bytes@),
{
    let mut h: u64 = HASH_BASIS;
    let mut i: usize = 0;
    while i < bytes.len()
        invariant
            i <= bytes.len(),
            h == content_hash_spec(bytes@.take(i as int)),
        decreases bytes.len() - i,
    {
        let b = bytes[i];
        h = (h ^ (b as u64)).wrapping_mul(HASH_PRIME);
        i = i + 1;
        proof {
            assert(bytes@.take(i as int).drop_last() =~= bytes@.take(i - 1));
            assert(bytes@.take(i as int).last() == b);
        }
    }
    proof {
        assert(bytes@.take(bytes@.len() as int) =~= bytes@);
    }
    h
}

} // verus!
