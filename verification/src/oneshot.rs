//! One-shot convenience hashing: pure composition of construction in plain
//! mode, a single update, and a digest. No state of its own.

use vstd::prelude::*;
use crate::hasher::Blake3Hash;
use crate::model::{ModeSpec, digest_spec, DIGEST_LEN};

verus! {

/// The fixed-length hash of `data` in plain mode: the first 32 bytes of
/// the extendable output of `data`.
pub fn hash(data: &[u8]) -> (r: Vec<u8>)
    ensures
        r@ == digest_spec(ModeSpec::Plain, data@, DIGEST_LEN as nat),
        r@.len() == DIGEST_LEN,
{
    let mut hasher = Blake3Hash::new();
    hasher.update(data);
    proof {
        assert(Seq::<u8>::empty() + data@ =~= data@);
    }
    hasher.digest_fixed()
}

/// Exactly `length` bytes of extendable output for `data` in plain mode.
/// For any two lengths, the shorter result is a prefix of the longer one.
pub fn hash_xof(data: &[u8], length: usize) -> (r: Vec<u8>)
    ensures
        r@ == digest_spec(ModeSpec::Plain, data@, length as nat),
        r@.len() == length,
{
    let mut hasher = Blake3Hash::new();
    hasher.update(data);
    proof {
        assert(Seq::<u8>::empty() + data@ =~= data@);
    }
    hasher.digest(length)
}

} // verus!
