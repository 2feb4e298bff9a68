//! Laws of the facade, stated over the model that the executable
//! functions' contracts use: determinism, extendable-output consistency,
//! seek correctness, fill concatenation, and update associativity.

use vstd::prelude::*;
use crate::model::{ModeSpec, digest_spec, xof_bytes};

verus! {

/// Determinism: for one mode and one accumulated input, any two digests of
/// the same length are identical.
pub proof fn lemma_determinism(m: ModeSpec, b: Seq<u8>, len: nat, r1: Seq<u8>, r2: Seq<u8>)
    requires
        r1 == digest_spec(m, b, len),
        r2 == digest_spec(m, b, len),
    ensures
        r1 == r2,
{
}

/// Extendable-output consistency: for lengths `k <= l`, the first `k`
/// bytes of a digest of length `l` are the digest of length `k`.
pub proof fn lemma_extendable_output_consistency(m: ModeSpec, b: Seq<u8>, k: nat, l: nat)
    requires
        k <= l,
    ensures
        digest_spec(m, b, l).subrange(0, k as int) == digest_spec(m, b, k),
{
    assert(digest_spec(m, b, l).subrange(0, k as int) =~= digest_spec(m, b, k));
}

/// Seek correctness: the `l` bytes read after seeking to offset `o` are
/// bytes `[o, o + l)` of the stream obtained by filling from offset 0.
pub proof fn lemma_seek_correctness(m: ModeSpec, b: Seq<u8>, o: nat, l: nat)
    ensures
        xof_bytes(m, b, o as int, l) == xof_bytes(m, b, 0, o + l).subrange(
            o as int,
            (o + l) as int,
        ),
{
    assert(xof_bytes(m, b, o as int, l) =~= xof_bytes(m, b, 0, o + l).subrange(
        o as int,
        (o + l) as int,
    ));
}

/// Fill concatenation: filling `l1` bytes and then `l2` bytes reads the
/// same stretch of the stream as a single fill of `l1 + l2` bytes — the
/// stream has no block-alignment artifacts visible to the caller.
pub proof fn lemma_fill_concatenation(m: ModeSpec, b: Seq<u8>, start: int, l1: nat, l2: nat)
    ensures
        xof_bytes(m, b, start, l1) + xof_bytes(m, b, start + l1, l2) == xof_bytes(
            m,
            b,
            start,
            l1 + l2,
        ),
{
    assert(xof_bytes(m, b, start, l1) + xof_bytes(m, b, start + l1, l2) =~= xof_bytes(
        m,
        b,
        start,
        l1 + l2,
    ));
}

/// Update associativity: feeding `b1` and then `b2` accumulates the same
/// input as feeding `b1 + b2` in one call, empty sequences included, so
/// every finalized output of the two hashers is the same.
pub proof fn lemma_update_associativity(m: ModeSpec, s: Seq<u8>, b1: Seq<u8>, b2: Seq<u8>, len: nat)
    ensures
        (s + b1) + b2 == s + (b1 + b2),
        digest_spec(m, (s + b1) + b2, len) == digest_spec(m, s + (b1 + b2), len),
{
    assert((s + b1) + b2 =~= s + (b1 + b2));
}

} // verus!
