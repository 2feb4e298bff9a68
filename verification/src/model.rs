//! The mathematical model of the hash facade: construction modes and the
//! extendable output stream, seen as a pure function of mode, accumulated
//! input and byte offset.

use vstd::prelude::*;

verus! {

/// The primitive's fixed digest length in bytes.
pub const DIGEST_LEN: usize = 32;

/// A construction mode, at the specification level: plain hashing, keyed
/// hashing with the key bytes, or key derivation from a context string.
pub enum ModeSpec {
    Plain,
    Keyed(Seq<u8>),
    Derived(Seq<char>),
}

/// A mode is valid when its key material, if it has any, is exactly 32
/// bytes. Plain and derived modes carry no key material; any context
/// string, the empty one included, is a valid domain-separation label.
pub open spec fn mode_valid(m: ModeSpec) -> bool {
    match m {
        ModeSpec::Plain => true,
        ModeSpec::Keyed(key) => key.len() == 32,
        ModeSpec::Derived(context) => true,
    }
}

/// The byte at `offset` of the conceptually infinite extendable output
/// stream that the hash primitive produces for the given mode and
/// accumulated input. The stream is a pure function of these three
/// arguments, which is what makes independent, seekable readers possible.
pub uninterp spec fn xof_byte(m: ModeSpec, input: Seq<u8>, offset: int) -> u8;

/// The `len` bytes of the extendable output stream starting at `start`.
pub open spec fn xof_bytes(m: ModeSpec, input: Seq<u8>, start: int, len: nat) -> Seq<u8> {
    Seq::new(len, |i: int| xof_byte(m, input, start + i))
}

/// The first `len` bytes of the extendable output stream: what a digest
/// of length `len` returns for the given mode and accumulated input.
pub open spec fn digest_spec(m: ModeSpec, input: Seq<u8>, len: nat) -> Seq<u8> {
    xof_bytes(m, input, 0, len)
}

} // verus!
