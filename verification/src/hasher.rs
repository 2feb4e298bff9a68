//! The incremental hasher: construction-mode selection and validation,
//! streaming input updates, and finalization to a fixed or variable-length
//! digest or to a seekable reader. The BLAKE3 primitive itself is an
//! external collaborator, reached only through the trusted wrappers here.
//! Each hasher carries a ghost mirror of the primitive's state — its mode
//! and accumulated input — which the verified code keeps in step with every
//! call into the primitive; the finalization wrappers state their results
//! over that mirror.

use vstd::prelude::*;
use crate::model::{ModeSpec, mode_valid, digest_spec, xof_bytes, DIGEST_LEN};
use crate::reader::HashReader;

verus! {

/// A construction-mode argument for a new hasher.
pub enum Mode {
    Plain,
    Keyed(Vec<u8>),
    Derived(String),
}

impl View for Mode {
    type V = ModeSpec;

    open spec fn view(&self) -> ModeSpec {
        match self {
            Mode::Plain => ModeSpec::Plain,
            Mode::Keyed(key) => ModeSpec::Keyed(key@),
            Mode::Derived(context) => ModeSpec::Derived(context@),
        }
    }
}

/// An error of the facade. Every failure is detected at the offending call
/// and is fatal to that call only.
#[derive(Clone, Copy, Debug, PartialEq, Eq, Structural)]
pub enum HashError {
    /// Key material supplied to keyed construction is not exactly 32 bytes.
    InvalidKeyLength,
    /// Construction was invoked with an unsupported parameter combination.
    InvalidArgumentCount,
    /// A caller-supplied output buffer does not match the requested length.
    BufferLengthMismatch,
}

#[verifier::external_type_specification]
#[verifier::external_body]
pub struct ExHasher(blake3::Hasher);

/// Relies on blake3::Hasher::new: the incremental hasher for the plain
/// hash function, with nothing fed to it yet.
#[verifier::external_body]
fn primitive_new() -> blake3::Hasher {
    blake3::Hasher::new()
}

/// Relies on blake3::Hasher::new_keyed: the incremental hasher for the
/// keyed hash function under the given 32-byte key, with nothing fed to it
/// yet. The length bound guards the copy into the primitive's key array.
#[verifier::external_body]
fn primitive_new_keyed(key: &[u8]) -> blake3::Hasher
    requires
        key@.len() == 32,
{
    let mut key_bytes = [0u8; 32];
    key_bytes.copy_from_slice(key);
    blake3::Hasher::new_keyed(&key_bytes)
}

/// Relies on blake3::Hasher::new_derive_key: the incremental hasher for
/// the key derivation function under the given context string, with
/// nothing fed to it yet.
#[verifier::external_body]
fn primitive_new_derive(context: &str) -> blake3::Hasher {
    blake3::Hasher::new_derive_key(context)
}

/// Relies on blake3::Hasher::update: appends the bytes to the primitive's
/// accumulated input, in call order, never panicking for hashers made by
/// the three constructors above.
#[verifier::external_body]
fn primitive_update(hasher: &mut blake3::Hasher, input_bytes: &[u8]) {
    hasher.update(input_bytes);
}

/// The abstract state of an incremental hasher: its construction mode,
/// fixed for its whole life, and the bytes fed to it so far, in order.
pub struct HasherView {
    pub mode: ModeSpec,
    pub input: Seq<u8>,
}

/// An incremental hasher. Its mode is chosen at construction; `update`
/// appends bytes to the accumulated input; finalization is idempotent and
/// non-destructive, so digests and readers may be taken many times, and
/// later updates affect only later finalizations. The ghost fields mirror
/// the mode the primitive was constructed with and the input fed to it.
pub struct Blake3Hash {
    pub(crate) hasher: blake3::Hasher,
    pub(crate) mode: Ghost<ModeSpec>,
    pub(crate) input: Ghost<Seq<u8>>,
}

impl View for Blake3Hash {
    type V = HasherView;

    closed spec fn view(&self) -> HasherView {
        HasherView { mode: self.mode@, input: self.input@ }
    }
}

impl Blake3Hash {
    /// Relies on blake3::Hasher::finalize: the 32-byte digest of the
    /// accumulated input, which the primitive documents to equal the first
    /// 32 bytes of its extendable output for the same mode and input.
    /// Finalization is idempotent and does not mutate the hasher.
    #[verifier::external_body]
    fn raw_finalize(&self) -> (r: Vec<u8>)
        ensures
            r@ == xof_bytes(self@.mode, self@.input, 0, 32),
    {
        self.hasher.finalize().as_bytes().to_vec()
    }

    /// A new hasher in plain mode with no accumulated input.
    pub fn new() -> (r: Blake3Hash)
        ensures
            r@.mode == ModeSpec::Plain,
            r@.input == Seq::<u8>::empty(),
    {
        Blake3Hash {
            hasher: primitive_new(),
            mode: Ghost(ModeSpec::Plain),
            input: Ghost(Seq::empty()),
        }
    }

    /// A new hasher in the given mode. Fails with `InvalidKeyLength`, and
    /// only then, when the mode carries key material that is not exactly
    /// 32 bytes; otherwise the hasher starts with no accumulated input.
    pub fn construct(mode: Mode) -> (r: Result<Blake3Hash, HashError>)
        ensures
            mode_valid(mode@) ==> (r matches Ok(h)
                && h@.mode == mode@
                && h@.input == Seq::<u8>::empty()),
            !mode_valid(mode@) ==> r == Err::<Blake3Hash, HashError>(HashError::InvalidKeyLength),
    {
        match mode {
            Mode::Plain => Ok(Blake3Hash::new()),
            Mode::Keyed(key) => {
                if key.len() == 32 {
                    Ok(
                        Blake3Hash {
                            hasher: primitive_new_keyed(key.as_slice()),
                            mode: Ghost(ModeSpec::Keyed(key@)),
                            input: Ghost(Seq::empty()),
                        },
                    )
                } else {
                    Err(HashError::InvalidKeyLength)
                }
            },
            Mode::Derived(context) => {
                Ok(
                    Blake3Hash {
                        hasher: primitive_new_derive(context.as_str()),
                        mode: Ghost(ModeSpec::Derived(context@)),
                        input: Ghost(Seq::empty()),
                    },
                )
            },
        }
    }

    /// A new hasher from an optional key and an optional context, the way a
    /// dynamically typed caller supplies them: neither means plain mode, a
    /// key alone means keyed mode, a context alone means derived mode, and
    /// both together are an unsupported combination.
    pub fn construct_from_args(key: Option<Vec<u8>>, context: Option<String>) -> (r: Result<
        Blake3Hash,
        HashError,
    >)
        ensures
            ({
                match (key, context) {
                    (Option::None, Option::None) => r matches Ok(h)
                        && h@.mode == ModeSpec::Plain
                        && h@.input == Seq::<u8>::empty(),
                    (Option::Some(k), Option::None) => if k@.len() == 32 {
                        r matches Ok(h)
                            && h@.mode == ModeSpec::Keyed(k@)
                            && h@.input == Seq::<u8>::empty()
                    } else {
                        r == Err::<Blake3Hash, HashError>(HashError::InvalidKeyLength)
                    },
                    (Option::None, Option::Some(c)) => r matches Ok(h)
                        && h@.mode == ModeSpec::Derived(c@)
                        && h@.input == Seq::<u8>::empty(),
                    (Option::Some(_), Option::Some(_)) => r == Err::<Blake3Hash, HashError>(
                        HashError::InvalidArgumentCount,
                    ),
                }
            }),
    {
        match (key, context) {
            (None, None) => Ok(Blake3Hash::new()),
            (Some(k), None) => Blake3Hash::construct(Mode::Keyed(k)),
            (None, Some(c)) => Blake3Hash::construct(Mode::Derived(c)),
            (Some(_), Some(_)) => Err(HashError::InvalidArgumentCount),
        }
    }

    /// Appends the bytes to the accumulated input; the mode never changes.
    /// Calls are order-sensitive: the result is as if the concatenation of
    /// all fed byte sequences had been hashed in one call.
    pub fn update(&mut self, input_bytes: &[u8])
        ensures
            final(self)@.mode == old(self)@.mode,
            final(self)@.input == old(self)@.input + input_bytes@,
    {
        primitive_update(&mut self.hasher, input_bytes);
        self.input = Ghost(self.input@ + input_bytes@);
    }

    /// The fixed-length digest of the accumulated input: the first 32 bytes
    /// of the extendable output. Does not mutate the hasher.
    pub fn digest_fixed(&self) -> (r: Vec<u8>)
        ensures
            r@ == digest_spec(self@.mode, self@.input, DIGEST_LEN as nat),
            r@.len() == DIGEST_LEN,
    {
        self.raw_finalize()
    }

    /// Exactly `length` bytes of extendable output for the accumulated
    /// input, equal to spawning a reader and filling `length` bytes from
    /// offset 0. Does not mutate the hasher.
    pub fn digest(&self, length: usize) -> (r: Vec<u8>)
        ensures
            r@ == digest_spec(self@.mode, self@.input, length as nat),
            r@.len() == length,
    {
        let mut rd = self.reader();
        rd.fill(length)
    }

    /// Fills a caller-supplied buffer with the digest of the accumulated
    /// input. Fails with `BufferLengthMismatch`, and only then, when the
    /// buffer's length is not the requested `length`; a failed call leaves
    /// the buffer unchanged.
    pub fn digest_into(&self, out: &mut Vec<u8>, length: usize) -> (r: Result<(), HashError>)
        ensures
            old(out)@.len() == length ==> r == Ok::<(), HashError>(())
                && final(out)@ == digest_spec(self@.mode, self@.input, length as nat),
            old(out)@.len() != length ==> r == Err::<(), HashError>(HashError::BufferLengthMismatch)
                && final(out)@ == old(out)@,
    {
        if out.len() != length {
            return Err(HashError::BufferLengthMismatch);
        }
        let d = self.digest(length);
        *out = d;
        Ok(())
    }

    /// A new seekable reader over the extendable output of the accumulated
    /// input, with its cursor at 0. The hasher is not consumed or mutated:
    /// the reader is an immutable snapshot, so readers spawned from the
    /// same hasher are mutually independent, and later updates affect only
    /// later finalizations.
    pub fn reader(&self) -> (r: HashReader)
        ensures
            r@.mode == self@.mode,
            r@.input == self@.input,
            r@.pos == 0,
    {
        HashReader::from_hasher(self)
    }
}

/// A new hasher in plain mode, under the name the boundary exposes.
pub fn create_hasher() -> (r: Blake3Hash)
    ensures
        r@.mode == ModeSpec::Plain,
        r@.input == Seq::<u8>::empty(),
{
    Blake3Hash::new()
}

/// A new hasher in keyed mode. Fails with `InvalidKeyLength`, and only
/// then, when the key is not exactly 32 bytes.
pub fn create_keyed(key_slice: &[u8]) -> (r: Result<Blake3Hash, HashError>)
    ensures
        key_slice@.len() == 32 ==> (r matches Ok(h)
            && h@.mode == ModeSpec::Keyed(key_slice@)
            && h@.input == Seq::<u8>::empty()),
        key_slice@.len() != 32 ==> r == Err::<Blake3Hash, HashError>(HashError::InvalidKeyLength),
{
    if key_slice.len() == 32 {
        Ok(
            Blake3Hash {
                hasher: primitive_new_keyed(key_slice),
                mode: Ghost(ModeSpec::Keyed(key_slice@)),
                input: Ghost(Seq::empty()),
            },
        )
    } else {
        Err(HashError::InvalidKeyLength)
    }
}

/// A new hasher in derived mode under the given context string; every
/// context, the empty one included, is a valid domain-separation label.
pub fn create_derive(context: String) -> (r: Blake3Hash)
    ensures
        r@.mode == ModeSpec::Derived(context@),
        r@.input == Seq::<u8>::empty(),
{
    Blake3Hash {
        hasher: primitive_new_derive(context.as_str()),
        mode: Ghost(ModeSpec::Derived(context@)),
        input: Ghost(Seq::empty()),
    }
}

} // verus!
