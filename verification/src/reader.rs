//! The seekable reader over a finalized hasher's extendable output. The
//! output is a pure function of mode, accumulated input and byte offset, so
//! the cursor may be set to any offset without materializing skipped bytes,
//! and readers from the same hasher never interfere with one another. Each
//! reader carries a ghost mirror of the primitive state it was finalized
//! from and of its cursor.

use vstd::prelude::*;
use crate::hasher::Blake3Hash;
use crate::model::{ModeSpec, xof_byte, xof_bytes};

verus! {

#[verifier::external_type_specification]
#[verifier::external_body]
pub struct ExOutputReader(blake3::OutputReader);

/// Relies on blake3::Hasher::finalize_xof: an extendable-output reader
/// over the hasher's accumulated input, with its cursor at 0. Finalization
/// is idempotent and takes the hasher by shared reference, so the hasher
/// is neither consumed nor mutated.
#[verifier::external_body]
fn primitive_finalize_xof(hasher: &blake3::Hasher) -> blake3::OutputReader {
    hasher.finalize_xof()
}

/// Relies on blake3::OutputReader::set_position: repositions the cursor to
/// the given absolute byte offset, with no other effect.
#[verifier::external_body]
fn primitive_set_position(reader: &mut blake3::OutputReader, position: u64) {
    reader.set_position(position);
}

/// The abstract state of a seekable reader: the mode and accumulated input
/// of the hasher it was spawned from, frozen at finalization time, and the
/// cursor, a byte offset into the infinite output stream.
pub struct ReaderView {
    pub mode: ModeSpec,
    pub input: Seq<u8>,
    pub pos: int,
}

/// A seekable reader of extendable output. `fill` hands out the next bytes
/// of the stream and advances the cursor; `set_position` moves the cursor
/// to an arbitrary offset. The ghost fields mirror the primitive state the
/// reader was finalized from and the primitive's cursor.
pub struct HashReader {
    pub(crate) inner: blake3::OutputReader,
    pub(crate) mode: Ghost<ModeSpec>,
    pub(crate) input: Ghost<Seq<u8>>,
    pub(crate) pos: Ghost<int>,
}

impl View for HashReader {
    type V = ReaderView;

    closed spec fn view(&self) -> ReaderView {
        ReaderView { mode: self.mode@, input: self.input@, pos: self.pos@ }
    }
}

impl HashReader {
    /// Relies on blake3::OutputReader::fill: fills the whole buffer with
    /// the output bytes at the cursor and advances the cursor by the
    /// buffer's length. The primitive defines output up to 2^64 - 1 bytes,
    /// so the cursor must not be driven past that.
    #[verifier::external_body]
    fn raw_fill(&mut self, length: usize) -> (r: Vec<u8>)
        requires
            0 <= old(self)@.pos,
            old(self)@.pos + length <= u64::MAX,
        ensures
            final(self)@.mode == old(self)@.mode,
            final(self)@.input == old(self)@.input,
            final(self)@.pos == old(self)@.pos + length,
            r@ == xof_bytes(old(self)@.mode, old(self)@.input, old(self)@.pos, length as nat),
            forall|i: int|
                0 <= i < length ==> r@[i] == xof_byte(
                    old(self)@.mode,
                    old(self)@.input,
                    old(self)@.pos + i,
                ),
    {
        let mut buf = vec![0u8; length];
        self.inner.fill(buf.as_mut_slice());
        buf
    }

    /// Relies on blake3::OutputReader::position: the cursor's current byte
    /// offset in the output stream.
    #[verifier::external_body]
    fn raw_position(&self) -> (r: u64)
        ensures
            r as int == self@.pos,
    {
        self.inner.position()
    }

    /// A new reader over the extendable output of the given hasher's
    /// accumulated input, with its cursor at 0.
    pub(crate) fn from_hasher(h: &Blake3Hash) -> (r: HashReader)
        ensures
            r@.mode == h@.mode,
            r@.input == h@.input,
            r@.pos == 0,
    {
        HashReader {
            inner: primitive_finalize_xof(&h.hasher),
            mode: Ghost(h@.mode),
            input: Ghost(h@.input),
            pos: Ghost(0int),
        }
    }

    /// Exactly `length` bytes of the output stream starting at the cursor;
    /// the cursor advances by `length`. Consecutive fills read consecutive
    /// stretches of the stream, with no alignment artifacts.
    pub fn fill(&mut self, length: usize) -> (r: Vec<u8>)
        requires
            0 <= old(self)@.pos,
            old(self)@.pos + length <= u64::MAX,
        ensures
            final(self)@.mode == old(self)@.mode,
            final(self)@.input == old(self)@.input,
            final(self)@.pos == old(self)@.pos + length,
            r@ == xof_bytes(old(self)@.mode, old(self)@.input, old(self)@.pos, length as nat),
            r@.len() == length,
    {
        self.raw_fill(length)
    }

    /// The cursor's current byte offset in the output stream.
    pub fn position(&self) -> (r: u64)
        ensures
            r as int == self@.pos,
    {
        self.raw_position()
    }

    /// Like `fill`, for callers that do not track the cursor themselves:
    /// `None` exactly when the requested stretch would pass the end of the
    /// primitive's defined output, with the reader left unchanged.
    pub fn fill_checked(&mut self, length: usize) -> (r: Option<Vec<u8>>)
        ensures
            old(self)@.pos + length <= u64::MAX ==> (r matches Some(v)
                && final(self)@.mode == old(self)@.mode
                && final(self)@.input == old(self)@.input
                && final(self)@.pos == old(self)@.pos + length
                && v@ == xof_bytes(old(self)@.mode, old(self)@.input, old(self)@.pos, length as nat)
                && v@.len() == length),
            old(self)@.pos + length > u64::MAX ==> r is None && final(self)@ == old(self)@,
    {
        let pos = self.raw_position();
        if (length as u64) <= u64::MAX - pos {
            Some(self.fill(length))
        } else {
            None
        }
    }

    /// Moves the cursor to the absolute byte offset `position`. Bytes
    /// already delivered are unaffected, and no other reader is.
    pub fn set_position(&mut self, position: u64)
        ensures
            final(self)@.mode == old(self)@.mode,
            final(self)@.input == old(self)@.input,
            final(self)@.pos == position as int,
    {
        primitive_set_position(&mut self.inner, position);
        self.pos = Ghost(position as int);
    }
}

} // verus!
