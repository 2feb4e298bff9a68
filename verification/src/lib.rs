//! A facade over the BLAKE3 hash primitive: incremental hashing in three
//! construction modes (plain, keyed, context-derived), with a fixed-length
//! digest and a seekable extendable-output reader.

pub mod hasher;
pub mod laws;
pub mod model;
pub mod oneshot;
pub mod reader;

pub use model::DIGEST_LEN;
