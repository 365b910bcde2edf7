//! Content-addressed, encrypted object store: sealed-header key hierarchy,
//! fixed-size authenticated object format, and a pooled chunk writer/reader
//! pipeline in front of a pluggable storage backend.
//!
//! Chunks are stored uncompressed: the pipeline's compress/decompress step
//! is the identity, so a chunk's sealed size equals its plaintext size.
use vstd::prelude::*;

pub mod backend;
pub mod balancer;
pub mod chunks;
pub mod codec;
pub mod crypto;
pub mod header;
pub mod id;
pub mod keys;
pub mod laws;
pub mod object;
pub mod reader;
pub mod writer;

verus! {

/// Size in bytes of one storage object: the unit of backend I/O.
pub const BLOCK_SIZE: usize = 4194304;

/// Size in bytes of a raw secret key.
pub const KEY_SIZE: usize = 32;

} // verus!
