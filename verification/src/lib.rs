//! The atomic unit of the PNG container format: the self-describing,
//! checksummed binary chunk, with its 4-byte case-encoded type tag.
//!
//! A [`chunk_type::ChunkType`] names a chunk and carries the format's
//! per-byte flag semantics; a [`chunk::Chunk`] couples a type tag with a
//! payload and a CRC-32 checksum and provides the byte-exact codec in both
//! directions.

pub mod chunk;
pub mod chunk_type;
pub mod crc32;
pub mod error;
pub mod wire;
