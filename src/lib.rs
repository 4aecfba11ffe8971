//! Streaming BLAKE2s-256 checksums of byte sources, rendered as lowercase hex.
//!
//! A scan consumes its source in chunks of any size, in order, and ends on the first
//! empty chunk; the result depends on the source's bytes alone.

pub mod digest_state;
pub mod hex_text;
pub mod laws;
pub mod options;
pub mod scanner;

pub use options::{BlobsOptions, FileInfo, ScanOptions};
pub use scanner::{
    checksum_chunked, checksum_chunks, ChecksumScanner, ScanError, ScanEvent, ScanStep,
    DEFAULT_CHUNK_SIZE,
};
