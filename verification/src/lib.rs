//! Verified core of a file compression tool.
//!
//! The library understands four compression formats (gzip, zstd, lz4, zip)
//! and offers a single compress / decompress pass over in-memory bytes,
//! processed in fixed-size chunks with a bounded progress counter.
//! The codec backends themselves are outside libraries; everything around
//! them — format selection, output naming, the chunked copy loop, the
//! progress counter, and error reporting — is verified.

pub mod codec;
pub mod format;
pub mod pipeline;
pub mod progress;
