//! Sizes of a remote gzip-compressed tarball, learned without downloading it.
//!
//! The compressed size is what the server declares in `Content-Length`. The
//! uncompressed size is the last field of the gzip stream, fetched with one
//! ranged request for the final four bytes where the server offers byte ranges.

pub mod decimal;
pub mod error;
pub mod field;
pub mod head;
pub mod probe;
pub mod trailer;
