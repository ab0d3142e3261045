//! Compression configuration: codec-specific level types, the codec enum,
//! and the resolver that turns a codec name and an optional level into a
//! validated configuration.

pub mod gzip;
pub mod parse;
pub mod zstd;
